//! The normalized record of one discovered resource.

use crate::strmap::StrMap;
use vstd::prelude::*;

verus! {

/// The category of a resource. A native type without a category of its own
/// is `Other`.
#[derive(Debug, Clone, Copy, PartialEq, Eq, Structural)]
pub enum AssetKind {
    ObjectStore,
    Compute,
    BlockStorage,
    Database,
    NoSqlStore,
    MessageQueue,
    Registry,
    LogStore,
    Stream,
    Topic,
    FileStore,
    Other,
}

/// The written form of each kind.
pub open spec fn kind_label(kind: AssetKind) -> Seq<char> {
    match kind {
        AssetKind::ObjectStore => "ObjectStore"@,
        AssetKind::Compute => "Compute"@,
        AssetKind::BlockStorage => "BlockStorage"@,
        AssetKind::Database => "Database"@,
        AssetKind::NoSqlStore => "NoSqlStore"@,
        AssetKind::MessageQueue => "MessageQueue"@,
        AssetKind::Registry => "Registry"@,
        AssetKind::LogStore => "LogStore"@,
        AssetKind::Stream => "Stream"@,
        AssetKind::Topic => "Topic"@,
        AssetKind::FileStore => "FileStore"@,
        AssetKind::Other => "Other"@,
    }
}

impl AssetKind {
    /// The written form of the kind, as it appears in a serialized record.
    pub fn label(&self) -> (s: &'static str)
        ensures
            s@ == kind_label(*self),
    {
        match self {
            AssetKind::ObjectStore => "ObjectStore",
            AssetKind::Compute => "Compute",
            AssetKind::BlockStorage => "BlockStorage",
            AssetKind::Database => "Database",
            AssetKind::NoSqlStore => "NoSqlStore",
            AssetKind::MessageQueue => "MessageQueue",
            AssetKind::Registry => "Registry",
            AssetKind::LogStore => "LogStore",
            AssetKind::Stream => "Stream",
            AssetKind::Topic => "Topic",
            AssetKind::FileStore => "FileStore",
            AssetKind::Other => "Other",
        }
    }
}

/// A structured value of a record's metadata.
#[derive(Debug)]
pub enum MetaValue {
    Null,
    Flag(bool),
    Number(i64),
    Text(String),
    List(Vec<MetaValue>),
    Record(Vec<MetaField>),
}

/// A named member of a [`MetaValue::Record`].
#[derive(Debug)]
pub struct MetaField {
    pub name: String,
    pub value: MetaValue,
}

/// What a [`MetaField`] holds.
pub struct MetaFieldModel {
    pub name: Seq<char>,
    pub value: MetaModel,
}

/// What a [`MetaValue`] holds.
pub enum MetaModel {
    Null,
    Flag(bool),
    Number(int),
    Text(Seq<char>),
    List(Seq<MetaModel>),
    Record(Seq<MetaFieldModel>),
}

impl View for MetaValue {
    type V = MetaModel;

    open spec fn view(&self) -> MetaModel
        decreases self,
    {
        match self {
            MetaValue::Null => MetaModel::Null,
            MetaValue::Flag(b) => MetaModel::Flag(*b),
            MetaValue::Number(n) => MetaModel::Number(*n as int),
            MetaValue::Text(s) => MetaModel::Text(s@),
            MetaValue::List(items) => MetaModel::List(
                Seq::new(
                    items@.len(),
                    |i: int|
                        if 0 <= i < items@.len() {
                            items@[i]@
                        } else {
                            MetaModel::Null
                        },
                ),
            ),
            MetaValue::Record(fields) => MetaModel::Record(
                Seq::new(
                    fields@.len(),
                    |i: int|
                        if 0 <= i < fields@.len() {
                            MetaFieldModel { name: fields@[i].name@, value: fields@[i].value@ }
                        } else {
                            MetaFieldModel { name: Seq::empty(), value: MetaModel::Null }
                        },
                ),
            ),
        }
    }
}

impl Clone for MetaValue {
    fn clone(&self) -> (r: Self)
        ensures
            r@ == self@,
        decreases self,
    {
        match self {
            MetaValue::Null => MetaValue::Null,
            MetaValue::Flag(b) => MetaValue::Flag(*b),
            MetaValue::Number(n) => MetaValue::Number(*n),
            MetaValue::Text(s) => MetaValue::Text(s.clone()),
            MetaValue::List(items) => {
                let mut out: Vec<MetaValue> = Vec::new();
                let n: usize = items.len();
                let mut i: usize = 0;
                while i < n
                    invariant
                        n == items@.len(),
                        i <= n,
                        out@.len() == i,
                        *self == MetaValue::List(*items),
                        forall|j: int| 0 <= j < i ==> (#[trigger] out@[j])@ == items@[j]@,
                    decreases n - i,
                {
                    proof {
                        assert(self->List_0 == *items);
                        assert(decreases_to!(*self => self->List_0));
                        assert(decreases_to!(*items => items[i as int]));
                        assert(decreases_to!(*self => items[i as int]));
                    }
                    let item = items[i].clone();
                    out.push(item);
                    i = i + 1;
                }
                let r = MetaValue::List(out);
                assert(r@ =~= self@) by {
                    assert(r@->List_0 =~= self@->List_0);
                }
                r
            },
            MetaValue::Record(fields) => {
                let mut out: Vec<MetaField> = Vec::new();
                let n: usize = fields.len();
                let mut i: usize = 0;
                while i < n
                    invariant
                        n == fields@.len(),
                        i <= n,
                        out@.len() == i,
                        *self == MetaValue::Record(*fields),
                        forall|j: int|
                            0 <= j < i ==> (#[trigger] out@[j]).name@ == fields@[j].name@
                                && out@[j].value@ == fields@[j].value@,
                    decreases n - i,
                {
                    proof {
                        assert(self->Record_0 == *fields);
                        assert(decreases_to!(*self => self->Record_0));
                        assert(decreases_to!(*fields => fields[i as int]));
                        assert(decreases_to!(fields[i as int] => fields[i as int].value));
                        assert(decreases_to!(*self => fields[i as int].value));
                    }
                    let name = fields[i].name.clone();
                    let value = fields[i].value.clone();
                    out.push(MetaField { name, value });
                    i = i + 1;
                }
                let r = MetaValue::Record(out);
                assert(r@ =~= self@) by {
                    assert forall|j: int| 0 <= j < n implies r@->Record_0[j]
                        == self@->Record_0[j] by {
                        assert(out@[j].name@ == fields@[j].name@);
                    }
                    assert(r@->Record_0 =~= self@->Record_0);
                }
                r
            },
        }
    }
}

/// The normalized record of one resource.
#[derive(Debug)]
pub struct Asset {
    pub id: String,
    pub service: String,
    pub kind: AssetKind,
    pub region: String,
    pub name: Option<String>,
    pub uri: Option<String>,
    pub size_bytes: Option<u64>,
    pub encrypted: Option<bool>,
    pub kms_key_id: Option<String>,
    pub tags: StrMap<String>,
    pub metadata: StrMap<MetaValue>,
}

/// What an [`Asset`] holds.
pub struct AssetModel {
    pub id: Seq<char>,
    pub service: Seq<char>,
    pub kind: AssetKind,
    pub region: Seq<char>,
    pub name: Option<Seq<char>>,
    pub uri: Option<Seq<char>>,
    pub size_bytes: Option<u64>,
    pub encrypted: Option<bool>,
    pub kms_key_id: Option<Seq<char>>,
    pub tags: Map<Seq<char>, Seq<char>>,
    pub metadata: Map<Seq<char>, MetaModel>,
}

/// The text of an optional string.
pub open spec fn opt_text(s: Option<String>) -> Option<Seq<char>> {
    match s {
        Some(x) => Some(x@),
        None => None,
    }
}

/// A map of tags by the text of its values.
pub open spec fn tags_model(tags: StrMap<String>) -> Map<Seq<char>, Seq<char>> {
    tags@.map_values(|v: String| v@)
}

/// A map of metadata by what its values hold.
pub open spec fn metadata_model(metadata: StrMap<MetaValue>) -> Map<Seq<char>, MetaModel> {
    metadata@.map_values(|v: MetaValue| v@)
}

/// A map of metadata with `value` under `key`.
pub open spec fn with_meta(
    m: Map<Seq<char>, MetaModel>,
    key: Seq<char>,
    value: MetaModel,
) -> Map<Seq<char>, MetaModel> {
    m.insert(key, value)
}

/// A map of metadata with the text under `key`, where there is a text.
pub open spec fn with_opt_text(
    m: Map<Seq<char>, MetaModel>,
    key: Seq<char>,
    value: Option<Seq<char>>,
) -> Map<Seq<char>, MetaModel> {
    match value {
        Some(t) => m.insert(key, MetaModel::Text(t)),
        None => m,
    }
}

/// A map of metadata with the number under `key`, where there is a number.
pub open spec fn with_opt_number(
    m: Map<Seq<char>, MetaModel>,
    key: Seq<char>,
    value: Option<int>,
) -> Map<Seq<char>, MetaModel> {
    match value {
        Some(n) => m.insert(key, MetaModel::Number(n)),
        None => m,
    }
}

/// A map of metadata with the flag under `key`, where there is a flag.
pub open spec fn with_opt_flag(
    m: Map<Seq<char>, MetaModel>,
    key: Seq<char>,
    value: Option<bool>,
) -> Map<Seq<char>, MetaModel> {
    match value {
        Some(b) => m.insert(key, MetaModel::Flag(b)),
        None => m,
    }
}

/// The number of an optional 32-bit integer.
pub open spec fn opt_int32(n: Option<i32>) -> Option<int> {
    match n {
        Some(x) => Some(x as int),
        None => None,
    }
}

/// The number of an optional 64-bit integer.
pub open spec fn opt_int64(n: Option<i64>) -> Option<int> {
    match n {
        Some(x) => Some(x as int),
        None => None,
    }
}

/// The value of an optional text: the text, or null where there is none.
pub open spec fn text_or_null(s: Option<Seq<char>>) -> MetaModel {
    match s {
        Some(t) => MetaModel::Text(t),
        None => MetaModel::Null,
    }
}

/// The value of an optional text.
pub fn meta_of_opt_text(s: &Option<String>) -> (v: MetaValue)
    ensures
        v@ == text_or_null(opt_text(*s)),
{
    match s {
        Some(t) => MetaValue::Text(t.clone()),
        None => MetaValue::Null,
    }
}

/// The value of an optional flag: the flag, or null where there is none.
pub open spec fn flag_or_null(b: Option<bool>) -> MetaModel {
    match b {
        Some(x) => MetaModel::Flag(x),
        None => MetaModel::Null,
    }
}

/// The value of an optional number: the number, or null where there is
/// none.
pub open spec fn number_or_null(n: Option<i64>) -> MetaModel {
    match n {
        Some(x) => MetaModel::Number(x as int),
        None => MetaModel::Null,
    }
}

/// The value of an optional flag.
pub fn meta_of_opt_flag(b: Option<bool>) -> (v: MetaValue)
    ensures
        v@ == flag_or_null(b),
{
    match b {
        Some(x) => MetaValue::Flag(x),
        None => MetaValue::Null,
    }
}

/// The value of an optional number.
pub fn meta_of_opt_number(n: Option<i64>) -> (v: MetaValue)
    ensures
        v@ == number_or_null(n),
{
    match n {
        Some(x) => MetaValue::Number(x),
        None => MetaValue::Null,
    }
}

/// The value of a text.
pub fn meta_of_text(s: &str) -> (v: MetaValue)
    ensures
        v@ == MetaModel::Text(s@),
{
    MetaValue::Text(s.to_owned())
}

/// A member of a record.
pub fn meta_field(name: &str, value: MetaValue) -> (f: MetaField)
    ensures
        f.name@ == name@,
        f.value == value,
{
    MetaField { name: name.to_owned(), value }
}

/// What each member of a list of fields holds.
pub open spec fn field_models(fields: Seq<MetaField>) -> Seq<MetaFieldModel> {
    Seq::new(
        fields.len(),
        |i: int| MetaFieldModel { name: fields[i].name@, value: fields[i].value@ },
    )
}

/// What each value of a list holds.
pub open spec fn value_models(items: Seq<MetaValue>) -> Seq<MetaModel> {
    Seq::new(items.len(), |i: int| items[i]@)
}

/// The record with the members `fields`.
pub fn meta_record(fields: Vec<MetaField>) -> (v: MetaValue)
    ensures
        v@ == MetaModel::Record(field_models(fields@)),
{
    let v = MetaValue::Record(fields);
    assert(v@->Record_0 =~= field_models(fields@));
    v
}

/// The list of the values `items`.
pub fn meta_list(items: Vec<MetaValue>) -> (v: MetaValue)
    ensures
        v@ == MetaModel::List(value_models(items@)),
{
    let v = MetaValue::List(items);
    assert(v@->List_0 =~= value_models(items@));
    v
}

/// Puts `value` under `key`.
pub fn put_meta(metadata: &mut StrMap<MetaValue>, key: &str, value: MetaValue)
    ensures
        metadata_model(*final(metadata)) == with_meta(metadata_model(*old(metadata)), key@, value@),
{
    metadata.insert(key.to_owned(), value);
    assert(metadata_model(*metadata) =~= metadata_model(*old(metadata)).insert(key@, value@));
}

/// Puts a text under `key`.
pub fn put_text(metadata: &mut StrMap<MetaValue>, key: &str, value: &str)
    ensures
        metadata_model(*final(metadata)) == with_meta(
            metadata_model(*old(metadata)),
            key@,
            MetaModel::Text(value@),
        ),
{
    put_meta(metadata, key, MetaValue::Text(value.to_owned()));
}

/// Puts a flag under `key`.
pub fn put_flag(metadata: &mut StrMap<MetaValue>, key: &str, value: bool)
    ensures
        metadata_model(*final(metadata)) == with_meta(
            metadata_model(*old(metadata)),
            key@,
            MetaModel::Flag(value),
        ),
{
    put_meta(metadata, key, MetaValue::Flag(value));
}

/// Puts a number under `key`.
pub fn put_number(metadata: &mut StrMap<MetaValue>, key: &str, value: i64)
    ensures
        metadata_model(*final(metadata)) == with_meta(
            metadata_model(*old(metadata)),
            key@,
            MetaModel::Number(value as int),
        ),
{
    put_meta(metadata, key, MetaValue::Number(value));
}

/// Puts a text under `key`, where there is one.
pub fn put_opt_text(metadata: &mut StrMap<MetaValue>, key: &str, value: &Option<String>)
    ensures
        metadata_model(*final(metadata)) == with_opt_text(
            metadata_model(*old(metadata)),
            key@,
            opt_text(*value),
        ),
{
    match value {
        Some(t) => {
            put_text(metadata, key, t.as_str());
        },
        None => {},
    }
}

/// Puts a flag under `key`, where there is one.
pub fn put_opt_flag(metadata: &mut StrMap<MetaValue>, key: &str, value: Option<bool>)
    ensures
        metadata_model(*final(metadata)) == with_opt_flag(
            metadata_model(*old(metadata)),
            key@,
            value,
        ),
{
    match value {
        Some(b) => {
            put_flag(metadata, key, b);
        },
        None => {},
    }
}

/// Puts a number under `key`, where there is one.
pub fn put_opt_int32(metadata: &mut StrMap<MetaValue>, key: &str, value: Option<i32>)
    ensures
        metadata_model(*final(metadata)) == with_opt_number(
            metadata_model(*old(metadata)),
            key@,
            opt_int32(value),
        ),
{
    match value {
        Some(n) => {
            put_number(metadata, key, n as i64);
        },
        None => {},
    }
}

/// Puts a number under `key`, where there is one.
pub fn put_opt_int64(metadata: &mut StrMap<MetaValue>, key: &str, value: Option<i64>)
    ensures
        metadata_model(*final(metadata)) == with_opt_number(
            metadata_model(*old(metadata)),
            key@,
            opt_int64(value),
        ),
{
    match value {
        Some(n) => {
            put_number(metadata, key, n);
        },
        None => {},
    }
}

/// Puts the tag `value` under `key`.
pub fn put_tag(tags: &mut StrMap<String>, key: &str, value: &str)
    ensures
        tags_model(*final(tags)) == tags_model(*old(tags)).insert(key@, value@),
{
    let owned = value.to_owned();
    tags.insert(key.to_owned(), owned);
    assert(tags_model(*tags) =~= tags_model(*old(tags)).insert(key@, value@));
}

/// The text under `key` in a map of texts, if the key is present.
pub open spec fn text_at(m: Map<Seq<char>, Seq<char>>, key: Seq<char>) -> Option<Seq<char>> {
    if m.contains_key(key) {
        Some(m[key])
    } else {
        None
    }
}

/// The text under `key`, if the key is present.
pub fn lookup<'a>(texts: &'a StrMap<String>, key: &str) -> (r: Option<&'a String>)
    ensures
        match r {
            Some(t) => text_at(tags_model(*texts), key@) == Some(t@),
            None => text_at(tags_model(*texts), key@) is None,
        },
{
    texts.get(key)
}

/// The metadata without entries.
pub fn no_metadata() -> (m: StrMap<MetaValue>)
    ensures
        m@ == Map::<Seq<char>, MetaValue>::empty(),
        m.entries_view().len() == 0,
        metadata_model(m) == Map::<Seq<char>, MetaModel>::empty(),
{
    let m = StrMap::new();
    assert(metadata_model(m) =~= Map::<Seq<char>, MetaModel>::empty());
    m
}

/// The tags without entries.
pub fn no_tags() -> (t: StrMap<String>)
    ensures
        t@ == Map::<Seq<char>, String>::empty(),
        t.entries_view().len() == 0,
        tags_model(t) == Map::<Seq<char>, Seq<char>>::empty(),
{
    let t = StrMap::new();
    assert(tags_model(t) =~= Map::<Seq<char>, Seq<char>>::empty());
    t
}

impl View for Asset {
    type V = AssetModel;

    open spec fn view(&self) -> AssetModel {
        AssetModel {
            id: self.id@,
            service: self.service@,
            kind: self.kind,
            region: self.region@,
            name: opt_text(self.name),
            uri: opt_text(self.uri),
            size_bytes: self.size_bytes,
            encrypted: self.encrypted,
            kms_key_id: opt_text(self.kms_key_id),
            tags: tags_model(self.tags),
            metadata: metadata_model(self.metadata),
        }
    }
}

/// A copy of an optional string.
pub fn clone_opt_text(s: &Option<String>) -> (r: Option<String>)
    ensures
        opt_text(r) == opt_text(*s),
{
    match s {
        Some(x) => Some(x.clone()),
        None => None,
    }
}

impl Clone for Asset {
    fn clone(&self) -> (r: Self)
        ensures
            r@ == self@,
    {
        let tags = self.tags.clone();
        let metadata = self.metadata.clone();
        let r = Asset {
            id: self.id.clone(),
            service: self.service.clone(),
            kind: self.kind,
            region: self.region.clone(),
            name: clone_opt_text(&self.name),
            uri: clone_opt_text(&self.uri),
            size_bytes: self.size_bytes,
            encrypted: self.encrypted,
            kms_key_id: clone_opt_text(&self.kms_key_id),
            tags,
            metadata,
        };
        proof {
            assert(tags_model(r.tags) =~= tags_model(self.tags)) by {
                assert forall|k: Seq<char>| #[trigger] self.tags@.contains_key(k) implies r.tags@[k]@
                    == self.tags@[k]@ by {
                    assert(cloned(self.tags@[k], r.tags@[k]));
                }
            }
            assert(metadata_model(r.metadata) =~= metadata_model(self.metadata)) by {
                assert forall|k: Seq<char>| #[trigger]
                    self.metadata@.contains_key(k) implies r.metadata@[k]@ == self.metadata@[k]@ by {
                    assert(cloned(self.metadata@[k], r.metadata@[k]));
                }
            }
        }
        r
    }
}

} // verus!
