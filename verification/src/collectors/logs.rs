//! Log groups as a log store, from the service or from a described
//! document.

use crate::collector_core::{Collector, DiscoveryError};
use crate::collectors::{models, offline_error, offline_message, string_or, text_or};
use crate::record::{
    clone_opt_text, meta_of_opt_number, no_metadata, no_tags, number_or_null, opt_text, put_meta,
    with_meta, Asset, AssetKind, AssetModel, MetaFieldModel, MetaModel, MetaValue,
};
use crate::text::{same_text, texts};
use vstd::prelude::*;

verus! {

/// The collector of log groups as a log store.
pub struct CwLogsCollector;

/// What the service reports of a log group.
#[derive(Debug)]
pub struct GroupFacts {
    pub arn: Option<String>,
    pub log_group_name: Option<String>,
    pub kms_key_id: Option<String>,
    pub retention_in_days: Option<i32>,
}

/// The days that a log group keeps its events, as a number.
pub open spec fn retention(days: Option<i32>) -> Option<i64> {
    match days {
        Some(d) => Some(d as i64),
        None => None,
    }
}

/// The record of a log group found in `region`. It counts as encrypted
/// where it has a key.
pub open spec fn group_record(region: Seq<char>, f: GroupFacts) -> AssetModel {
    AssetModel {
        id: text_or(f.arn, Seq::empty()),
        service: "cloudwatch-logs"@,
        kind: AssetKind::LogStore,
        region,
        name: opt_text(f.log_group_name),
        uri: None,
        size_bytes: None,
        encrypted: Some(f.kms_key_id is Some),
        kms_key_id: opt_text(f.kms_key_id),
        tags: Map::empty(),
        metadata: with_meta(
            Map::empty(),
            "retention_days"@,
            number_or_null(retention(f.retention_in_days)),
        ),
    }
}

/// The value of the member `key` among `fields`: that of the last member
/// with this name, or null where there is none.
pub open spec fn field_at(fields: Seq<MetaFieldModel>, key: Seq<char>) -> MetaModel
    decreases fields.len(),
{
    if fields.len() == 0 {
        MetaModel::Null
    } else if fields.last().name == key {
        fields.last().value
    } else {
        field_at(fields.drop_last(), key)
    }
}

/// The member `key` of a value: null where the value is no record or has no
/// such member.
pub open spec fn member_of(v: MetaModel, key: Seq<char>) -> MetaModel {
    match v {
        MetaModel::Record(fields) => field_at(fields, key),
        _ => MetaModel::Null,
    }
}

/// The text that a value holds, where it is a text.
pub open spec fn as_text(v: MetaModel) -> Option<Seq<char>> {
    match v {
        MetaModel::Text(t) => Some(t),
        _ => None,
    }
}

/// The number that a value holds, where it is a number, and null otherwise.
pub open spec fn number_of(v: MetaModel) -> MetaModel {
    match v {
        MetaModel::Number(n) => MetaModel::Number(n),
        _ => MetaModel::Null,
    }
}

/// The record of a log group that a document describes. The group must
/// have a text for its identifier.
pub open spec fn described_group(g: MetaModel) -> AssetModel {
    AssetModel {
        id: as_text(member_of(g, "arn"@))->0,
        service: "cloudwatch-logs"@,
        kind: AssetKind::LogStore,
        region: "ap-northeast-2"@,
        name: as_text(member_of(g, "logGroupName"@)),
        uri: None,
        size_bytes: None,
        encrypted: Some(member_of(g, "kmsKeyId"@) is Text),
        kms_key_id: as_text(member_of(g, "kmsKeyId"@)),
        tags: Map::empty(),
        metadata: with_meta(
            Map::empty(),
            "retention_days"@,
            number_of(member_of(g, "retentionInDays"@)),
        ),
    }
}

/// The log groups that a document describes: the items of the list that is
/// its member `logGroups`, or none where it has no such list.
pub open spec fn described_groups(doc: MetaModel) -> Seq<MetaModel> {
    match member_of(doc, "logGroups"@) {
        MetaModel::List(items) => items,
        _ => Seq::empty(),
    }
}

/// Whether every log group that a document describes has a text for its
/// identifier.
pub open spec fn well_described(doc: MetaModel) -> bool {
    forall|i: int|
        0 <= i < described_groups(doc).len() ==> member_of(
            #[trigger] described_groups(doc)[i],
            "arn"@,
        ) is Text
}

/// The records of the log groups that a document describes.
pub open spec fn described_records(doc: MetaModel) -> Seq<AssetModel> {
    described_groups(doc).map_values(|g: MetaModel| described_group(g))
}

/// The records that the collector returns when no outside call is made.
pub open spec fn cw_logs_mock(regions: Seq<Seq<char>>) -> Seq<AssetModel> {
    seq![
        AssetModel {
            id: "arn:aws:logs:ap-northeast-2:123456789012:log-group:/aws/lambda/demo:*"@,
            service: "cloudwatch-logs"@,
            kind: AssetKind::LogStore,
            region: "ap-northeast-2"@,
            name: Some("/aws/lambda/demo"@),
            uri: None,
            size_bytes: None,
            encrypted: Some(false),
            kms_key_id: None,
            tags: Map::empty(),
            metadata: Map::<Seq<char>, MetaModel>::empty().insert(
                "retention_days"@,
                MetaModel::Number(14),
            ),
        },
    ]
}

/// The member `key` of a value, if the value is a record with such a member.
pub fn member<'a>(v: &'a MetaValue, key: &str) -> (r: Option<&'a MetaValue>)
    ensures
        match r {
            Some(x) => x@ == member_of(v@, key@),
            None => member_of(v@, key@) == MetaModel::Null,
        },
{
    match v {
        MetaValue::Record(fields) => {
            let n: usize = fields.len();
            let mut i: usize = n;
            let ghost all = v@->Record_0;
            assert(all.subrange(0, n as int) =~= all);
            while i > 0
                invariant
                    n == fields@.len(),
                    i <= n,
                    all.len() == n,
                    forall|j: int|
                        0 <= j < n ==> (#[trigger] all[j]).name == fields@[j].name@ && all[j].value
                            == fields@[j].value@,
                    member_of(v@, key@) == field_at(all.subrange(0, i as int), key@),
                decreases i,
            {
                let ghost seen = all.subrange(0, i as int);
                proof {
                    assert(seen.last() == all[i - 1]);
                    assert(seen.drop_last() =~= all.subrange(0, i - 1));
                }
                if same_text(fields[i - 1].name.as_str(), key) {
                    return Some(&fields[i - 1].value);
                }
                i = i - 1;
            }
            None
        },
        _ => None,
    }
}

/// The text that a member of a value holds, where it holds one.
pub fn member_text(v: &MetaValue, key: &str) -> (r: Option<String>)
    ensures
        opt_text(r) == as_text(member_of(v@, key@)),
{
    match member(v, key) {
        Some(MetaValue::Text(t)) => Some(t.clone()),
        _ => None,
    }
}

/// The log groups that a document describes.
pub fn groups_of(doc: &MetaValue) -> (groups: Option<&Vec<MetaValue>>)
    ensures
        match groups {
            Some(items) => described_groups(doc@).len() == items@.len() && forall|i: int|
                0 <= i < items@.len() ==> described_groups(doc@)[i] == (#[trigger] items@[i])@,
            None => described_groups(doc@).len() == 0,
        },
{
    match member(doc, "logGroups") {
        Some(MetaValue::List(items)) => Some(items),
        _ => None,
    }
}

/// Whether every log group that a document describes has a text for its
/// identifier.
pub fn is_well_described(doc: &MetaValue) -> (ok: bool)
    ensures
        ok == well_described(doc@),
{
    match groups_of(doc) {
        None => true,
        Some(items) => {
            let n: usize = items.len();
            let mut i: usize = 0;
            while i < n
                invariant
                    n == items@.len(),
                    i <= n,
                    described_groups(doc@).len() == n,
                    forall|j: int|
                        0 <= j < n ==> described_groups(doc@)[j] == (#[trigger] items@[j])@,
                    forall|j: int|
                        0 <= j < i ==> member_of(
                            #[trigger] described_groups(doc@)[j],
                            "arn"@,
                        ) is Text,
                decreases n - i,
            {
                match member(&items[i], "arn") {
                    Some(MetaValue::Text(_)) => {},
                    _ => {
                        assert(!(member_of(described_groups(doc@)[i as int], "arn"@) is Text));
                        return false;
                    },
                }
                i = i + 1;
            }
            true
        },
    }
}

impl CwLogsCollector {
    /// The collector, which declares the name `cloudwatch-logs`.
    pub fn new() -> (c: Self)
        ensures
            c.label() == "cloudwatch-logs"@,
    {
        CwLogsCollector
    }

    /// The record of a log group found in `region`.
    pub fn group_asset(region: &str, facts: &GroupFacts) -> (asset: Asset)
        ensures
            asset@ == group_record(region@, *facts),
    {
        proof {
            reveal_strlit("");
            assert(""@ =~= Seq::<char>::empty());
        }
        let days = match facts.retention_in_days {
            Some(d) => Some(d as i64),
            None => None,
        };
        let mut metadata = no_metadata();
        put_meta(&mut metadata, "retention_days", meta_of_opt_number(days));
        Asset {
            id: string_or(&facts.arn, ""),
            service: "cloudwatch-logs".to_owned(),
            kind: AssetKind::LogStore,
            region: region.to_owned(),
            name: clone_opt_text(&facts.log_group_name),
            uri: None,
            size_bytes: None,
            encrypted: Some(facts.kms_key_id.is_some()),
            kms_key_id: clone_opt_text(&facts.kms_key_id),
            tags: no_tags(),
            metadata,
        }
    }

    /// The record of a log group that a document describes.
    pub fn described_asset(group: &MetaValue) -> (asset: Asset)
        requires
            member_of(group@, "arn"@) is Text,
        ensures
            asset@ == described_group(group@),
    {
        let id = match member_text(group, "arn") {
            Some(t) => t,
            None => String::new(),
        };
        let kms_key_id = member_text(group, "kmsKeyId");
        let days = match member(group, "retentionInDays") {
            Some(MetaValue::Number(n)) => MetaValue::Number(*n),
            _ => MetaValue::Null,
        };
        let mut metadata = no_metadata();
        put_meta(&mut metadata, "retention_days", days);
        Asset {
            id,
            service: "cloudwatch-logs".to_owned(),
            kind: AssetKind::LogStore,
            region: "ap-northeast-2".to_owned(),
            name: member_text(group, "logGroupName"),
            uri: None,
            size_bytes: None,
            encrypted: Some(kms_key_id.is_some()),
            kms_key_id,
            tags: no_tags(),
            metadata,
        }
    }

    /// The records of the log groups that a document describes.
    pub fn described_assets(doc: &MetaValue) -> (assets: Vec<Asset>)
        requires
            well_described(doc@),
        ensures
            models(assets@) == described_records(doc@),
    {
        let mut assets: Vec<Asset> = Vec::new();
        match groups_of(doc) {
            None => {},
            Some(items) => {
                let n: usize = items.len();
                let mut i: usize = 0;
                while i < n
                    invariant
                        n == items@.len(),
                        i <= n,
                        well_described(doc@),
                        described_groups(doc@).len() == n,
                        forall|j: int|
                            0 <= j < n ==> described_groups(doc@)[j] == (#[trigger] items@[j])@,
                        assets@.len() == i,
                        forall|j: int|
                            0 <= j < i ==> (#[trigger] assets@[j])@ == described_group(
                                described_groups(doc@)[j],
                            ),
                    decreases n - i,
                {
                    assert(member_of(described_groups(doc@)[i as int], "arn"@) is Text);
                    let asset = CwLogsCollector::described_asset(&items[i]);
                    assets.push(asset);
                    i = i + 1;
                }
            },
        }
        assert(models(assets@) =~= described_records(doc@));
        assets
    }

    /// The records that the collector returns when no outside call is made.
    pub fn mock_assets(regions: &[String]) -> (assets: Vec<Asset>)
        ensures
            models(assets@) == cw_logs_mock(texts(regions@)),
    {
        let mut metadata = no_metadata();
        put_meta(&mut metadata, "retention_days", MetaValue::Number(14));
        let asset = Asset {
            id: "arn:aws:logs:ap-northeast-2:123456789012:log-group:/aws/lambda/demo:*".to_owned(),
            service: "cloudwatch-logs".to_owned(),
            kind: AssetKind::LogStore,
            region: "ap-northeast-2".to_owned(),
            name: Some("/aws/lambda/demo".to_owned()),
            uri: None,
            size_bytes: None,
            encrypted: Some(false),
            kms_key_id: None,
            tags: no_tags(),
            metadata,
        };
        let mut assets: Vec<Asset> = Vec::new();
        assets.push(asset);
        assert(models(assets@) =~= cw_logs_mock(texts(regions@)));
        assets
    }
}

impl Collector for CwLogsCollector {
    open spec fn label(&self) -> Seq<char> {
        "cloudwatch-logs"@
    }

    open spec fn discovers(
        &self,
        regions: Seq<Seq<char>>,
        mock: bool,
        outcome: Result<Vec<Asset>, DiscoveryError>,
    ) -> bool {
        if mock {
            outcome is Ok && models(outcome->Ok_0@) == cw_logs_mock(regions)
        } else {
            outcome is Err && outcome->Err_0.message@ == offline_message("cloudwatch-logs"@)
        }
    }

    fn name(&self) -> (s: &'static str) {
        "cloudwatch-logs"
    }

    fn discover(&self, regions: &[String], mock: bool) -> (outcome: Result<
        Vec<Asset>,
        DiscoveryError,
    >) {
        if mock {
            Ok(CwLogsCollector::mock_assets(regions))
        } else {
            Err(offline_error("cloudwatch-logs"))
        }
    }
}

} // verus!
