//! Container images as flat items.

use crate::record::{
    field_models, meta_field, meta_list, meta_of_opt_number, meta_of_opt_text, meta_of_text,
    meta_record, number_or_null, opt_text, text_or_null, value_models, MetaField, MetaFieldModel,
    MetaModel, MetaValue,
};
use crate::text::{join3, join4};
use crate::types::{Asset, ItemModel};
use vstd::prelude::*;

verus! {

/// What the registry reports of an image.
#[derive(Debug)]
pub struct ImageFacts {
    pub image_tags: Vec<String>,
    pub image_digest: Option<String>,
    pub image_size_in_bytes: Option<i64>,
    pub image_pushed_at: Option<String>,
}

/// The first tag of an image, or the empty text where it has none.
pub open spec fn first_tag(tags: Seq<String>) -> Seq<char> {
    if tags.len() > 0 {
        tags[0]@
    } else {
        Seq::empty()
    }
}

/// The digest of an image, or the empty text where it has none.
pub open spec fn digest_text(digest: Option<String>) -> Seq<char> {
    match digest {
        Some(d) => d@,
        None => Seq::empty(),
    }
}

/// Where an image is found: by its first tag, or by its digest where it has
/// no tag.
pub open spec fn image_locator(repository: Seq<char>, f: ImageFacts) -> Seq<char> {
    if first_tag(f.image_tags@).len() == 0 {
        "ecr://"@ + repository + "@"@ + digest_text(f.image_digest)
    } else {
        "ecr://"@ + repository + ":"@ + first_tag(f.image_tags@)
    }
}

/// The name of an image: its repository, with its first tag where it has
/// one.
pub open spec fn image_name(repository: Seq<char>, f: ImageFacts) -> Seq<char> {
    if first_tag(f.image_tags@).len() == 0 {
        repository
    } else {
        repository + ":"@ + first_tag(f.image_tags@)
    }
}

/// What is known of an image.
pub open spec fn image_meta(f: ImageFacts) -> MetaModel {
    MetaModel::Record(
        seq![
            MetaFieldModel { name: "service"@, value: MetaModel::Text("ecr"@) },
            MetaFieldModel {
                name: "tags"@,
                value: MetaModel::List(
                    Seq::new(f.image_tags@.len(), |i: int| MetaModel::Text(f.image_tags@[i]@)),
                ),
            },
            MetaFieldModel { name: "digest"@, value: text_or_null(opt_text(f.image_digest)) },
            MetaFieldModel { name: "size_bytes"@, value: number_or_null(f.image_size_in_bytes) },
            MetaFieldModel {
                name: "pushed_at"@,
                value: text_or_null(opt_text(f.image_pushed_at)),
            },
        ],
    )
}

/// The item of an image of `repository` found in `region`.
pub open spec fn image_item(repository: Seq<char>, region: Seq<char>, f: ImageFacts) -> ItemModel {
    ItemModel {
        kind: "image"@,
        locator: image_locator(repository, f),
        name: image_name(repository, f),
        region,
        bytes: f.image_size_in_bytes,
        meta: image_meta(f),
    }
}

/// The item of an image of `repository` found in `region`.
pub fn image_asset(repository: &str, region: &str, facts: &ImageFacts) -> (item: Asset)
    ensures
        item@ == image_item(repository@, region@, *facts),
{
    proof {
        reveal_strlit("");
        assert(""@ =~= Seq::<char>::empty());
    }
    let tag: String = if facts.image_tags.len() > 0 {
        facts.image_tags[0].clone()
    } else {
        "".to_owned()
    };
    let tagged = tag.as_str().unicode_len() > 0;
    let locator = if tagged {
        join4("ecr://", repository, ":", tag.as_str())
    } else {
        let digest = match &facts.image_digest {
            Some(d) => d.clone(),
            None => "".to_owned(),
        };
        join4("ecr://", repository, "@", digest.as_str())
    };
    let name = if tagged {
        join3(repository, ":", tag.as_str())
    } else {
        repository.to_owned()
    };
    let mut tags: Vec<MetaValue> = Vec::new();
    let n: usize = facts.image_tags.len();
    let mut i: usize = 0;
    while i < n
        invariant
            n == facts.image_tags@.len(),
            i <= n,
            tags@.len() == i,
            forall|j: int| 0 <= j < i ==> (#[trigger] tags@[j])@ == MetaModel::Text(
                facts.image_tags@[j]@,
            ),
        decreases n - i,
    {
        tags.push(meta_of_text(facts.image_tags[i].as_str()));
        i = i + 1;
    }
    let tags_value = meta_list(tags);
    assert(value_models(tags@) =~= Seq::new(
        facts.image_tags@.len(),
        |i: int| MetaModel::Text(facts.image_tags@[i]@),
    ));
    let mut fields: Vec<MetaField> = Vec::new();
    fields.push(meta_field("service", meta_of_text("ecr")));
    fields.push(meta_field("tags", tags_value));
    fields.push(meta_field("digest", meta_of_opt_text(&facts.image_digest)));
    fields.push(meta_field("size_bytes", meta_of_opt_number(facts.image_size_in_bytes)));
    fields.push(meta_field("pushed_at", meta_of_opt_text(&facts.image_pushed_at)));
    let meta = meta_record(fields);
    assert(field_models(fields@) =~= image_meta(*facts)->Record_0);
    Asset {
        kind: "image".to_owned(),
        locator,
        name,
        region: region.to_owned(),
        bytes: facts.image_size_in_bytes,
        meta,
    }
}

} // verus!
