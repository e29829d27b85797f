//! Buckets as flat items.

use crate::collectors::s3::Answer;
use crate::record::{
    field_models, flag_or_null, meta_field, meta_of_opt_flag, meta_of_opt_text, meta_of_text,
    meta_record, opt_text, text_or_null, MetaField, MetaFieldModel, MetaModel, MetaValue,
};
use crate::text::join2;
use crate::types::{Asset, ItemModel};
use vstd::prelude::*;

verus! {

/// The four settings of a bucket that block public access.
#[derive(Debug, Clone, Copy)]
pub struct PublicAccessSettings {
    pub block_public_acls: Option<bool>,
    pub ignore_public_acls: Option<bool>,
    pub block_public_policy: Option<bool>,
    pub restrict_public_buckets: Option<bool>,
}

/// The name of a bucket, or the empty text where it has none.
pub open spec fn bucket_name(name: Option<String>) -> Seq<char> {
    match name {
        Some(n) => n@,
        None => Seq::empty(),
    }
}

/// What is known of the public access to a bucket: its settings, or null
/// where the service could not be asked.
pub open spec fn public_access_meta(settings: Option<PublicAccessSettings>) -> MetaModel {
    match settings {
        None => MetaModel::Null,
        Some(s) => MetaModel::Record(
            seq![
                MetaFieldModel {
                    name: "block_public_acls"@,
                    value: flag_or_null(s.block_public_acls),
                },
                MetaFieldModel {
                    name: "ignore_public_acls"@,
                    value: flag_or_null(s.ignore_public_acls),
                },
                MetaFieldModel {
                    name: "block_public_policy"@,
                    value: flag_or_null(s.block_public_policy),
                },
                MetaFieldModel {
                    name: "restrict_public_buckets"@,
                    value: flag_or_null(s.restrict_public_buckets),
                },
            ],
        ),
    }
}

/// What is known of a bucket.
pub open spec fn bucket_meta(
    creation_date: Option<String>,
    settings: Option<PublicAccessSettings>,
) -> MetaModel {
    MetaModel::Record(
        seq![
            MetaFieldModel { name: "creation_date"@, value: text_or_null(opt_text(creation_date)) },
            MetaFieldModel { name: "service"@, value: MetaModel::Text("s3"@) },
            MetaFieldModel { name: "public_access"@, value: public_access_meta(settings) },
        ],
    )
}

/// The item of a bucket that lies in `region`.
pub open spec fn bucket_item(
    name: Option<String>,
    region: Seq<char>,
    creation_date: Option<String>,
    settings: Option<PublicAccessSettings>,
) -> ItemModel {
    ItemModel {
        kind: "bucket"@,
        locator: "s3://"@ + bucket_name(name),
        name: bucket_name(name),
        region,
        bytes: None,
        meta: bucket_meta(creation_date, settings),
    }
}

/// The settings that the answer of the service holds, if the service could
/// be asked. An answer without settings is not taken.
pub fn settings_of(answer: &Answer<PublicAccessSettings>) -> (settings: Option<
    PublicAccessSettings,
>)
    requires
        !(answer is Absent),
    ensures
        settings == (match *answer {
            Answer::Present(s) => Some(s),
            _ => None,
        }),
{
    match answer {
        Answer::Present(s) => Some(*s),
        _ => None,
    }
}

/// What is known of the public access to a bucket.
pub fn public_access_value(settings: &Option<PublicAccessSettings>) -> (v: MetaValue)
    ensures
        v@ == public_access_meta(*settings),
{
    match settings {
        None => MetaValue::Null,
        Some(s) => {
            let mut fields: Vec<MetaField> = Vec::new();
            fields.push(meta_field("block_public_acls", meta_of_opt_flag(s.block_public_acls)));
            fields.push(meta_field("ignore_public_acls", meta_of_opt_flag(s.ignore_public_acls)));
            fields.push(
                meta_field("block_public_policy", meta_of_opt_flag(s.block_public_policy)),
            );
            fields.push(
                meta_field("restrict_public_buckets", meta_of_opt_flag(s.restrict_public_buckets)),
            );
            let v = meta_record(fields);
            assert(field_models(fields@) =~= public_access_meta(*settings)->Record_0);
            v
        },
    }
}

/// The item of a bucket that lies in `region`.
pub fn bucket_asset(
    name: &Option<String>,
    region: &str,
    creation_date: &Option<String>,
    settings: &Option<PublicAccessSettings>,
) -> (item: Asset)
    ensures
        item@ == bucket_item(*name, region@, *creation_date, *settings),
{
    proof {
        reveal_strlit("");
        assert(""@ =~= Seq::<char>::empty());
    }
    let bucket = match name {
        Some(n) => n.clone(),
        None => "".to_owned(),
    };
    let mut fields: Vec<MetaField> = Vec::new();
    fields.push(meta_field("creation_date", meta_of_opt_text(creation_date)));
    fields.push(meta_field("service", meta_of_text("s3")));
    fields.push(meta_field("public_access", public_access_value(settings)));
    let meta = meta_record(fields);
    assert(field_models(fields@) =~= bucket_meta(*creation_date, *settings)->Record_0);
    Asset {
        kind: "bucket".to_owned(),
        locator: join2("s3://", bucket.as_str()),
        name: bucket,
        region: region.to_owned(),
        bytes: None,
        meta,
    }
}

} // verus!
