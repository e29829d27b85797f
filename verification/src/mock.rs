//! Fixed items for a run without a provider.

use crate::record::{
    field_models, meta_field, meta_list, meta_record, value_models, MetaField, MetaFieldModel,
    MetaModel, MetaValue,
};
use crate::types::{item_models, Asset, ItemModel};
use vstd::prelude::*;

verus! {

/// The items that a run without a provider finds: a bucket, a database
/// instance and a container image.
pub open spec fn mock_items() -> Seq<ItemModel> {
    seq![
        ItemModel {
            kind: "bucket"@,
            locator: "s3://demo-bucket"@,
            name: "demo-bucket"@,
            region: "ap-northeast-2"@,
            bytes: None,
            meta: MetaModel::Record(
                seq![
                    MetaFieldModel { name: "service"@, value: MetaModel::Text("s3"@) },
                    MetaFieldModel { name: "public_access"@, value: MetaModel::Flag(false) },
                    MetaFieldModel {
                        name: "creation_date"@,
                        value: MetaModel::Text("2025-09-29T12:00:00Z"@),
                    },
                ],
            ),
        },
        ItemModel {
            kind: "rds-instance"@,
            locator: "rds://demo-db"@,
            name: "demo-db"@,
            region: "ap-northeast-2"@,
            bytes: None,
            meta: MetaModel::Record(
                seq![
                    MetaFieldModel { name: "engine"@, value: MetaModel::Text("postgres"@) },
                    MetaFieldModel { name: "engine_version"@, value: MetaModel::Text("14.7"@) },
                    MetaFieldModel { name: "class"@, value: MetaModel::Text("db.t3.micro"@) },
                    MetaFieldModel { name: "status"@, value: MetaModel::Text("available"@) },
                    MetaFieldModel { name: "service"@, value: MetaModel::Text("rds"@) },
                ],
            ),
        },
        ItemModel {
            kind: "image"@,
            locator: "ecr://demo-repo:latest"@,
            name: "demo-repo:latest"@,
            region: "ap-northeast-2"@,
            bytes: Some(12345678i64),
            meta: MetaModel::Record(
                seq![
                    MetaFieldModel { name: "service"@, value: MetaModel::Text("ecr"@) },
                    MetaFieldModel {
                        name: "tags"@,
                        value: MetaModel::List(seq![MetaModel::Text("latest"@)]),
                    },
                    MetaFieldModel {
                        name: "digest"@,
                        value: MetaModel::Text("sha256:deadbeef"@),
                    },
                    MetaFieldModel { name: "size_bytes"@, value: MetaModel::Number(12345678) },
                    MetaFieldModel {
                        name: "pushed_at"@,
                        value: MetaModel::Text("2025-09-29T12:00:00Z"@),
                    },
                ],
            ),
        },
    ]
}

/// A text as a metadata value.
fn text(s: &str) -> (v: MetaValue)
    ensures
        v@ == MetaModel::Text(s@),
{
    MetaValue::Text(s.to_owned())
}

/// The items that a run without a provider finds.
pub fn discover_mock() -> (items: Vec<Asset>)
    ensures
        item_models(items@) == mock_items(),
{
    let mut bucket_meta: Vec<MetaField> = Vec::new();
    bucket_meta.push(meta_field("service", text("s3")));
    bucket_meta.push(meta_field("public_access", MetaValue::Flag(false)));
    bucket_meta.push(meta_field("creation_date", text("2025-09-29T12:00:00Z")));
    let bucket = Asset {
        kind: "bucket".to_owned(),
        locator: "s3://demo-bucket".to_owned(),
        name: "demo-bucket".to_owned(),
        region: "ap-northeast-2".to_owned(),
        bytes: None,
        meta: meta_record(bucket_meta),
    };
    assert(field_models(bucket_meta@) =~= mock_items()[0].meta->Record_0);

    let mut db_meta: Vec<MetaField> = Vec::new();
    db_meta.push(meta_field("engine", text("postgres")));
    db_meta.push(meta_field("engine_version", text("14.7")));
    db_meta.push(meta_field("class", text("db.t3.micro")));
    db_meta.push(meta_field("status", text("available")));
    db_meta.push(meta_field("service", text("rds")));
    let db = Asset {
        kind: "rds-instance".to_owned(),
        locator: "rds://demo-db".to_owned(),
        name: "demo-db".to_owned(),
        region: "ap-northeast-2".to_owned(),
        bytes: None,
        meta: meta_record(db_meta),
    };
    assert(field_models(db_meta@) =~= mock_items()[1].meta->Record_0);

    let mut image_tags: Vec<MetaValue> = Vec::new();
    image_tags.push(text("latest"));
    let tags_value = meta_list(image_tags);
    assert(value_models(image_tags@) =~= seq![MetaModel::Text("latest"@)]);
    let mut image_meta: Vec<MetaField> = Vec::new();
    image_meta.push(meta_field("service", text("ecr")));
    image_meta.push(meta_field("tags", tags_value));
    image_meta.push(meta_field("digest", text("sha256:deadbeef")));
    image_meta.push(meta_field("size_bytes", MetaValue::Number(12345678)));
    image_meta.push(meta_field("pushed_at", text("2025-09-29T12:00:00Z")));
    let image = Asset {
        kind: "image".to_owned(),
        locator: "ecr://demo-repo:latest".to_owned(),
        name: "demo-repo:latest".to_owned(),
        region: "ap-northeast-2".to_owned(),
        bytes: Some(12345678),
        meta: meta_record(image_meta),
    };
    assert(field_models(image_meta@) =~= mock_items()[2].meta->Record_0);

    let mut items: Vec<Asset> = Vec::new();
    items.push(bucket);
    items.push(db);
    items.push(image);
    assert(item_models(items@) =~= mock_items());
    items
}

} // verus!
