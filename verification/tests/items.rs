use dspm_collector::collectors::s3::Answer;
use dspm_collector::common::MetaPayload;
use dspm_collector::ecr::{image_asset, ImageFacts};
use dspm_collector::mock::discover_mock;
use dspm_collector::rds::{instance_asset, InstanceFacts};
use dspm_collector::record::{MetaField, MetaValue};
use dspm_collector::s3::{bucket_asset, public_access_value, settings_of, PublicAccessSettings};
use dspm_collector::types::{Asset, BulkPayload};

fn some(s: &str) -> Option<String> {
    Some(s.to_string())
}

fn fields(item: &Asset) -> &Vec<MetaField> {
    match &item.meta {
        MetaValue::Record(fields) => fields,
        other => panic!("not a record: {other:?}"),
    }
}

fn names(item: &Asset) -> Vec<&str> {
    fields(item).iter().map(|f| f.name.as_str()).collect()
}

#[test]
fn mock_items_are_a_bucket_a_database_and_an_image() {
    let items = discover_mock();
    assert_eq!(items.len(), 3);
    let kinds: Vec<&str> = items.iter().map(|i| i.kind.as_str()).collect();
    assert_eq!(kinds, vec!["bucket", "rds-instance", "image"]);
    let locators: Vec<&str> = items.iter().map(|i| i.locator.as_str()).collect();
    assert_eq!(locators, vec!["s3://demo-bucket", "rds://demo-db", "ecr://demo-repo:latest"]);
    let item_names: Vec<&str> = items.iter().map(|i| i.name.as_str()).collect();
    assert_eq!(item_names, vec!["demo-bucket", "demo-db", "demo-repo:latest"]);
    assert!(items.iter().all(|i| i.region == "ap-northeast-2"));
    assert_eq!(items[0].bytes, None);
    assert_eq!(items[1].bytes, None);
    assert_eq!(items[2].bytes, Some(12345678));
    assert_eq!(names(&items[0]), vec!["service", "public_access", "creation_date"]);
    assert_eq!(names(&items[1]), vec!["engine", "engine_version", "class", "status", "service"]);
    assert_eq!(names(&items[2]), vec!["service", "tags", "digest", "size_bytes", "pushed_at"]);
    assert!(matches!(&fields(&items[0])[1].value, MetaValue::Flag(false)));
    assert!(matches!(&fields(&items[1])[1].value, MetaValue::Text(t) if t == "14.7"));
    assert!(matches!(&fields(&items[2])[1].value, MetaValue::List(v) if v.len() == 1));
    assert!(matches!(&fields(&items[2])[3].value, MetaValue::Number(12345678)));
    assert_eq!(format!("{:?}", discover_mock()), format!("{items:?}"));
}

#[test]
fn image_with_a_tag_is_found_by_it() {
    let facts = ImageFacts {
        image_tags: vec!["v1".to_string(), "latest".to_string()],
        image_digest: some("sha256:1"),
        image_size_in_bytes: Some(10),
        image_pushed_at: None,
    };
    let item = image_asset("app", "us-east-1", &facts);
    assert_eq!(item.kind, "image");
    assert_eq!(item.locator, "ecr://app:v1");
    assert_eq!(item.name, "app:v1");
    assert_eq!(item.region, "us-east-1");
    assert_eq!(item.bytes, Some(10));
    assert_eq!(names(&item), vec!["service", "tags", "digest", "size_bytes", "pushed_at"]);
    assert!(matches!(&fields(&item)[1].value, MetaValue::List(v) if v.len() == 2));
    assert!(matches!(&fields(&item)[4].value, MetaValue::Null));
}

#[test]
fn image_without_a_tag_is_found_by_its_digest() {
    let facts = ImageFacts {
        image_tags: vec![],
        image_digest: some("sha256:1"),
        image_size_in_bytes: None,
        image_pushed_at: some("2025"),
    };
    let item = image_asset("app", "r", &facts);
    assert_eq!(item.locator, "ecr://app@sha256:1");
    assert_eq!(item.name, "app");
    assert_eq!(item.bytes, None);
    assert!(matches!(&fields(&item)[3].value, MetaValue::Null));
    let bare = ImageFacts { image_tags: vec![String::new()], image_digest: None, ..facts };
    let item = image_asset("app", "r", &bare);
    assert_eq!(item.locator, "ecr://app@");
    assert_eq!(item.name, "app");
}

#[test]
fn database_instance_item() {
    let facts = InstanceFacts {
        db_instance_identifier: some("db1"),
        engine: some("mysql"),
        engine_version: None,
        db_instance_class: some("db.m5"),
        db_instance_status: some("available"),
        multi_az: Some(true),
        storage_encrypted: None,
    };
    let item = instance_asset("us-east-1", &facts);
    assert_eq!(item.kind, "rds-instance");
    assert_eq!(item.locator, "rds://db1");
    assert_eq!(item.name, "db1");
    assert_eq!(item.bytes, None);
    assert_eq!(
        names(&item),
        vec!["engine", "engine_version", "class", "status", "multi_az", "encrypted", "service"]
    );
    assert!(matches!(&fields(&item)[1].value, MetaValue::Null));
    assert!(matches!(&fields(&item)[4].value, MetaValue::Flag(true)));
    assert!(matches!(&fields(&item)[5].value, MetaValue::Null));
    assert!(matches!(&fields(&item)[6].value, MetaValue::Text(t) if t == "rds"));
    let nameless = InstanceFacts { db_instance_identifier: None, ..facts };
    assert_eq!(instance_asset("r", &nameless).locator, "rds://");
}

#[test]
fn bucket_item() {
    let settings = PublicAccessSettings {
        block_public_acls: Some(true),
        ignore_public_acls: None,
        block_public_policy: Some(false),
        restrict_public_buckets: Some(true),
    };
    let item = bucket_asset(&some("logs"), "eu-west-1", &some("2025-01-01"), &Some(settings));
    assert_eq!(item.kind, "bucket");
    assert_eq!(item.locator, "s3://logs");
    assert_eq!(item.name, "logs");
    assert_eq!(item.region, "eu-west-1");
    assert_eq!(names(&item), vec!["creation_date", "service", "public_access"]);
    match &fields(&item)[2].value {
        MetaValue::Record(f) => {
            let n: Vec<&str> = f.iter().map(|x| x.name.as_str()).collect();
            assert_eq!(
                n,
                vec![
                    "block_public_acls",
                    "ignore_public_acls",
                    "block_public_policy",
                    "restrict_public_buckets"
                ]
            );
            assert!(matches!(f[0].value, MetaValue::Flag(true)));
            assert!(matches!(f[1].value, MetaValue::Null));
            assert!(matches!(f[2].value, MetaValue::Flag(false)));
        }
        other => panic!("not a record: {other:?}"),
    }
    let unknown = bucket_asset(&None, "unknown", &None, &None);
    assert_eq!(unknown.locator, "s3://");
    assert!(matches!(&fields(&unknown)[2].value, MetaValue::Null));
    assert!(matches!(public_access_value(&None), MetaValue::Null));
    assert!(settings_of(&Answer::Failed).is_none());
    assert!(settings_of(&Answer::Present(settings)).is_some());
}

#[test]
fn payloads_hold_their_parts() {
    let payload = BulkPayload { source_id: "aws".to_string(), items: discover_mock() };
    assert_eq!(payload.source_id, "aws");
    assert_eq!(payload.items.len(), 3);
    let copy = payload.items[2].clone();
    assert_eq!(format!("{copy:?}"), format!("{:?}", payload.items[2]));
    let meta = MetaPayload {
        source_id: "aws".to_string(),
        object_type: "S3_OBJECT".to_string(),
        locator: "aws-s3://1/r/b/k".to_string(),
        bytes: 7,
        extra: MetaValue::Null,
    };
    let again = meta.clone();
    assert_eq!(again.object_type, "S3_OBJECT");
    assert_eq!(again.bytes, 7);
}
