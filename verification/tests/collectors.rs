use dspm_collector::collector_core::Collector;
use dspm_collector::collectors::backup::{BackupCollector, VaultFacts};
use dspm_collector::collectors::cloudtrail::{CloudTrailCollector, TrailFacts};
use dspm_collector::collectors::cloudwatch_logs::{CloudWatchLogsCollector, LogGroupFacts};
use dspm_collector::collectors::containers_block_ml::RegistryFacts;
use dspm_collector::collectors::dynamodb::{DynamodbCollector, SseFacts, TableFacts};
use dspm_collector::collectors::ebs::EbsCollector;
use dspm_collector::collectors::ec2::{AttachmentFacts, EC2Collector, InstanceFacts, VolumeFacts};
use dspm_collector::collectors::ecr::{EcrCollector, RepositoryFacts};
use dspm_collector::collectors::efs_fsx::{EfsCollector, EfsFacts, FsxCollector, FsxFacts};
use dspm_collector::collectors::kinesis::{KinesisCollector, StreamMode, StreamSummary};
use dspm_collector::collectors::logs::{
    groups_of, is_well_described, member, member_text, CwLogsCollector, GroupFacts,
};
use dspm_collector::collectors::opensearch::{DomainFacts, EncryptionAtRest, OpenSearchCollector};
use dspm_collector::collectors::rds::{DbInstanceFacts, EndpointFacts, RdsCollector};
use dspm_collector::collectors::s3::{Answer, BucketEncryption, PublicAccessBlock, S3Collector};
use dspm_collector::collectors::sns::SnsCollector;
use dspm_collector::collectors::sqs::SqsCollector;
use dspm_collector::collectors::{
    bytes_of_gib, keyed_tags_from_pairs, offline_error, tags_from_pairs, TagPair,
};
use dspm_collector::record::{meta_field, meta_list, meta_record, Asset, AssetKind, MetaValue};
use dspm_collector::strmap::StrMap;

fn some(s: &str) -> Option<String> {
    Some(s.to_string())
}

fn pair(k: &str, v: &str) -> TagPair {
    TagPair { key: some(k), value: some(v) }
}

fn text(a: &Asset, key: &str) -> Option<String> {
    match a.metadata.get(key) {
        Some(MetaValue::Text(t)) => Some(t.clone()),
        _ => None,
    }
}

fn flag(a: &Asset, key: &str) -> Option<bool> {
    match a.metadata.get(key) {
        Some(MetaValue::Flag(b)) => Some(*b),
        _ => None,
    }
}

fn number(a: &Asset, key: &str) -> Option<i64> {
    match a.metadata.get(key) {
        Some(MetaValue::Number(n)) => Some(*n),
        _ => None,
    }
}

fn tag(a: &Asset, key: &str) -> Option<String> {
    a.tags.get(key).cloned()
}

fn texts(m: &StrMap<String>) -> Vec<(String, String)> {
    m.entries().iter().map(|(k, v)| (k.clone(), v.clone())).collect()
}

fn mocks() -> Vec<(&'static str, Box<dyn Collector>)> {
    vec![
        ("cloudwatch-logs", Box::new(CwLogsCollector::new())),
        ("s3", Box::new(S3Collector::new())),
        ("ec2", Box::new(EC2Collector::new())),
        ("cloudwatch-logs", Box::new(CloudWatchLogsCollector::new())),
        ("ebs", Box::new(EbsCollector::new())),
        ("ecr", Box::new(EcrCollector::new())),
        ("cloudtrail", Box::new(CloudTrailCollector::new())),
        ("sqs", Box::new(SqsCollector::new())),
        ("opensearch", Box::new(OpenSearchCollector::new())),
        ("backup", Box::new(BackupCollector::new())),
        ("sns", Box::new(SnsCollector::new())),
        ("kinesis", Box::new(KinesisCollector::new())),
        ("dynamodb", Box::new(DynamodbCollector::new())),
        ("rds", Box::new(RdsCollector::new())),
        ("efs", Box::new(EfsCollector::new())),
        ("fsx", Box::new(FsxCollector::new())),
        ("ecr", Box::new(dspm_collector::collectors::containers_block_ml::EcrCollector::new())),
        ("sqs", Box::new(dspm_collector::collectors::messaging::SqsCollector::new())),
    ]
}

#[test]
fn every_collector_declares_its_name() {
    for (name, collector) in mocks() {
        assert_eq!(collector.name(), name);
    }
}

#[test]
fn mock_discovery_is_fixed_and_not_empty() {
    let scopes: Vec<Vec<String>> =
        vec![vec![], vec!["us-east-1".to_string()], vec!["eu-west-1".to_string(), "x".to_string()]];
    for (name, collector) in mocks() {
        for scope in &scopes {
            let first = collector.discover(scope, true).expect("mock discovery succeeds");
            let second = collector.discover(scope, true).expect("mock discovery succeeds");
            assert!(!first.is_empty(), "{name} returns nothing");
            assert_eq!(format!("{first:?}"), format!("{second:?}"), "{name} differs");
            for a in &first {
                assert!(!a.id.is_empty());
                assert!(!a.service.is_empty());
                assert!(!a.region.is_empty());
            }
        }
    }
}

#[test]
fn live_discovery_needs_a_session() {
    for (name, collector) in mocks() {
        let err = collector.discover(&[], false).expect_err("no session");
        assert_eq!(err.message, format!("{name}: live discovery needs a session with the provider"));
    }
    assert_eq!(offline_error("x").message, "x: live discovery needs a session with the provider");
}

#[test]
fn s3_mock_record() {
    let assets = S3Collector::mock_assets(&["us-east-1".to_string()]);
    assert_eq!(assets.len(), 1);
    let a = &assets[0];
    assert_eq!(a.id, "arn:aws:s3:::sample-bucket-mock");
    assert_eq!(a.service, "s3");
    assert_eq!(a.kind, AssetKind::ObjectStore);
    assert_eq!(a.region, "us-east-1");
    assert_eq!(a.name, some("sample-bucket-mock"));
    assert_eq!(a.uri, some("s3://sample-bucket-mock/"));
    assert_eq!(a.size_bytes, None);
    assert_eq!(a.encrypted, Some(true));
    assert_eq!(a.kms_key_id, None);
    assert_eq!(texts(&a.tags), vec![("env".to_string(), "dev".to_string())]);
    assert_eq!(flag(a, "public_blocked"), Some(true));
    assert_eq!(a.metadata.len(), 1);
    assert_eq!(S3Collector::mock_assets(&[])[0].region, "ap-northeast-2");
}

#[test]
fn s3_bucket_rules() {
    assert_eq!(S3Collector::region_of(&Answer::Failed), "unknown");
    assert_eq!(S3Collector::region_of(&Answer::Absent), "us-east-1");
    assert_eq!(S3Collector::region_of(&Answer::Present("eu-west-1".to_string())), "eu-west-1");

    let scope = vec!["eu-west-1".to_string()];
    assert!(S3Collector::in_scope(&[], "anything"));
    assert!(S3Collector::in_scope(&scope, "eu-west-1"));
    assert!(!S3Collector::in_scope(&scope, "us-east-1"));
    assert!(!S3Collector::in_scope(&scope, "unknown"));

    assert_eq!(S3Collector::encrypted(&Answer::Failed), None);
    assert_eq!(S3Collector::encrypted(&Answer::Absent), Some(false));
    let none = Answer::Present(BucketEncryption { rule_keys: vec![] });
    assert_eq!(S3Collector::encrypted(&none), Some(false));
    assert_eq!(S3Collector::kms_key(&none), None);
    let rules = Answer::Present(BucketEncryption { rule_keys: vec![None, some("k1"), some("k2")] });
    assert_eq!(S3Collector::encrypted(&rules), Some(true));
    assert_eq!(S3Collector::kms_key(&rules), some("k1"));
    let keyless = Answer::Present(BucketEncryption { rule_keys: vec![None] });
    assert_eq!(S3Collector::encrypted(&keyless), Some(true));
    assert_eq!(S3Collector::kms_key(&keyless), None);
    assert_eq!(S3Collector::kms_key(&Answer::Failed), None);

    let block = |a, p| Answer::Present(PublicAccessBlock { block_public_acls: a, block_public_policy: p });
    assert_eq!(S3Collector::blocked(&Answer::Failed), None);
    assert_eq!(S3Collector::blocked(&Answer::Absent), None);
    assert_eq!(S3Collector::blocked(&block(None, None)), Some(true));
    assert_eq!(S3Collector::blocked(&block(Some(true), Some(true))), Some(true));
    assert_eq!(S3Collector::blocked(&block(Some(false), Some(true))), Some(false));
    assert_eq!(S3Collector::blocked(&block(None, Some(false))), Some(false));
}

#[test]
fn s3_bucket_record() {
    let a = S3Collector::bucket_asset("logs", "eu-west-1", None, some("key"), Some(false));
    assert_eq!(a.id, "arn:aws:s3:::logs");
    assert_eq!(a.service, "s3");
    assert_eq!(a.kind, AssetKind::ObjectStore);
    assert_eq!(a.region, "eu-west-1");
    assert_eq!(a.name, some("logs"));
    assert_eq!(a.uri, some("s3://logs/"));
    assert_eq!(a.encrypted, None);
    assert_eq!(a.kms_key_id, some("key"));
    assert_eq!(a.tags.len(), 0);
    assert_eq!(flag(&a, "public_blocked"), Some(false));
    let b = S3Collector::bucket_asset("logs", "eu-west-1", Some(false), None, None);
    assert_eq!(b.encrypted, Some(false));
    assert_eq!(b.metadata.len(), 0);
}

#[test]
fn tags_need_both_parts_and_later_ones_win() {
    let pairs = vec![
        pair("env", "dev"),
        TagPair { key: some("only-key"), value: None },
        TagPair { key: None, value: some("only-value") },
        pair("team", "a"),
        pair("env", "prod"),
        pair("", "empty-key"),
    ];
    let tags = tags_from_pairs(&pairs);
    assert_eq!(
        texts(&tags),
        vec![
            ("env".to_string(), "prod".to_string()),
            ("team".to_string(), "a".to_string()),
            ("".to_string(), "empty-key".to_string())
        ]
    );
    let keyed = keyed_tags_from_pairs(&pairs);
    assert_eq!(keyed.len(), 2);
    assert_eq!(keyed.get(""), None);
    assert_eq!(EC2Collector::tags_to_hashmap(&pairs).len(), 3);
}

#[test]
fn sizes_in_gib() {
    assert_eq!(bytes_of_gib(None), None);
    assert_eq!(bytes_of_gib(Some(0)), Some(0));
    assert_eq!(bytes_of_gib(Some(1)), Some(1073741824));
    assert_eq!(bytes_of_gib(Some(100)), Some(107374182400));
    assert_eq!(bytes_of_gib(Some(i32::MAX)), Some(2147483647u64 * 1073741824));
    assert_eq!(bytes_of_gib(Some(-1)), None);
}

fn instance() -> InstanceFacts {
    InstanceFacts {
        instance_id: some("i-1"),
        tags: vec![pair("Name", "web")],
        state: some("running"),
        instance_type: some("t3.micro"),
        platform: None,
        private_ip: some("10.0.0.1"),
        public_ip: None,
        vpc_id: some("vpc-1"),
        subnet_id: some("subnet-1"),
        launch_time: some("2025-01-01T00:00:00Z"),
        iam_instance_profile_arn: None,
        ebs_optimized: Some(false),
    }
}

fn volume() -> VolumeFacts {
    VolumeFacts {
        volume_id: some("vol-1"),
        tags: vec![pair("env", "dev")],
        state: some("in-use"),
        iops: Some(3000),
        throughput: None,
        volume_type: some("gp3"),
        multi_attach_enabled: Some(false),
        attachments: vec![
            AttachmentFacts { instance_id: some("i-1"), state: some("attached"), device: None },
            AttachmentFacts { instance_id: some("i-2"), state: None, device: some("/dev/sdf") },
        ],
        size_gib: Some(8),
        encrypted: Some(true),
        kms_key_id: some("key-1"),
    }
}

#[test]
fn ec2_identifiers() {
    assert_eq!(
        EC2Collector::arn_instance("us-east-1", "123456789012", "i-1"),
        "arn:aws:ec2:us-east-1:123456789012:instance/i-1"
    );
    assert_eq!(
        EC2Collector::arn_volume("us-east-1", "123456789012", "vol-1"),
        "arn:aws:ec2:us-east-1:123456789012:volume/vol-1"
    );
    assert_eq!(EC2Collector::account_or_default(&None), "000000000000");
    assert_eq!(EC2Collector::account_or_default(&some("42")), "42");
}

#[test]
fn ec2_instance_record() {
    let a = EC2Collector::instance_asset("us-east-1", "42", &instance()).expect("has an id");
    assert_eq!(a.id, "arn:aws:ec2:us-east-1:42:instance/i-1");
    assert_eq!(a.service, "ec2");
    assert_eq!(a.kind, AssetKind::Compute);
    assert_eq!(a.region, "us-east-1");
    assert_eq!(a.name, some("i-1"));
    assert_eq!(a.uri, some("ec2://i-1"));
    assert_eq!(a.size_bytes, None);
    assert_eq!(a.encrypted, None);
    assert_eq!(a.kms_key_id, None);
    assert_eq!(tag(&a, "Name"), some("web"));
    assert_eq!(text(&a, "state"), some("running"));
    assert_eq!(text(&a, "instance_type"), some("t3.micro"));
    assert_eq!(text(&a, "private_ip"), some("10.0.0.1"));
    assert_eq!(text(&a, "vpc_id"), some("vpc-1"));
    assert_eq!(text(&a, "subnet_id"), some("subnet-1"));
    assert_eq!(text(&a, "launch_time"), some("2025-01-01T00:00:00Z"));
    assert_eq!(flag(&a, "ebs_optimized"), Some(false));
    assert!(a.metadata.get("platform").is_none());
    assert!(a.metadata.get("public_ip").is_none());
    assert_eq!(a.metadata.len(), 7);

    let mut nameless = instance();
    nameless.instance_id = None;
    assert!(EC2Collector::instance_asset("us-east-1", "42", &nameless).is_none());
}

#[test]
fn ec2_volume_record() {
    let a = EC2Collector::volume_asset("us-east-1", "42", &volume()).expect("has an id");
    assert_eq!(a.id, "arn:aws:ec2:us-east-1:42:volume/vol-1");
    assert_eq!(a.kind, AssetKind::BlockStorage);
    assert_eq!(a.name, some("vol-1"));
    assert_eq!(a.uri, some("ec2://volume/vol-1"));
    assert_eq!(a.size_bytes, Some(8 * 1024 * 1024 * 1024));
    assert_eq!(a.encrypted, Some(true));
    assert_eq!(a.kms_key_id, some("key-1"));
    assert_eq!(text(&a, "state"), some("in-use"));
    assert_eq!(number(&a, "iops"), Some(3000));
    assert!(a.metadata.get("throughput").is_none());
    assert_eq!(text(&a, "volume_type"), some("gp3"));
    match a.metadata.get("attachments") {
        Some(MetaValue::List(items)) => {
            assert_eq!(items.len(), 2);
            match &items[0] {
                MetaValue::Record(fields) => {
                    let names: Vec<&str> = fields.iter().map(|f| f.name.as_str()).collect();
                    assert_eq!(names, vec!["instance_id", "state", "device"]);
                    assert!(matches!(&fields[0].value, MetaValue::Text(t) if t == "i-1"));
                    assert!(matches!(&fields[1].value, MetaValue::Text(t) if t == "attached"));
                    assert!(matches!(&fields[2].value, MetaValue::Null));
                }
                other => panic!("not a record: {other:?}"),
            }
        }
        other => panic!("not a list: {other:?}"),
    }
    let mut nameless = volume();
    nameless.volume_id = None;
    assert!(EC2Collector::volume_asset("us-east-1", "42", &nameless).is_none());
}

#[test]
fn ec2_mock_records() {
    let assets = EC2Collector::mock_assets(&["us-east-1".to_string()]);
    assert_eq!(assets.len(), 2);
    assert_eq!(assets[0].kind, AssetKind::Compute);
    assert_eq!(assets[0].region, "ap-northeast-2");
    assert_eq!(text(&assets[0], "state"), some("running"));
    assert_eq!(text(&assets[0], "instance_type"), some("t3.medium"));
    assert_eq!(assets[1].kind, AssetKind::BlockStorage);
    assert_eq!(assets[1].size_bytes, Some(100 * 1024 * 1024 * 1024));
    assert_eq!(assets[1].encrypted, Some(true));
    assert_eq!(
        assets[1].kms_key_id,
        some("arn:aws:kms:ap-northeast-2:111122223333:key/mock-kms")
    );
    assert_eq!(flag(&assets[1], "encrypted"), Some(true));
}

#[test]
fn ebs_volume_record() {
    let a = EbsCollector::volume_asset("us-east-1", &volume());
    assert_eq!(a.id, "arn:aws:ec2:us-east-1:unknown:volume/vol-1");
    assert_eq!(a.service, "ec2");
    assert_eq!(a.kind, AssetKind::BlockStorage);
    assert_eq!(a.uri, some("ec2://us-east-1/volume/vol-1"));
    assert_eq!(a.size_bytes, Some(8 * 1024 * 1024 * 1024));
    // The second attachment replaces what it reports and keeps the rest.
    assert_eq!(text(&a, "attached_instance"), some("i-2"));
    assert_eq!(text(&a, "device"), some("/dev/sdf"));
    assert_eq!(text(&a, "attachment_state"), some("attached"));
    assert_eq!(text(&a, "state"), some("in-use"));
    assert_eq!(number(&a, "iops"), Some(3000));
    assert_eq!(flag(&a, "multi_attach_enabled"), Some(false));
    let mut nameless = volume();
    nameless.volume_id = None;
    let b = EbsCollector::volume_asset("us-east-1", &nameless);
    assert_eq!(b.id, "arn:aws:ec2:us-east-1:unknown:volume/unknown");
    assert_eq!(b.name, some("unknown"));
}

#[test]
fn log_group_record() {
    let facts = LogGroupFacts {
        log_group_name: some("/aws/lambda/x"),
        kms_key_id: None,
        retention_in_days: Some(14),
    };
    let a = CloudWatchLogsCollector::log_group_asset("us-east-1", &facts);
    assert_eq!(a.id, "arn:aws:logs:us-east-1:unknown:log-group:/aws/lambda/x:*");
    assert_eq!(a.service, "cloudwatch-logs");
    assert_eq!(a.uri, some("logs://us-east-1//aws/lambda/x"));
    assert_eq!(a.encrypted, Some(false));
    assert_eq!(number(&a, "retention_days"), Some(14));
    assert!(a.metadata.get("kms_key_id").is_none());
    let keyed = LogGroupFacts { log_group_name: None, kms_key_id: some("k"), retention_in_days: None };
    let b = CloudWatchLogsCollector::log_group_asset("r", &keyed);
    assert_eq!(b.id, "arn:aws:logs:r:unknown:log-group::*");
    assert_eq!(b.name, some(""));
    assert_eq!(b.encrypted, Some(true));
    assert_eq!(text(&b, "kms_key_id"), some("k"));
    let mock = CloudWatchLogsCollector::mock_assets(&[]);
    assert!(matches!(mock[0].metadata.get("kms_key_id"), Some(MetaValue::Null)));
    assert_eq!(number(&mock[0], "retention_days"), Some(14));
}

fn trail() -> TrailFacts {
    TrailFacts {
        name: some("org"),
        trail_arn: some("arn:trail"),
        s3_bucket_name: some("bucket"),
        s3_key_prefix: None,
        cloud_watch_logs_log_group_arn: None,
        cloud_watch_logs_role_arn: None,
        kms_key_id: None,
        is_multi_region_trail: None,
        log_file_validation_enabled: None,
        is_organization_trail: Some(true),
        home_region: None,
    }
}

#[test]
fn trail_record() {
    let a = CloudTrailCollector::trail_asset("us-east-1", &trail(), Some(false));
    assert_eq!(a.id, "arn:trail");
    assert_eq!(a.name, some("org"));
    assert_eq!(a.uri, some("cloudtrail://arn:trail"));
    assert_eq!(a.encrypted, None);
    assert_eq!(text(&a, "s3_bucket"), some("bucket"));
    assert_eq!(flag(&a, "is_multi_region_trail"), Some(false));
    assert_eq!(flag(&a, "log_file_validation"), Some(true));
    assert_eq!(flag(&a, "is_organization_trail"), Some(true));
    assert_eq!(text(&a, "home_region"), some("us-east-1"));
    assert_eq!(flag(&a, "has_insight_selectors"), Some(false));

    let mut bare = trail();
    bare.name = None;
    bare.trail_arn = None;
    bare.kms_key_id = some("k");
    bare.home_region = some("eu-west-1");
    let b = CloudTrailCollector::trail_asset("us-east-1", &bare, None);
    assert_eq!(b.id, "cloudtrail:us-east-1:unknown");
    assert_eq!(b.name, some("unknown"));
    assert_eq!(b.uri, some("cloudtrail://unknown"));
    assert_eq!(b.encrypted, Some(true));
    assert_eq!(b.kms_key_id, some("k"));
    assert_eq!(text(&b, "home_region"), some("eu-west-1"));
    assert!(b.metadata.get("has_insight_selectors").is_none());

    let mut empty_arn = trail();
    empty_arn.trail_arn = some("");
    let c = CloudTrailCollector::trail_asset("r", &empty_arn, None);
    assert_eq!(c.id, "cloudtrail:r:org");
    assert_eq!(c.uri, some("cloudtrail://"));

    assert!(CloudTrailCollector::asks_insight(&trail()));
    assert!(!CloudTrailCollector::asks_insight(&bare));
    assert_eq!(CloudTrailCollector::has_insight(None), None);
    assert_eq!(CloudTrailCollector::has_insight(Some(0)), Some(false));
    assert_eq!(CloudTrailCollector::has_insight(Some(2)), Some(true));
}

fn attributes(pairs: &[(&str, &str)]) -> StrMap<String> {
    let mut m = StrMap::new();
    for (k, v) in pairs {
        m.insert(k.to_string(), v.to_string());
    }
    m
}

#[test]
fn queue_record() {
    let attrs = attributes(&[
        ("QueueArn", "arn:aws:sqs:us-east-1:1:jobs.fifo"),
        ("FifoQueue", "true"),
        ("VisibilityTimeout", "30"),
        ("DelaySeconds", "zero"),
        ("MessageRetentionPeriod", "345600"),
        ("SqsManagedSseEnabled", "true"),
    ]);
    let tags = attributes(&[("env", "dev")]);
    let a = SqsCollector::queue_asset("us-east-1", "https://sqs/1/jobs.fifo", &attrs, tags);
    assert_eq!(a.id, "arn:aws:sqs:us-east-1:1:jobs.fifo");
    assert_eq!(a.service, "sqs");
    assert_eq!(a.kind, AssetKind::MessageQueue);
    assert_eq!(a.name, some("jobs.fifo"));
    assert_eq!(a.uri, some("https://sqs/1/jobs.fifo"));
    assert_eq!(a.encrypted, Some(true));
    assert_eq!(a.kms_key_id, None);
    assert_eq!(tag(&a, "env"), some("dev"));
    assert_eq!(flag(&a, "fifo"), Some(true));
    assert_eq!(number(&a, "visibility_timeout_seconds"), Some(30));
    assert!(a.metadata.get("delay_seconds").is_none());
    assert_eq!(number(&a, "message_retention_seconds"), Some(345600));

    let plain = SqsCollector::queue_asset("us-east-1", "https://sqs/1/jobs", &StrMap::new(), StrMap::new());
    assert_eq!(plain.id, "sqs:us-east-1:jobs");
    assert_eq!(plain.encrypted, Some(false));
    assert_eq!(flag(&plain, "fifo"), Some(false));
    assert_eq!(plain.metadata.len(), 1);

    let keyed = attributes(&[("KmsMasterKeyId", "alias/k"), ("SqsManagedSseEnabled", "TRUE")]);
    let b = SqsCollector::queue_asset("r", "q", &keyed, StrMap::new());
    assert_eq!(b.encrypted, Some(true));
    assert_eq!(b.kms_key_id, some("alias/k"));
    assert_eq!(b.name, some("q"));
    assert!(!SqsCollector::flag_of(&keyed, "SqsManagedSseEnabled"));
    assert_eq!(SqsCollector::number_of(&attrs, "VisibilityTimeout"), Some(30));
    assert_eq!(SqsCollector::number_of(&attrs, "Missing"), None);
}

#[test]
fn domain_record() {
    let facts = DomainFacts {
        domain_name: None,
        arn: "arn:domain".to_string(),
        engine_version: None,
        endpoint: some("https://d"),
        encryption_at_rest: Some(EncryptionAtRest { enabled: None, kms_key_id: some("k") }),
    };
    let tags = vec![pair("env", "dev"), pair("", "dropped")];
    let a = OpenSearchCollector::domain_asset("us-east-1", &facts, &tags);
    assert_eq!(a.id, "arn:domain");
    assert_eq!(a.service, "opensearch");
    assert_eq!(a.name, some("unknown"));
    assert_eq!(a.uri, some("https://d"));
    assert_eq!(a.encrypted, Some(true));
    assert_eq!(a.kms_key_id, some("k"));
    assert_eq!(a.tags.len(), 1);
    assert_eq!(text(&a, "engine"), some("unknown"));
    assert_eq!(text(&a, "endpoint"), some("https://d"));
    let off = DomainFacts {
        domain_name: some("d"),
        arn: String::new(),
        engine_version: some("OpenSearch_2.13"),
        endpoint: None,
        encryption_at_rest: Some(EncryptionAtRest { enabled: Some(false), kms_key_id: None }),
    };
    let b = OpenSearchCollector::domain_asset("r", &off, &vec![]);
    assert_eq!(b.encrypted, Some(false));
    assert_eq!(b.uri, None);
    assert_eq!(b.metadata.len(), 1);
    let unknown = DomainFacts { encryption_at_rest: None, ..off };
    assert_eq!(OpenSearchCollector::domain_asset("r", &unknown, &vec![]).encrypted, None);
    assert!(OpenSearchCollector::lists_tags("arn"));
    assert!(!OpenSearchCollector::lists_tags(""));
}

#[test]
fn stream_record() {
    let summary = Some(StreamSummary {
        open_shard_count: 4,
        stream_mode: Some(StreamMode::Provisioned),
        stream_arn: "arn:stream".to_string(),
    });
    let tags = vec![pair("env", "dev"), TagPair { key: some("bare"), value: None }];
    let a = KinesisCollector::stream_asset("us-east-1", "events", &summary, &tags).expect("summary");
    assert_eq!(a.id, "arn:stream");
    assert_eq!(a.service, "kinesis");
    assert_eq!(a.name, some("events"));
    assert_eq!(a.uri, some("kinesis://events"));
    assert_eq!(number(&a, "open_shard_count"), Some(4));
    assert_eq!(text(&a, "stream_mode"), some("PROVISIONED"));
    assert_eq!(text(&a, "stream_arn"), some("arn:stream"));
    assert_eq!(a.tags.len(), 1);
    assert!(KinesisCollector::stream_asset("r", "events", &None, &tags).is_none());
    assert!(KinesisCollector::lists_tags(&summary));
    assert!(!KinesisCollector::lists_tags(&None));
    assert_eq!(KinesisCollector::mode_name(Some(StreamMode::OnDemand)), some("ON_DEMAND"));
    assert_eq!(KinesisCollector::mode_name(Some(StreamMode::Unknown)), None);
    assert_eq!(KinesisCollector::mode_name(None), None);
}

#[test]
fn table_record() {
    let facts = TableFacts {
        table_arn: None,
        billing_mode: some("PROVISIONED"),
        pitr_status: None,
        sse: Some(SseFacts { status: some("ENABLED"), kms_master_key_arn: some("k"), sse_type: some("KMS") }),
    };
    let a = DynamodbCollector::table_asset("us-east-1", "users", &facts, &vec![pair("a", "b")]);
    assert_eq!(a.id, "users");
    assert_eq!(a.service, "dynamodb");
    assert_eq!(a.uri, some("dynamodb://us-east-1/users"));
    assert_eq!(a.encrypted, Some(true));
    assert_eq!(a.kms_key_id, some("k"));
    assert_eq!(text(&a, "billing_mode"), some("PROVISIONED"));
    assert_eq!(text(&a, "sse_status"), some("ENABLED"));
    assert_eq!(text(&a, "kms_key_arn"), some("k"));
    assert_eq!(text(&a, "sse_type"), some("KMS"));
    assert_eq!(tag(&a, "a"), some("b"));
    let off = TableFacts {
        table_arn: some("arn:table"),
        billing_mode: None,
        pitr_status: some("DISABLED"),
        sse: Some(SseFacts { status: some("DISABLING"), kms_master_key_arn: None, sse_type: None }),
    };
    let b = DynamodbCollector::table_asset("r", "t", &off, &vec![]);
    assert_eq!(b.id, "arn:table");
    assert_eq!(b.encrypted, Some(false));
    let bare = TableFacts { table_arn: None, billing_mode: None, pitr_status: None, sse: None };
    assert_eq!(DynamodbCollector::table_asset("r", "t", &bare, &vec![]).encrypted, None);
}

#[test]
fn repository_record() {
    let facts = RepositoryFacts {
        repository_name: some("app"),
        repository_arn: None,
        scan_on_push: Some(true),
    };
    let a = EcrCollector::repository_asset("us-east-1", &facts, &vec![]).expect("has a name");
    assert_eq!(a.id, "");
    assert_eq!(a.service, "ecr");
    assert_eq!(a.kind, AssetKind::ObjectStore);
    assert_eq!(a.uri, some("ecr://us-east-1/app"));
    assert_eq!(flag(&a, "scan_on_push"), Some(true));
    assert!(!EcrCollector::lists_tags(&facts));
    let nameless = RepositoryFacts { repository_name: None, repository_arn: some("arn"), scan_on_push: None };
    assert!(EcrCollector::repository_asset("r", &nameless, &vec![]).is_none());
    assert!(!EcrCollector::lists_tags(&nameless));
    let full = RepositoryFacts { repository_name: some("app"), repository_arn: some("arn"), scan_on_push: None };
    assert!(EcrCollector::lists_tags(&full));
    let blank = RepositoryFacts { repository_name: some("app"), repository_arn: some(""), scan_on_push: None };
    assert!(!EcrCollector::lists_tags(&blank));
    let registry = dspm_collector::collectors::containers_block_ml::EcrCollector::registry_asset(
        "r",
        &RegistryFacts { repository_arn: some("arn"), repository_name: None, repository_uri: some("uri") },
    );
    assert_eq!(registry.kind, AssetKind::Registry);
    assert_eq!(registry.id, "arn");
    assert_eq!(registry.name, None);
    assert_eq!(registry.uri, some("uri"));
}

#[test]
fn database_record() {
    let facts = DbInstanceFacts {
        db_instance_identifier: some("db1"),
        db_instance_arn: None,
        engine: some("postgres"),
        storage_encrypted: Some(false),
        kms_key_id: None,
        db_instance_class: some("db.t3.micro"),
        db_instance_status: None,
        endpoint: Some(EndpointFacts { address: some("db1.host"), port: Some(5432) }),
    };
    let a = RdsCollector::db_asset("us-east-1", &facts);
    assert_eq!(a.id, "arn:aws:rds:us-east-1:unknown:db:db1");
    assert_eq!(a.uri, some("rds://us-east-1/db1"));
    assert_eq!(a.encrypted, Some(false));
    assert_eq!(text(&a, "class"), some("db.t3.micro"));
    assert_eq!(text(&a, "endpoint"), some("db1.host"));
    assert_eq!(number(&a, "port"), Some(5432));
    assert_eq!(text(&a, "engine"), some("postgres"));
    let bare = DbInstanceFacts {
        db_instance_identifier: None,
        db_instance_arn: some("arn:db"),
        engine: None,
        storage_encrypted: None,
        kms_key_id: some("k"),
        db_instance_class: None,
        db_instance_status: None,
        endpoint: None,
    };
    let b = RdsCollector::db_asset("r", &bare);
    assert_eq!(b.id, "arn:db");
    assert_eq!(b.name, some("unknown"));
    assert_eq!(text(&b, "engine"), some(""));
    assert_eq!(b.metadata.len(), 1);
}

#[test]
fn vault_record() {
    let facts = VaultFacts {
        backup_vault_name: some("v"),
        backup_vault_arn: some("arn:vault"),
        encryption_key_arn: None,
        number_of_recovery_points: 12,
        creator_request_id: None,
    };
    let a = BackupCollector::vault_asset("us-east-1", &facts);
    assert_eq!(a.id, "arn:vault");
    assert_eq!(a.uri, some("arn://arn:vault"));
    assert_eq!(a.encrypted, Some(false));
    assert_eq!(text(&a, "vault_arn"), some("arn:vault"));
    assert_eq!(number(&a, "recovery_points"), Some(12));
    let odd = VaultFacts {
        backup_vault_name: None,
        backup_vault_arn: None,
        encryption_key_arn: some("k"),
        number_of_recovery_points: -1,
        creator_request_id: some("req"),
    };
    let b = BackupCollector::vault_asset("r", &odd);
    assert_eq!(b.id, "");
    assert_eq!(b.name, some("unknown"));
    assert_eq!(b.uri, some("arn://"));
    assert_eq!(b.encrypted, Some(true));
    assert!(b.metadata.get("recovery_points").is_none());
    assert_eq!(text(&b, "creator_request_id"), some("req"));
}

#[test]
fn topic_record() {
    let attrs = vec![pair("DisplayName", "alerts"), pair("KmsMasterKeyId", "alias/sns")];
    let a = SnsCollector::topic_asset("us-east-1", "arn:aws:sns:us-east-1:1:alerts", &attrs, &vec![pair("t", "v")]);
    assert_eq!(a.id, "arn:aws:sns:us-east-1:1:alerts");
    assert_eq!(a.name, some("alerts"));
    assert_eq!(a.uri, some("arn://arn:aws:sns:us-east-1:1:alerts"));
    assert_eq!(a.kms_key_id, some("alias/sns"));
    assert_eq!(a.encrypted, None);
    assert_eq!(text(&a, "DisplayName"), some("alerts"));
    assert_eq!(text(&a, "KmsMasterKeyId"), some("alias/sns"));
    assert_eq!(tag(&a, "t"), some("v"));
    let b = SnsCollector::topic_asset("r", "plain", &vec![], &vec![]);
    assert_eq!(b.name, some("plain"));
    assert_eq!(b.kms_key_id, None);
}

#[test]
fn file_system_records() {
    let efs = EfsFacts {
        file_system_id: some("fs-1"),
        name: None,
        size_in_bytes: Some(6144),
        encrypted: Some(true),
        kms_key_id: some("k"),
    };
    let a = EfsCollector::file_system_asset("us-east-1", &efs);
    assert_eq!(a.id, "fs-1");
    assert_eq!(a.service, "efs");
    assert_eq!(a.kind, AssetKind::FileStore);
    assert_eq!(a.size_bytes, Some(6144));
    assert_eq!(a.encrypted, Some(true));
    let negative = EfsFacts { size_in_bytes: Some(-1), ..efs };
    assert_eq!(EfsCollector::file_system_asset("r", &negative).size_bytes, None);
    let fsx = FsxFacts { file_system_id: None, storage_capacity: Some(1200), kms_key_id: None };
    let b = FsxCollector::file_system_asset("r", &fsx);
    assert_eq!(b.id, "");
    assert_eq!(b.service, "fsx");
    assert_eq!(b.size_bytes, Some(1_200_000_000_000));
    assert_eq!(b.encrypted, Some(false));
    assert_eq!(b.name, None);
}

#[test]
fn queue_by_address() {
    let a = dspm_collector::collectors::messaging::SqsCollector::queue_asset("r", "https://h/1/q");
    assert_eq!(a.id, "https://h/1/q");
    assert_eq!(a.name, some("q"));
    assert_eq!(a.uri, some("https://h/1/q"));
    assert_eq!(a.kind, AssetKind::MessageQueue);
}

fn described(arn: Option<&str>, name: Option<&str>, key: Option<&str>, days: MetaValue) -> MetaValue {
    let mut fields = Vec::new();
    if let Some(a) = arn {
        fields.push(meta_field("arn", MetaValue::Text(a.to_string())));
    }
    if let Some(n) = name {
        fields.push(meta_field("logGroupName", MetaValue::Text(n.to_string())));
    }
    if let Some(k) = key {
        fields.push(meta_field("kmsKeyId", MetaValue::Text(k.to_string())));
    }
    fields.push(meta_field("retentionInDays", days));
    meta_record(fields)
}

#[test]
fn log_store_record() {
    let facts = GroupFacts {
        arn: some("arn:group"),
        log_group_name: some("/app"),
        kms_key_id: None,
        retention_in_days: Some(30),
    };
    let a = CwLogsCollector::group_asset("us-east-1", &facts);
    assert_eq!(a.id, "arn:group");
    assert_eq!(a.service, "cloudwatch-logs");
    assert_eq!(a.kind, AssetKind::LogStore);
    assert_eq!(a.region, "us-east-1");
    assert_eq!(a.name, some("/app"));
    assert_eq!(a.uri, None);
    assert_eq!(a.encrypted, Some(false));
    assert_eq!(number(&a, "retention_days"), Some(30));
    let bare = GroupFacts { arn: None, log_group_name: None, kms_key_id: some("k"), retention_in_days: None };
    let b = CwLogsCollector::group_asset("r", &bare);
    assert_eq!(b.id, "");
    assert_eq!(b.name, None);
    assert_eq!(b.encrypted, Some(true));
    assert!(matches!(b.metadata.get("retention_days"), Some(MetaValue::Null)));
}

#[test]
fn members_of_values() {
    let doc = meta_record(vec![
        meta_field("a", MetaValue::Number(1)),
        meta_field("b", MetaValue::Text("x".to_string())),
        meta_field("a", MetaValue::Number(2)),
    ]);
    assert!(matches!(member(&doc, "a"), Some(MetaValue::Number(2))));
    assert!(matches!(member(&doc, "b"), Some(MetaValue::Text(t)) if t == "x"));
    assert!(member(&doc, "c").is_none());
    assert!(member(&MetaValue::Null, "a").is_none());
    assert!(member(&meta_list(vec![]), "a").is_none());
    assert_eq!(member_text(&doc, "b"), some("x"));
    assert_eq!(member_text(&doc, "a"), None);
    assert_eq!(member_text(&doc, "c"), None);
}

#[test]
fn described_log_groups() {
    let doc = meta_record(vec![meta_field(
        "logGroups",
        meta_list(vec![
            described(Some("arn:1"), Some("/one"), None, MetaValue::Number(7)),
            described(Some("arn:2"), None, Some("key"), MetaValue::Null),
            described(Some("arn:3"), Some("/three"), None, MetaValue::Text("7".to_string())),
        ]),
    )]);
    assert!(is_well_described(&doc));
    assert_eq!(groups_of(&doc).map(|g| g.len()), Some(3));
    let assets = CwLogsCollector::described_assets(&doc);
    assert_eq!(assets.len(), 3);
    assert_eq!(assets[0].id, "arn:1");
    assert_eq!(assets[0].name, some("/one"));
    assert_eq!(assets[0].region, "ap-northeast-2");
    assert_eq!(assets[0].kind, AssetKind::LogStore);
    assert_eq!(assets[0].encrypted, Some(false));
    assert_eq!(assets[0].kms_key_id, None);
    assert_eq!(number(&assets[0], "retention_days"), Some(7));
    assert_eq!(assets[1].id, "arn:2");
    assert_eq!(assets[1].name, None);
    assert_eq!(assets[1].encrypted, Some(true));
    assert_eq!(assets[1].kms_key_id, some("key"));
    assert!(matches!(assets[1].metadata.get("retention_days"), Some(MetaValue::Null)));
    assert!(matches!(assets[2].metadata.get("retention_days"), Some(MetaValue::Null)));
}

#[test]
fn documents_without_groups_or_identifiers() {
    let empty = meta_record(vec![]);
    assert!(is_well_described(&empty));
    assert!(groups_of(&empty).is_none());
    assert!(CwLogsCollector::described_assets(&empty).is_empty());
    let not_a_list = meta_record(vec![meta_field("logGroups", MetaValue::Text("x".to_string()))]);
    assert!(is_well_described(&not_a_list));
    assert!(CwLogsCollector::described_assets(&not_a_list).is_empty());
    let nameless = meta_record(vec![meta_field(
        "logGroups",
        meta_list(vec![
            described(Some("arn:1"), None, None, MetaValue::Null),
            described(None, Some("/two"), None, MetaValue::Null),
        ]),
    )]);
    assert!(!is_well_described(&nameless));
    let wrong = meta_record(vec![meta_field(
        "logGroups",
        meta_list(vec![meta_record(vec![meta_field("arn", MetaValue::Number(1))])]),
    )]);
    assert!(!is_well_described(&wrong));
}
