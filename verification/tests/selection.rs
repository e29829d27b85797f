use dspm_collector::collector_core::Registry;
use dspm_collector::collectors::{build_collectors, build_from_tokens};
use dspm_collector::out::OutMode;
use dspm_collector::services::{parse_scope, ServiceKind};

fn names(registry: &Registry) -> Vec<String> {
    registry.entries.iter().map(|e| e.collector.name().to_string()).collect()
}

#[test]
fn every_token_selects_its_service() {
    let table = [
        ("s3", ServiceKind::S3),
        ("ec2", ServiceKind::EC2),
        ("cloudwatch-logs", ServiceKind::CloudWatchLogs),
        ("logs", ServiceKind::CloudWatchLogs),
        ("ec2-ebs", ServiceKind::EC2Ebs),
        ("ebs", ServiceKind::EC2Ebs),
        ("ecr", ServiceKind::Ecr),
        ("cloudtrail", ServiceKind::CloudTrail),
        ("sqs", ServiceKind::SQS),
        ("opensearch", ServiceKind::OpenSearch),
        ("es", ServiceKind::OpenSearch),
        ("backup", ServiceKind::Backup),
        ("sns", ServiceKind::SNS),
        ("kinesis", ServiceKind::Kinesis),
    ];
    for (token, kind) in table {
        assert_eq!(ServiceKind::parse_list(token), vec![kind], "token {token}");
        assert_eq!(ServiceKind::from_token(token), Some(kind), "token {token}");
    }
}

#[test]
fn tokens_are_read_without_regard_to_case_or_padding() {
    assert_eq!(
        ServiceKind::parse_list(" S3 ,Ec2,\tLOGS\n, OpenSearch "),
        vec![
            ServiceKind::S3,
            ServiceKind::EC2,
            ServiceKind::CloudWatchLogs,
            ServiceKind::OpenSearch
        ]
    );
}

#[test]
fn upper_case_token_needs_lowering() {
    // Would fail if the token were compared as written.
    assert_eq!(ServiceKind::from_token("KINESIS"), None);
    assert_eq!(ServiceKind::parse_list("KINESIS"), vec![ServiceKind::Kinesis]);
}

#[test]
fn kelvin_sign_lowers_to_k() {
    assert_eq!(ServiceKind::parse_list("\u{212A}inesis"), vec![ServiceKind::Kinesis]);
}

#[test]
fn unknown_tokens_are_dropped() {
    assert_eq!(ServiceKind::parse_list("nope"), Vec::<ServiceKind>::new());
    assert_eq!(ServiceKind::parse_list(""), Vec::<ServiceKind>::new());
    assert_eq!(ServiceKind::parse_list(",,"), Vec::<ServiceKind>::new());
    assert_eq!(ServiceKind::parse_list("s3x,rds,dynamodb"), Vec::<ServiceKind>::new());
    assert_eq!(ServiceKind::parse_list("s 3"), Vec::<ServiceKind>::new());
    assert_eq!(
        ServiceKind::parse_list("s3,nope,sqs"),
        vec![ServiceKind::S3, ServiceKind::SQS]
    );
}

#[test]
fn repeated_tokens_select_repeatedly() {
    assert_eq!(
        ServiceKind::parse_list("s3,s3,ebs,ec2-ebs"),
        vec![ServiceKind::S3, ServiceKind::S3, ServiceKind::EC2Ebs, ServiceKind::EC2Ebs]
    );
}

#[test]
fn from_tokens_keeps_order() {
    let tokens = vec!["sns".to_string(), "what".to_string(), "backup".to_string()];
    assert_eq!(
        ServiceKind::from_tokens(&tokens),
        vec![ServiceKind::SNS, ServiceKind::Backup]
    );
}

#[test]
fn build_collectors_gives_one_collector_per_service() {
    let kinds = [
        ServiceKind::S3,
        ServiceKind::EC2,
        ServiceKind::CloudWatchLogs,
        ServiceKind::EC2Ebs,
        ServiceKind::Ecr,
        ServiceKind::CloudTrail,
        ServiceKind::SQS,
        ServiceKind::OpenSearch,
        ServiceKind::Backup,
        ServiceKind::SNS,
        ServiceKind::Kinesis,
    ];
    let built = build_collectors(&kinds).expect("collectors are built");
    let got: Vec<&str> = built.iter().map(|e| e.collector.name()).collect();
    assert_eq!(
        got,
        vec![
            "s3",
            "ec2",
            "cloudwatch-logs",
            "ebs",
            "ecr",
            "cloudtrail",
            "sqs",
            "opensearch",
            "backup",
            "sns",
            "kinesis"
        ]
    );
}

#[test]
fn build_collectors_of_nothing_is_empty() {
    assert_eq!(build_collectors(&[]).expect("collectors are built").len(), 0);
}

#[test]
fn build_from_tokens_registers_behind_what_is_there() {
    let mut registry = Registry::new();
    build_from_tokens(&mut registry, "sqs");
    build_from_tokens(&mut registry, "S3 , unknown, es");
    assert_eq!(names(&registry), vec!["sqs", "s3", "opensearch"]);
    build_from_tokens(&mut registry, "nothing,at,all");
    assert_eq!(registry.len(), 3);
}

#[test]
fn the_same_service_may_be_registered_twice() {
    let mut registry = Registry::new();
    build_from_tokens(&mut registry, "s3,S3");
    assert_eq!(names(&registry), vec!["s3", "s3"]);
}

#[test]
fn scope_is_trimmed_and_empty_pieces_are_dropped() {
    assert_eq!(
        parse_scope(" ap-northeast-2, us-east-1 ,, ,eu-west-1"),
        vec!["ap-northeast-2", "us-east-1", "eu-west-1"]
    );
    assert_eq!(parse_scope(""), Vec::<String>::new());
    assert_eq!(parse_scope(" , "), Vec::<String>::new());
    assert_eq!(parse_scope("US-East-1"), vec!["US-East-1"]);
}

#[test]
fn out_mode_is_http_only_for_http() {
    assert_eq!(OutMode::parse("http"), OutMode::Http);
    assert_eq!(OutMode::parse("HTTP"), OutMode::Http);
    assert_eq!(OutMode::parse("Http"), OutMode::Http);
    assert_eq!(OutMode::parse("stdout"), OutMode::Stdout);
    assert_eq!(OutMode::parse(""), OutMode::Stdout);
    assert_eq!(OutMode::parse(" http"), OutMode::Stdout);
    assert_eq!(OutMode::parse("https"), OutMode::Stdout);
    assert_eq!(OutMode::from_lowered("HTTP"), OutMode::Stdout);
    assert_eq!(OutMode::from_lowered("http"), OutMode::Http);
}
