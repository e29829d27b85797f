use dspm_collector::collector_core::{get_all, register, Collector, DiscoveryError, Entry, Registry};
use dspm_collector::collectors::build_collectors;
use dspm_collector::collectors::s3::S3Collector;
use dspm_collector::discovery::{merge, run, Outcome, RunReport};
use dspm_collector::record::{Asset, AssetKind};
use dspm_collector::services::ServiceKind;
use dspm_collector::strmap::StrMap;

fn record(id: &str, service: &str) -> Asset {
    Asset {
        id: id.to_string(),
        service: service.to_string(),
        kind: AssetKind::Other,
        region: "r".to_string(),
        name: None,
        uri: None,
        size_bytes: None,
        encrypted: None,
        kms_key_id: None,
        tags: StrMap::new(),
        metadata: StrMap::new(),
    }
}

struct Fixed {
    name: &'static str,
    ids: Vec<&'static str>,
}

impl Collector for Fixed {
    fn name(&self) -> &'static str {
        self.name
    }

    fn discover(&self, _regions: &[String], _mock: bool) -> Result<Vec<Asset>, DiscoveryError> {
        Ok(self.ids.iter().map(|id| record(id, self.name)).collect())
    }
}

struct Failing;

impl Collector for Failing {
    fn name(&self) -> &'static str {
        "failing"
    }

    fn discover(&self, _regions: &[String], _mock: bool) -> Result<Vec<Asset>, DiscoveryError> {
        Err(DiscoveryError { message: "forced to fail".to_string() })
    }
}

struct Echo;

impl Collector for Echo {
    fn name(&self) -> &'static str {
        "echo"
    }

    fn discover(&self, regions: &[String], mock: bool) -> Result<Vec<Asset>, DiscoveryError> {
        let mut out = Vec::new();
        for r in regions {
            let mut a = record(r, "echo");
            a.encrypted = Some(mock);
            out.push(a);
        }
        Ok(out)
    }
}

fn ids(report: &RunReport) -> Vec<&str> {
    report.assets.iter().map(|a| a.id.as_str()).collect()
}

#[test]
fn registry_keeps_the_order_of_registration() {
    let mut registry = Registry::new();
    assert_eq!(registry.len(), 0);
    assert_eq!(get_all(&registry).len(), 0);
    register(&mut registry, Box::new(Fixed { name: "one", ids: vec![] }));
    register(&mut registry, Box::new(Failing));
    registry.push(Entry { collector: Box::new(S3Collector::new()) });
    let all: Vec<&str> = get_all(&registry).iter().map(|e| e.collector.name()).collect();
    assert_eq!(all, vec!["one", "failing", "s3"]);
    assert_eq!(registry.len(), 3);
}

#[test]
fn a_failing_collector_does_not_stop_the_others() {
    let mut registry = Registry::new();
    register(&mut registry, Box::new(Fixed { name: "first", ids: vec!["a1", "a2"] }));
    register(&mut registry, Box::new(Failing));
    register(&mut registry, Box::new(Fixed { name: "third", ids: vec!["c1"] }));
    let report = run(get_all(&registry), &[], false);
    assert_eq!(ids(&report), vec!["a1", "a2", "c1"]);
    assert_eq!(report.failures.len(), 1);
    assert_eq!(report.failures[0].collector, "failing");
    assert_eq!(report.failures[0].error.message, "forced to fail");
    assert_eq!(report.failures[0].line(), "collector failing failed: forced to fail");
}

#[test]
fn every_collector_failing_gives_an_empty_aggregate() {
    let mut registry = Registry::new();
    register(&mut registry, Box::new(Failing));
    register(&mut registry, Box::new(Failing));
    let report = run(get_all(&registry), &["us-east-1".to_string()], true);
    assert_eq!(report.assets.len(), 0);
    assert_eq!(report.failures.len(), 2);
}

#[test]
fn the_order_within_a_collector_is_kept() {
    let mut registry = Registry::new();
    register(&mut registry, Box::new(Fixed { name: "x", ids: vec!["X"] }));
    register(&mut registry, Box::new(Fixed { name: "abc", ids: vec!["A", "B", "C"] }));
    register(&mut registry, Box::new(Fixed { name: "y", ids: vec!["Y"] }));
    let report = run(get_all(&registry), &[], false);
    let got = ids(&report);
    let a = got.iter().position(|i| *i == "A").expect("A is there");
    let b = got.iter().position(|i| *i == "B").expect("B is there");
    let c = got.iter().position(|i| *i == "C").expect("C is there");
    assert!(a < b && b < c);
    assert_eq!(got, vec!["X", "A", "B", "C", "Y"]);
    assert_eq!(report.failures.len(), 0);
}

#[test]
fn scope_and_mock_are_handed_on_as_they_are() {
    let mut registry = Registry::new();
    register(&mut registry, Box::new(Echo));
    let scope = vec!["b".to_string(), "a".to_string(), "b".to_string()];
    let report = run(get_all(&registry), &scope, true);
    assert_eq!(ids(&report), vec!["b", "a", "b"]);
    assert!(report.assets.iter().all(|a| a.encrypted == Some(true)));
    let report = run(get_all(&registry), &[], false);
    assert_eq!(report.assets.len(), 0);
}

#[test]
fn an_empty_registry_finds_nothing() {
    let registry = Registry::new();
    let report = run(get_all(&registry), &["us-east-1".to_string()], true);
    assert_eq!(report.assets.len(), 0);
    assert_eq!(report.failures.len(), 0);
}

#[test]
fn absorb_adds_records_or_a_failure() {
    let mut report = RunReport::new();
    report.absorb("one", Ok(vec![record("1", "one"), record("2", "one")]));
    report.absorb("two", Err(DiscoveryError { message: "no".to_string() }));
    report.absorb("three", Ok(vec![]));
    report.absorb("four", Ok(vec![record("3", "four")]));
    assert_eq!(ids(&report), vec!["1", "2", "3"]);
    assert_eq!(report.failures.len(), 1);
    assert_eq!(report.failures[0].collector, "two");
    assert_eq!(report.failures[0].error.message, "no");
}

#[test]
fn merge_takes_outcomes_in_the_order_given() {
    let outcomes = vec![
        Outcome { collector: "b".to_string(), result: Ok(vec![record("b1", "b"), record("b2", "b")]) },
        Outcome {
            collector: "bad".to_string(),
            result: Err(DiscoveryError { message: "down".to_string() }),
        },
        Outcome { collector: "a".to_string(), result: Ok(vec![record("a1", "a")]) },
        Outcome {
            collector: "worse".to_string(),
            result: Err(DiscoveryError { message: "gone".to_string() }),
        },
    ];
    let report = merge(outcomes);
    assert_eq!(ids(&report), vec!["b1", "b2", "a1"]);
    let failed: Vec<(&str, &str)> = report
        .failures
        .iter()
        .map(|f| (f.collector.as_str(), f.error.message.as_str()))
        .collect();
    assert_eq!(failed, vec![("bad", "down"), ("worse", "gone")]);
    let nothing = merge(vec![]);
    assert!(nothing.assets.is_empty() && nothing.failures.is_empty());
}

#[test]
fn merge_agrees_with_run() {
    let mut registry = Registry::new();
    register(&mut registry, Box::new(Fixed { name: "first", ids: vec!["a1", "a2"] }));
    register(&mut registry, Box::new(Failing));
    register(&mut registry, Box::new(Fixed { name: "third", ids: vec!["c1"] }));
    let outcomes: Vec<Outcome> = get_all(&registry)
        .iter()
        .map(|e| Outcome {
            collector: e.collector.name().to_string(),
            result: e.collector.discover(&[], false),
        })
        .collect();
    let merged = merge(outcomes);
    let ran = run(get_all(&registry), &[], false);
    assert_eq!(ids(&merged), ids(&ran));
    assert_eq!(merged.failures.len(), ran.failures.len());
    assert_eq!(merged.failures[0].collector, ran.failures[0].collector);
}

#[test]
fn end_to_end_mock_run_of_s3_and_ec2() {
    let services = ServiceKind::parse_list("s3,ec2");
    let collectors = build_collectors(&services).expect("collectors are built");
    let report = run(&collectors, &["us-east-1".to_string()], true);
    assert!(!report.assets.is_empty());
    assert!(report.failures.is_empty());
    for service in ["s3", "ec2"] {
        let found: Vec<&Asset> = report.assets.iter().filter(|a| a.service == service).collect();
        assert!(!found.is_empty(), "no record of {service}");
        for a in found {
            assert!(!a.id.is_empty());
            assert!(!a.region.is_empty());
            assert!(matches!(
                a.kind,
                AssetKind::ObjectStore | AssetKind::Compute | AssetKind::BlockStorage
            ));
        }
    }
    let got = ids(&report);
    assert_eq!(
        got,
        vec![
            "arn:aws:s3:::sample-bucket-mock",
            "arn:aws:ec2:ap-northeast-2:111122223333:instance/i-0123456789abcdef0",
            "arn:aws:ec2:ap-northeast-2:111122223333:volume/vol-0abcde12345f67890",
        ]
    );
    assert_eq!(report.assets[0].region, "us-east-1");
}

#[test]
fn live_discovery_without_a_session_is_reported_not_fatal() {
    let services = ServiceKind::parse_list("s3,ec2");
    let collectors = build_collectors(&services).expect("collectors are built");
    let report = run(&collectors, &["us-east-1".to_string()], false);
    assert!(report.assets.is_empty());
    assert_eq!(report.failures.len(), 2);
    assert_eq!(report.failures[0].collector, "s3");
    assert_eq!(
        report.failures[0].error.message,
        "s3: live discovery needs a session with the provider"
    );
    assert_eq!(report.failures[1].collector, "ec2");
}
