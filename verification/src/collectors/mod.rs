//! The collectors of the services, and what they share.

use crate::collector_core::{DiscoveryError, Entry, Registry};
use crate::discovery::{contribution, failed, failure_texts, is_run_of, labels, merged, RunReport};
use crate::collectors::backup::{backup_mock, BackupCollector};
use crate::collectors::cloudtrail::{cloudtrail_mock, CloudTrailCollector};
use crate::collectors::cloudwatch_logs::{cloudwatch_logs_mock, CloudWatchLogsCollector};
use crate::collectors::ebs::{ebs_mock, EbsCollector};
use crate::collectors::ec2::{ec2_mock, EC2Collector};
use crate::collectors::ecr::{ecr_mock, EcrCollector};
use crate::collectors::kinesis::{kinesis_mock, KinesisCollector};
use crate::collectors::opensearch::{opensearch_mock, OpenSearchCollector};
use crate::collectors::s3::{s3_mock, S3Collector};
use crate::collectors::sns::{sns_mock, SnsCollector};
use crate::collectors::sqs::{sqs_mock, SqsCollector};
use crate::services::{kinds_of_tokens, tokens_of, ServiceKind};
use crate::text::all_ascii;
use crate::record::{
    metadata_model, no_metadata, no_tags, put_tag, put_text, tags_model, with_meta, Asset,
    AssetModel, MetaModel, MetaValue,
};
use crate::strmap::StrMap;
use crate::text::join2;
use vstd::prelude::*;

pub mod backup;
pub mod cloudtrail;
pub mod cloudwatch_logs;
pub mod containers_block_ml;
pub mod dynamodb;
pub mod ebs;
pub mod ec2;
pub mod ecr;
pub mod efs_fsx;
pub mod kinesis;
pub mod logs;
pub mod messaging;
pub mod opensearch;
pub mod rds;
pub mod s3;
pub mod sns;
pub mod sqs;

verus! {

/// What each record of a list holds.
pub open spec fn models(assets: Seq<Asset>) -> Seq<AssetModel> {
    assets.map_values(|a: Asset| a@)
}

/// The message of a collector that is asked for a live discovery without a
/// session with the provider.
pub open spec fn offline_message(name: Seq<char>) -> Seq<char> {
    name + ": live discovery needs a session with the provider"@
}

/// The error of a collector that is asked for a live discovery without a
/// session with the provider.
pub fn offline_error(name: &str) -> (e: DiscoveryError)
    ensures
        e.message@ == offline_message(name@),
{
    DiscoveryError { message: join2(name, ": live discovery needs a session with the provider") }
}

/// What an optional record holds.
pub open spec fn opt_model(asset: Option<Asset>) -> Option<AssetModel> {
    match asset {
        Some(a) => Some(a@),
        None => None,
    }
}

/// The number of bytes in a size given in units of 2^30 bytes. A negative
/// size gives none.
pub open spec fn gib_bytes(size: Option<i32>) -> Option<u64> {
    match size {
        Some(n) => if n >= 0 {
            Some((n * 1073741824) as u64)
        } else {
            None
        },
        None => None,
    }
}

/// The number of bytes in a size given in units of 2^30 bytes.
pub fn bytes_of_gib(size: Option<i32>) -> (bytes: Option<u64>)
    ensures
        bytes == gib_bytes(size),
{
    match size {
        Some(n) => if n >= 0 {
            let wide: u64 = n as u64;
            Some(wide * 1073741824)
        } else {
            None
        },
        None => None,
    }
}

/// The text of an optional string, or `default` where there is none.
pub open spec fn text_or(s: Option<String>, default: Seq<char>) -> Seq<char> {
    match s {
        Some(t) => t@,
        None => default,
    }
}

/// An optional string, or `default` where there is none.
pub fn string_or(s: &Option<String>, default: &str) -> (r: String)
    ensures
        r@ == text_or(*s, default@),
{
    match s {
        Some(t) => t.clone(),
        None => default.to_owned(),
    }
}

/// An optional flag, or `default` where there is none.
pub open spec fn flag_or(flag: Option<bool>, default: bool) -> bool {
    match flag {
        Some(b) => b,
        None => default,
    }
}

/// An optional flag, or `default` where there is none.
pub fn flag_or_default(flag: Option<bool>, default: bool) -> (b: bool)
    ensures
        b == flag_or(flag, default),
{
    match flag {
        Some(b) => b,
        None => default,
    }
}

/// `arn`, or `fallback` where `arn` is empty.
pub open spec fn nonempty_or(arn: Seq<char>, fallback: Seq<char>) -> Seq<char> {
    if arn.len() > 0 {
        arn
    } else {
        fallback
    }
}

/// A tag as a service reports it: either part may be missing.
#[derive(Debug)]
pub struct TagPair {
    pub key: Option<String>,
    pub value: Option<String>,
}

/// The tags that a list of reported tags gives: each tag with both parts, a
/// later one replacing an earlier one with the same key.
pub open spec fn tags_of(pairs: Seq<TagPair>) -> Map<Seq<char>, Seq<char>>
    decreases pairs.len(),
{
    if pairs.len() == 0 {
        Map::empty()
    } else {
        let rest = tags_of(pairs.drop_last());
        match (pairs.last().key, pairs.last().value) {
            (Some(k), Some(v)) => rest.insert(k@, v@),
            _ => rest,
        }
    }
}

/// The tags of a resource from the tags that its service reports.
pub fn tags_from_pairs(pairs: &Vec<TagPair>) -> (tags: StrMap<String>)
    ensures
        tags_model(tags) == tags_of(pairs@),
{
    let mut tags = no_tags();
    let n: usize = pairs.len();
    let mut i: usize = 0;
    assert(pairs@.subrange(0, 0) =~= Seq::<TagPair>::empty());
    while i < n
        invariant
            n == pairs@.len(),
            i <= n,
            tags_model(tags) == tags_of(pairs@.subrange(0, i as int)),
        decreases n - i,
    {
        proof {
            let next = pairs@.subrange(0, i + 1);
            assert(next.drop_last() =~= pairs@.subrange(0, i as int));
            assert(next.last() == pairs@[i as int]);
        }
        match (&pairs[i].key, &pairs[i].value) {
            (Some(k), Some(v)) => {
                put_tag(&mut tags, k.as_str(), v.as_str());
            },
            _ => {},
        }
        i = i + 1;
    }
    assert(pairs@.subrange(0, n as int) =~= pairs@);
    tags
}

/// The name that the collector of a service declares.
pub open spec fn service_name(kind: ServiceKind) -> Seq<char> {
    match kind {
        ServiceKind::S3 => "s3"@,
        ServiceKind::EC2 => "ec2"@,
        ServiceKind::CloudWatchLogs => "cloudwatch-logs"@,
        ServiceKind::EC2Ebs => "ebs"@,
        ServiceKind::Ecr => "ecr"@,
        ServiceKind::CloudTrail => "cloudtrail"@,
        ServiceKind::SQS => "sqs"@,
        ServiceKind::OpenSearch => "opensearch"@,
        ServiceKind::Backup => "backup"@,
        ServiceKind::SNS => "sns"@,
        ServiceKind::Kinesis => "kinesis"@,
    }
}

/// The records that the collector of a service returns when no outside call
/// is made. They depend on the service and the scope alone.
pub open spec fn mock_records(kind: ServiceKind, regions: Seq<Seq<char>>) -> Seq<AssetModel> {
    match kind {
        ServiceKind::S3 => s3_mock(regions),
        ServiceKind::EC2 => ec2_mock(regions),
        ServiceKind::CloudWatchLogs => cloudwatch_logs_mock(regions),
        ServiceKind::EC2Ebs => ebs_mock(regions),
        ServiceKind::Ecr => ecr_mock(regions),
        ServiceKind::CloudTrail => cloudtrail_mock(regions),
        ServiceKind::SQS => sqs_mock(regions),
        ServiceKind::OpenSearch => opensearch_mock(regions),
        ServiceKind::Backup => backup_mock(regions),
        ServiceKind::SNS => sns_mock(regions),
        ServiceKind::Kinesis => kinesis_mock(regions),
    }
}

/// Whether a discovery by the collector of a service may end in `outcome`:
/// with `mock` set it gives the fixed records of the service, and without a
/// session with the provider a live discovery fails.
pub open spec fn kind_discovers(
    kind: ServiceKind,
    regions: Seq<Seq<char>>,
    mock: bool,
    outcome: Result<Vec<Asset>, DiscoveryError>,
) -> bool {
    if mock {
        outcome is Ok && models(outcome->Ok_0@) == mock_records(kind, regions)
    } else {
        outcome is Err && outcome->Err_0.message@ == offline_message(service_name(kind))
    }
}

/// Whether `entry` holds the collector of the service `kind`.
pub open spec fn collects(entry: Entry, kind: ServiceKind) -> bool {
    &&& entry.collector.label() == service_name(kind)
    &&& forall|regions: Seq<Seq<char>>, mock: bool, outcome: Result<Vec<Asset>, DiscoveryError>|
        #[trigger] entry.collector.discovers(regions, mock, outcome) == kind_discovers(
            kind,
            regions,
            mock,
            outcome,
        )
}

/// Whether the entries hold the collectors of the services, one each and in
/// the same order.
pub open spec fn collect_each(entries: Seq<Entry>, kinds: Seq<ServiceKind>) -> bool {
    &&& entries.len() == kinds.len()
    &&& forall|i: int| 0 <= i < kinds.len() ==> collects(#[trigger] entries[i], kinds[i])
}

/// The entry that holds the collector of a service.
pub fn entry_of(kind: ServiceKind) -> (entry: Entry)
    ensures
        collects(entry, kind),
{
    match kind {
        ServiceKind::S3 => Entry { collector: Box::new(S3Collector::new()) },
        ServiceKind::EC2 => Entry { collector: Box::new(EC2Collector::new()) },
        ServiceKind::CloudWatchLogs => Entry {
            collector: Box::new(CloudWatchLogsCollector::new()),
        },
        ServiceKind::EC2Ebs => Entry { collector: Box::new(EbsCollector::new()) },
        ServiceKind::Ecr => Entry { collector: Box::new(EcrCollector::new()) },
        ServiceKind::CloudTrail => Entry { collector: Box::new(CloudTrailCollector::new()) },
        ServiceKind::SQS => Entry { collector: Box::new(SqsCollector::new()) },
        ServiceKind::OpenSearch => Entry { collector: Box::new(OpenSearchCollector::new()) },
        ServiceKind::Backup => Entry { collector: Box::new(BackupCollector::new()) },
        ServiceKind::SNS => Entry { collector: Box::new(SnsCollector::new()) },
        ServiceKind::Kinesis => Entry { collector: Box::new(KinesisCollector::new()) },
    }
}

/// The collectors of the services, one for each and in the same order.
pub fn build_collectors(services: &[ServiceKind]) -> (built: Result<Vec<Entry>, DiscoveryError>)
    ensures
        built is Ok,
        collect_each(built->Ok_0@, services@),
{
    let mut entries: Vec<Entry> = Vec::new();
    let n: usize = services.len();
    let mut i: usize = 0;
    while i < n
        invariant
            n == services@.len(),
            i <= n,
            collect_each(entries@, services@.subrange(0, i as int)),
        decreases n - i,
    {
        let entry = entry_of(services[i]);
        entries.push(entry);
        i = i + 1;
    }
    assert(services@.subrange(0, n as int) =~= services@);
    Ok(entries)
}

/// Registers the collector of each service that a comma-separated list of
/// tokens selects, behind the collectors that are registered already. A
/// token that names no service registers nothing.
pub fn build_from_tokens(registry: &mut Registry, tokens: &str)
    ensures
        final(registry).entries@.len() == old(registry).entries@.len() + kinds_of_tokens(
            tokens_of(tokens@),
        ).len(),
        final(registry).entries@.subrange(0, old(registry).entries@.len() as int) == old(
            registry,
        ).entries@,
        collect_each(
            final(registry).entries@.subrange(
                old(registry).entries@.len() as int,
                final(registry).entries@.len() as int,
            ),
            kinds_of_tokens(tokens_of(tokens@)),
        ),
        all_ascii(tokens@) ==> kinds_of_tokens(tokens_of(tokens@)) == kinds_of_tokens(
            crate::services::ascii_tokens_of(tokens@),
        ),
{
    let kinds = ServiceKind::parse_list(tokens);
    let ghost before = registry.entries@;
    let n: usize = kinds.len();
    let mut i: usize = 0;
    assert(registry.entries@.subrange(0, before.len() as int) =~= before);
    while i < n
        invariant
            n == kinds@.len(),
            i <= n,
            registry.entries@.len() == before.len() + i,
            registry.entries@.subrange(0, before.len() as int) == before,
            collect_each(
                registry.entries@.subrange(before.len() as int, before.len() + i),
                kinds@.subrange(0, i as int),
            ),
        decreases n - i,
    {
        let entry = entry_of(kinds[i]);
        let ghost held = registry.entries@;
        registry.push(entry);
        proof {
            let grown = registry.entries@;
            assert(grown.subrange(0, before.len() as int) =~= held.subrange(
                0,
                before.len() as int,
            ));
            let added = grown.subrange(before.len() as int, before.len() + i + 1);
            let earlier = held.subrange(before.len() as int, before.len() + i);
            assert forall|j: int| 0 <= j < i + 1 implies collects(
                #[trigger] added[j],
                kinds@.subrange(0, i + 1)[j],
            ) by {
                if j < i {
                    assert(added[j] == earlier[j]);
                    assert(kinds@.subrange(0, i + 1)[j] == kinds@.subrange(0, i as int)[j]);
                }
            }
        }
        i = i + 1;
    }
    assert(kinds@.subrange(0, n as int) =~= kinds@);
}

/// The records that the collectors of `kinds` return together when no
/// outside call is made: those of each service, in the order of the
/// services.
pub open spec fn mock_run(kinds: Seq<ServiceKind>, regions: Seq<Seq<char>>) -> Seq<AssetModel>
    decreases kinds.len(),
{
    if kinds.len() == 0 {
        Seq::empty()
    } else {
        mock_run(kinds.drop_last(), regions) + mock_records(kinds.last(), regions)
    }
}

/// A run of the collectors of `kinds` in which no outside call is made
/// finds the fixed records of each service, in the order of the services,
/// and no collector fails: what it finds depends on the services and the
/// scope alone.
pub proof fn lemma_mock_run_is_fixed(
    report: RunReport,
    entries: Seq<Entry>,
    kinds: Seq<ServiceKind>,
    regions: Seq<Seq<char>>,
    outcomes: Seq<Result<Vec<Asset>, DiscoveryError>>,
)
    requires
        is_run_of(report, entries, regions, true, outcomes),
        collect_each(entries, kinds),
    ensures
        models(report.assets@) == mock_run(kinds, regions),
        report.failures@.len() == 0,
{
    assert forall|i: int| 0 <= i < kinds.len() implies kind_discovers(
        kinds[i],
        regions,
        true,
        #[trigger] outcomes[i],
    ) by {
        assert(collects(entries[i], kinds[i]));
        assert(entries[i].collector.discovers(regions, true, outcomes[i]));
    }
    lemma_mock_outcomes(kinds, regions, outcomes, labels(entries));
    assert(failure_texts(report.failures@).len() == 0);
}

/// Outcomes in which each collector returned its fixed records merge into
/// the fixed records of all, and hold no failure.
proof fn lemma_mock_outcomes(
    kinds: Seq<ServiceKind>,
    regions: Seq<Seq<char>>,
    outcomes: Seq<Result<Vec<Asset>, DiscoveryError>>,
    names: Seq<Seq<char>>,
)
    requires
        outcomes.len() == kinds.len(),
        forall|i: int|
            0 <= i < kinds.len() ==> kind_discovers(kinds[i], regions, true, #[trigger] outcomes[i]),
    ensures
        models(merged(outcomes)) == mock_run(kinds, regions),
        failed(names, outcomes).len() == 0,
    decreases kinds.len(),
{
    if kinds.len() == 0 {
        assert(models(merged(outcomes)) =~= Seq::<AssetModel>::empty());
    } else {
        let last = outcomes.last();
        assert(kind_discovers(kinds.last(), regions, true, outcomes[outcomes.len() - 1]));
        assert forall|i: int| 0 <= i < kinds.drop_last().len() implies kind_discovers(
            kinds.drop_last()[i],
            regions,
            true,
            #[trigger] outcomes.drop_last()[i],
        ) by {
            assert(outcomes.drop_last()[i] == outcomes[i]);
        }
        lemma_mock_outcomes(kinds.drop_last(), regions, outcomes.drop_last(), names.drop_last());
        assert(models(merged(outcomes.drop_last()) + contribution(last)) =~= models(
            merged(outcomes.drop_last()),
        ) + models(contribution(last)));
    }
}

/// Whatever the scope, the collector of a service returns at least one
/// record when no outside call is made.
pub proof fn lemma_mock_is_not_empty(kind: ServiceKind, regions: Seq<Seq<char>>)
    ensures
        mock_records(kind, regions).len() > 0,
{
}

/// The tags among `pairs` that have both parts and a key that is not empty.
pub open spec fn keyed_tags_of(pairs: Seq<TagPair>) -> Map<Seq<char>, Seq<char>>
    decreases pairs.len(),
{
    if pairs.len() == 0 {
        Map::empty()
    } else {
        let rest = keyed_tags_of(pairs.drop_last());
        match (pairs.last().key, pairs.last().value) {
            (Some(k), Some(v)) => if k@.len() > 0 {
                rest.insert(k@, v@)
            } else {
                rest
            },
            _ => rest,
        }
    }
}

/// The tags of a resource from the tags that its service reports, without
/// those whose key is empty.
pub fn keyed_tags_from_pairs(pairs: &Vec<TagPair>) -> (tags: StrMap<String>)
    ensures
        tags_model(tags) == keyed_tags_of(pairs@),
{
    let mut tags = no_tags();
    let n: usize = pairs.len();
    let mut i: usize = 0;
    assert(pairs@.subrange(0, 0) =~= Seq::<TagPair>::empty());
    while i < n
        invariant
            n == pairs@.len(),
            i <= n,
            tags_model(tags) == keyed_tags_of(pairs@.subrange(0, i as int)),
        decreases n - i,
    {
        proof {
            let next = pairs@.subrange(0, i + 1);
            assert(next.drop_last() =~= pairs@.subrange(0, i as int));
            assert(next.last() == pairs@[i as int]);
        }
        match (&pairs[i].key, &pairs[i].value) {
            (Some(k), Some(v)) => {
                if k.as_str().unicode_len() > 0 {
                    put_tag(&mut tags, k.as_str(), v.as_str());
                }
            },
            _ => {},
        }
        i = i + 1;
    }
    assert(pairs@.subrange(0, n as int) =~= pairs@);
    tags
}

/// The metadata that a list of named texts gives: each text under its name,
/// a later one replacing an earlier one with the same name.
pub open spec fn texts_as_metadata(pairs: Seq<TagPair>) -> Map<Seq<char>, MetaModel>
    decreases pairs.len(),
{
    if pairs.len() == 0 {
        Map::empty()
    } else {
        let rest = texts_as_metadata(pairs.drop_last());
        match (pairs.last().key, pairs.last().value) {
            (Some(k), Some(v)) => with_meta(rest, k@, MetaModel::Text(v@)),
            _ => rest,
        }
    }
}

/// The metadata that a list of named texts gives.
pub fn metadata_from_pairs(pairs: &Vec<TagPair>) -> (metadata: StrMap<MetaValue>)
    ensures
        metadata_model(metadata) == texts_as_metadata(pairs@),
{
    let mut metadata = no_metadata();
    let n: usize = pairs.len();
    let mut i: usize = 0;
    assert(pairs@.subrange(0, 0) =~= Seq::<TagPair>::empty());
    while i < n
        invariant
            n == pairs@.len(),
            i <= n,
            metadata_model(metadata) == texts_as_metadata(pairs@.subrange(0, i as int)),
        decreases n - i,
    {
        proof {
            let next = pairs@.subrange(0, i + 1);
            assert(next.drop_last() =~= pairs@.subrange(0, i as int));
            assert(next.last() == pairs@[i as int]);
        }
        match (&pairs[i].key, &pairs[i].value) {
            (Some(k), Some(v)) => {
                put_text(&mut metadata, k.as_str(), v.as_str());
            },
            _ => {},
        }
        i = i + 1;
    }
    assert(pairs@.subrange(0, n as int) =~= pairs@);
    metadata
}

} // verus!
