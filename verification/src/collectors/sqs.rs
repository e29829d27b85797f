//! Message queues.

use crate::collector_core::{Collector, DiscoveryError};
use crate::collectors::{models, offline_error, offline_message};
use crate::numbers::{parse_bool, parse_i64, parsed_bool, parsed_i64};
use crate::record::{
    lookup, no_metadata, no_tags, opt_int64, put_flag, put_number, put_opt_int64, put_tag,
    tags_model, text_at, with_meta, with_opt_number, Asset, AssetKind, AssetModel, MetaModel,
};
use crate::strmap::StrMap;
use crate::text::{first_or, first_text_or, join4, last_piece, last_piece_of, texts};
use vstd::prelude::*;

verus! {

/// The collector of message queues.
pub struct SqsCollector;

/// The flag that an attribute writes, or no where the attribute is missing
/// or writes no flag.
pub open spec fn flag_attribute(attrs: Map<Seq<char>, Seq<char>>, key: Seq<char>) -> bool {
    match text_at(attrs, key) {
        Some(t) => match parsed_bool(t) {
            Some(b) => b,
            None => false,
        },
        None => false,
    }
}

/// The number that an attribute writes, where the attribute is present and
/// writes one.
pub open spec fn number_attribute(attrs: Map<Seq<char>, Seq<char>>, key: Seq<char>) -> Option<
    i64,
> {
    match text_at(attrs, key) {
        Some(t) => parsed_i64(t),
        None => None,
    }
}

/// The identifier of a queue: the one that its attributes give, or one made
/// of its region and name.
pub open spec fn queue_id(
    attrs: Map<Seq<char>, Seq<char>>,
    region: Seq<char>,
    name: Seq<char>,
) -> Seq<char> {
    match text_at(attrs, "QueueArn"@) {
        Some(arn) => arn,
        None => "sqs:"@ + region + ":"@ + name,
    }
}

/// The metadata of a queue.
pub open spec fn queue_metadata(attrs: Map<Seq<char>, Seq<char>>) -> Map<Seq<char>, MetaModel> {
    let m = with_meta(Map::empty(), "fifo"@, MetaModel::Flag(flag_attribute(attrs, "FifoQueue"@)));
    let m = with_opt_number(
        m,
        "visibility_timeout_seconds"@,
        opt_int64(number_attribute(attrs, "VisibilityTimeout"@)),
    );
    let m = with_opt_number(
        m,
        "delay_seconds"@,
        opt_int64(number_attribute(attrs, "DelaySeconds"@)),
    );
    with_opt_number(
        m,
        "message_retention_seconds"@,
        opt_int64(number_attribute(attrs, "MessageRetentionPeriod"@)),
    )
}

/// The record of the queue at `url`. Its name is what follows the last
/// stroke of the address; it counts as encrypted where it has a key or the
/// service encrypts it.
pub open spec fn queue_record(
    region: Seq<char>,
    url: Seq<char>,
    attrs: Map<Seq<char>, Seq<char>>,
    tags: Map<Seq<char>, Seq<char>>,
) -> AssetModel {
    AssetModel {
        id: queue_id(attrs, region, last_piece(url, '/')),
        service: "sqs"@,
        kind: AssetKind::MessageQueue,
        region,
        name: Some(last_piece(url, '/')),
        uri: Some(url),
        size_bytes: None,
        encrypted: Some(
            text_at(attrs, "KmsMasterKeyId"@) is Some || flag_attribute(
                attrs,
                "SqsManagedSseEnabled"@,
            ),
        ),
        kms_key_id: text_at(attrs, "KmsMasterKeyId"@),
        tags,
        metadata: queue_metadata(attrs),
    }
}

/// The records that the collector returns when no outside call is made.
pub open spec fn sqs_mock(regions: Seq<Seq<char>>) -> Seq<AssetModel> {
    seq![
        AssetModel {
            id: "arn:aws:sqs:ap-northeast-2:123456789012:demo-queue"@,
            service: "sqs"@,
            kind: AssetKind::MessageQueue,
            region: first_text_or(regions, "ap-northeast-2"@),
            name: Some("demo-queue"@),
            uri: Some("https://sqs.ap-northeast-2.amazonaws.com/123456789012/demo-queue"@),
            size_bytes: None,
            encrypted: Some(true),
            kms_key_id: Some("arn:aws:kms:ap-northeast-2:123456789012:key/mock"@),
            tags: Map::<Seq<char>, Seq<char>>::empty().insert("env"@, "dev"@),
            metadata: Map::<Seq<char>, MetaModel>::empty().insert(
                "fifo"@,
                MetaModel::Flag(false),
            ).insert("visibility_timeout_seconds"@, MetaModel::Number(30)),
        },
    ]
}

impl SqsCollector {
    /// The collector, which declares the name `sqs`.
    pub fn new() -> (c: Self)
        ensures
            c.label() == "sqs"@,
    {
        SqsCollector
    }

    /// The flag that an attribute writes.
    pub fn flag_of(attrs: &StrMap<String>, key: &str) -> (b: bool)
        ensures
            b == flag_attribute(tags_model(*attrs), key@),
    {
        match lookup(attrs, key) {
            Some(t) => match parse_bool(t.as_str()) {
                Some(b) => b,
                None => false,
            },
            None => false,
        }
    }

    /// The number that an attribute writes.
    pub fn number_of(attrs: &StrMap<String>, key: &str) -> (n: Option<i64>)
        ensures
            n == number_attribute(tags_model(*attrs), key@),
    {
        match lookup(attrs, key) {
            Some(t) => parse_i64(t.as_str()),
            None => None,
        }
    }

    /// The record of the queue at `url` in `region`, from its attributes and
    /// its tags.
    pub fn queue_asset(region: &str, url: &str, attrs: &StrMap<String>, tags: StrMap<String>) -> (asset:
        Asset)
        ensures
            asset@ == queue_record(region@, url@, tags_model(*attrs), tags_model(tags)),
    {
        let name = last_piece_of(url, '/');
        let kms_key_id = match lookup(attrs, "KmsMasterKeyId") {
            Some(k) => Some(k.clone()),
            None => None,
        };
        let managed = SqsCollector::flag_of(attrs, "SqsManagedSseEnabled");
        let encrypted = Some(kms_key_id.is_some() || managed);
        let id = match lookup(attrs, "QueueArn") {
            Some(arn) => arn.clone(),
            None => join4("sqs:", region, ":", name.as_str()),
        };
        let mut metadata = no_metadata();
        put_flag(&mut metadata, "fifo", SqsCollector::flag_of(attrs, "FifoQueue"));
        put_opt_int64(
            &mut metadata,
            "visibility_timeout_seconds",
            SqsCollector::number_of(attrs, "VisibilityTimeout"),
        );
        put_opt_int64(&mut metadata, "delay_seconds", SqsCollector::number_of(attrs, "DelaySeconds"));
        put_opt_int64(
            &mut metadata,
            "message_retention_seconds",
            SqsCollector::number_of(attrs, "MessageRetentionPeriod"),
        );
        Asset {
            id,
            service: "sqs".to_owned(),
            kind: AssetKind::MessageQueue,
            region: region.to_owned(),
            name: Some(name),
            uri: Some(url.to_owned()),
            size_bytes: None,
            encrypted,
            kms_key_id,
            tags,
            metadata,
        }
    }

    /// The records that the collector returns when no outside call is made.
    pub fn mock_assets(regions: &[String]) -> (assets: Vec<Asset>)
        ensures
            models(assets@) == sqs_mock(texts(regions@)),
    {
        let mut metadata = no_metadata();
        put_flag(&mut metadata, "fifo", false);
        put_number(&mut metadata, "visibility_timeout_seconds", 30);
        let mut tags = no_tags();
        put_tag(&mut tags, "env", "dev");
        let asset = Asset {
            id: "arn:aws:sqs:ap-northeast-2:123456789012:demo-queue".to_owned(),
            service: "sqs".to_owned(),
            kind: AssetKind::MessageQueue,
            region: first_or(regions, "ap-northeast-2"),
            name: Some("demo-queue".to_owned()),
            uri: Some(
                "https://sqs.ap-northeast-2.amazonaws.com/123456789012/demo-queue".to_owned(),
            ),
            size_bytes: None,
            encrypted: Some(true),
            kms_key_id: Some("arn:aws:kms:ap-northeast-2:123456789012:key/mock".to_owned()),
            tags,
            metadata,
        };
        let mut assets: Vec<Asset> = Vec::new();
        assets.push(asset);
        assert(models(assets@) =~= sqs_mock(texts(regions@)));
        assets
    }
}

impl Collector for SqsCollector {
    open spec fn label(&self) -> Seq<char> {
        "sqs"@
    }

    open spec fn discovers(
        &self,
        regions: Seq<Seq<char>>,
        mock: bool,
        outcome: Result<Vec<Asset>, DiscoveryError>,
    ) -> bool {
        if mock {
            outcome is Ok && models(outcome->Ok_0@) == sqs_mock(regions)
        } else {
            outcome is Err && outcome->Err_0.message@ == offline_message("sqs"@)
        }
    }

    fn name(&self) -> (s: &'static str) {
        "sqs"
    }

    fn discover(&self, regions: &[String], mock: bool) -> (outcome: Result<
        Vec<Asset>,
        DiscoveryError,
    >) {
        if mock {
            Ok(SqsCollector::mock_assets(regions))
        } else {
            Err(offline_error("sqs"))
        }
    }
}

} // verus!
