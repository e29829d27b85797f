//! Queues by their address, and collectors that are planned.

use crate::collector_core::{Collector, DiscoveryError};
use crate::collectors::{models, offline_error, offline_message};
use crate::record::{no_metadata, no_tags, Asset, AssetKind, AssetModel};
use crate::text::{first_or, first_text_or, last_piece, last_piece_of, texts};
use vstd::prelude::*;

verus! {

/// The collector of queues by their address.
pub struct SqsCollector;

/// The collector of topics. It collects nothing yet.
pub struct SnsCollector;

/// The collector of event buses and rules. It collects nothing yet.
pub struct EventBridgeCollector;

/// The collector of message brokers. It collects nothing yet.
pub struct MqCollector;

/// The record of the queue at `url` found in `region`. The address is its
/// identifier, and what follows the last stroke of the address its name.
pub open spec fn queue_by_url(region: Seq<char>, url: Seq<char>) -> AssetModel {
    AssetModel {
        id: url,
        service: "sqs"@,
        kind: AssetKind::MessageQueue,
        region,
        name: Some(last_piece(url, '/')),
        uri: Some(url),
        size_bytes: None,
        encrypted: None,
        kms_key_id: None,
        tags: Map::empty(),
        metadata: Map::empty(),
    }
}

/// The records that the collector returns when no outside call is made.
pub open spec fn queue_mock(regions: Seq<Seq<char>>) -> Seq<AssetModel> {
    seq![
        queue_by_url(
            first_text_or(regions, "ap-northeast-2"@),
            "https://sqs.ap-northeast-2.amazonaws.com/123456789012/demo-queue"@,
        ),
    ]
}

impl SqsCollector {
    /// The collector, which declares the name `sqs`.
    pub fn new() -> (c: Self)
        ensures
            c.label() == "sqs"@,
    {
        SqsCollector
    }

    /// The record of the queue at `url` found in `region`.
    pub fn queue_asset(region: &str, url: &str) -> (asset: Asset)
        ensures
            asset@ == queue_by_url(region@, url@),
    {
        Asset {
            id: url.to_owned(),
            service: "sqs".to_owned(),
            kind: AssetKind::MessageQueue,
            region: region.to_owned(),
            name: Some(last_piece_of(url, '/')),
            uri: Some(url.to_owned()),
            size_bytes: None,
            encrypted: None,
            kms_key_id: None,
            tags: no_tags(),
            metadata: no_metadata(),
        }
    }

    /// The records that the collector returns when no outside call is made.
    pub fn mock_assets(regions: &[String]) -> (assets: Vec<Asset>)
        ensures
            models(assets@) == queue_mock(texts(regions@)),
    {
        let region = first_or(regions, "ap-northeast-2");
        let asset = SqsCollector::queue_asset(
            region.as_str(),
            "https://sqs.ap-northeast-2.amazonaws.com/123456789012/demo-queue",
        );
        let mut assets: Vec<Asset> = Vec::new();
        assets.push(asset);
        assert(models(assets@) =~= queue_mock(texts(regions@)));
        assets
    }
}

impl Collector for SqsCollector {
    open spec fn label(&self) -> Seq<char> {
        "sqs"@
    }

    open spec fn discovers(
        &self,
        regions: Seq<Seq<char>>,
        mock: bool,
        outcome: Result<Vec<Asset>, DiscoveryError>,
    ) -> bool {
        if mock {
            outcome is Ok && models(outcome->Ok_0@) == queue_mock(regions)
        } else {
            outcome is Err && outcome->Err_0.message@ == offline_message("sqs"@)
        }
    }

    fn name(&self) -> (s: &'static str) {
        "sqs"
    }

    fn discover(&self, regions: &[String], mock: bool) -> (outcome: Result<
        Vec<Asset>,
        DiscoveryError,
    >) {
        if mock {
            Ok(SqsCollector::mock_assets(regions))
        } else {
            Err(offline_error("sqs"))
        }
    }
}

} // verus!
