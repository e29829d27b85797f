//! Data streams.

use crate::collector_core::{Collector, DiscoveryError};
use crate::collectors::{models, offline_error, offline_message, opt_model, tags_from_pairs, tags_of, TagPair};
use crate::record::{
    no_metadata, no_tags, put_number, put_opt_text, put_tag, put_text, with_meta, with_opt_text,
    Asset, AssetKind, AssetModel, MetaModel,
};
use crate::text::{first_or, first_text_or, join2, texts};
use vstd::prelude::*;

verus! {

/// The collector of data streams.
pub struct KinesisCollector;

/// How the capacity of a stream is managed.
#[derive(Debug, Clone, Copy, PartialEq, Eq, Structural)]
pub enum StreamMode {
    OnDemand,
    Provisioned,
    /// A mode that has no written form here.
    Unknown,
}

/// What the service reports in the summary of a stream.
#[derive(Debug)]
pub struct StreamSummary {
    pub open_shard_count: i32,
    pub stream_mode: Option<StreamMode>,
    pub stream_arn: String,
}

/// The written form of a mode, where it has one.
pub open spec fn mode_text(mode: Option<StreamMode>) -> Option<Seq<char>> {
    match mode {
        Some(StreamMode::OnDemand) => Some("ON_DEMAND"@),
        Some(StreamMode::Provisioned) => Some("PROVISIONED"@),
        _ => None,
    }
}

/// The record of the stream `name` found in `region`. A stream without a
/// summary has none.
pub open spec fn stream_record(
    region: Seq<char>,
    name: Seq<char>,
    summary: Option<StreamSummary>,
    tags: Seq<TagPair>,
) -> Option<AssetModel> {
    match summary {
        None => None,
        Some(s) => Some(
            AssetModel {
                id: s.stream_arn@,
                service: "kinesis"@,
                kind: AssetKind::ObjectStore,
                region,
                name: Some(name),
                uri: Some("kinesis://"@ + name),
                size_bytes: None,
                encrypted: None,
                kms_key_id: None,
                tags: tags_of(tags),
                metadata: with_meta(
                    with_opt_text(
                        with_meta(
                            Map::empty(),
                            "open_shard_count"@,
                            MetaModel::Number(s.open_shard_count as int),
                        ),
                        "stream_mode"@,
                        mode_text(s.stream_mode),
                    ),
                    "stream_arn"@,
                    MetaModel::Text(s.stream_arn@),
                ),
            },
        ),
    }
}

/// The records that the collector returns when no outside call is made.
pub open spec fn kinesis_mock(regions: Seq<Seq<char>>) -> Seq<AssetModel> {
    seq![
        AssetModel {
            id: "arn:aws:kinesis:ap-northeast-2:123456789012:stream/demo-stream"@,
            service: "kinesis"@,
            kind: AssetKind::ObjectStore,
            region: first_text_or(regions, "ap-northeast-2"@),
            name: Some("demo-stream"@),
            uri: Some("kinesis://demo-stream"@),
            size_bytes: None,
            encrypted: None,
            kms_key_id: None,
            tags: Map::<Seq<char>, Seq<char>>::empty().insert("env"@, "dev"@),
            metadata: Map::<Seq<char>, MetaModel>::empty().insert(
                "open_shard_count"@,
                MetaModel::Number(1),
            ).insert("stream_mode"@, MetaModel::Text("ON_DEMAND"@)).insert(
                "stream_arn"@,
                MetaModel::Text("arn:aws:kinesis:ap-northeast-2:123456789012:stream/demo-stream"@),
            ),
        },
    ]
}

impl KinesisCollector {
    /// The collector, which declares the name `kinesis`.
    pub fn new() -> (c: Self)
        ensures
            c.label() == "kinesis"@,
    {
        KinesisCollector
    }

    /// The written form of a mode.
    pub fn mode_name(mode: Option<StreamMode>) -> (name: Option<String>)
        ensures
            crate::record::opt_text(name) == mode_text(mode),
    {
        match mode {
            Some(StreamMode::OnDemand) => Some("ON_DEMAND".to_owned()),
            Some(StreamMode::Provisioned) => Some("PROVISIONED".to_owned()),
            _ => None,
        }
    }

    /// Whether the tags of a stream are asked for: only a stream with a
    /// summary is asked about.
    pub fn lists_tags(summary: &Option<StreamSummary>) -> (b: bool)
        ensures
            b == summary is Some,
    {
        summary.is_some()
    }

    /// The record of the stream `name` found in `region`, if the stream has
    /// a summary.
    pub fn stream_asset(
        region: &str,
        name: &str,
        summary: &Option<StreamSummary>,
        tags: &Vec<TagPair>,
    ) -> (asset: Option<Asset>)
        ensures
            opt_model(asset) == stream_record(region@, name@, *summary, tags@),
    {
        match summary {
            None => None,
            Some(s) => {
                let mut metadata = no_metadata();
                put_number(&mut metadata, "open_shard_count", s.open_shard_count as i64);
                let mode = KinesisCollector::mode_name(s.stream_mode);
                put_opt_text(&mut metadata, "stream_mode", &mode);
                put_text(&mut metadata, "stream_arn", s.stream_arn.as_str());
                Some(
                    Asset {
                        id: s.stream_arn.clone(),
                        service: "kinesis".to_owned(),
                        kind: AssetKind::ObjectStore,
                        region: region.to_owned(),
                        name: Some(name.to_owned()),
                        uri: Some(join2("kinesis://", name)),
                        size_bytes: None,
                        encrypted: None,
                        kms_key_id: None,
                        tags: tags_from_pairs(tags),
                        metadata,
                    },
                )
            },
        }
    }

    /// The records that the collector returns when no outside call is made.
    pub fn mock_assets(regions: &[String]) -> (assets: Vec<Asset>)
        ensures
            models(assets@) == kinesis_mock(texts(regions@)),
    {
        let mut metadata = no_metadata();
        put_number(&mut metadata, "open_shard_count", 1);
        put_text(&mut metadata, "stream_mode", "ON_DEMAND");
        put_text(
            &mut metadata,
            "stream_arn",
            "arn:aws:kinesis:ap-northeast-2:123456789012:stream/demo-stream",
        );
        let mut tags = no_tags();
        put_tag(&mut tags, "env", "dev");
        let asset = Asset {
            id: "arn:aws:kinesis:ap-northeast-2:123456789012:stream/demo-stream".to_owned(),
            service: "kinesis".to_owned(),
            kind: AssetKind::ObjectStore,
            region: first_or(regions, "ap-northeast-2"),
            name: Some("demo-stream".to_owned()),
            uri: Some("kinesis://demo-stream".to_owned()),
            size_bytes: None,
            encrypted: None,
            kms_key_id: None,
            tags,
            metadata,
        };
        let mut assets: Vec<Asset> = Vec::new();
        assets.push(asset);
        assert(models(assets@) =~= kinesis_mock(texts(regions@)));
        assets
    }
}

impl Collector for KinesisCollector {
    open spec fn label(&self) -> Seq<char> {
        "kinesis"@
    }

    open spec fn discovers(
        &self,
        regions: Seq<Seq<char>>,
        mock: bool,
        outcome: Result<Vec<Asset>, DiscoveryError>,
    ) -> bool {
        if mock {
            outcome is Ok && models(outcome->Ok_0@) == kinesis_mock(regions)
        } else {
            outcome is Err && outcome->Err_0.message@ == offline_message("kinesis"@)
        }
    }

    fn name(&self) -> (s: &'static str) {
        "kinesis"
    }

    fn discover(&self, regions: &[String], mock: bool) -> (outcome: Result<
        Vec<Asset>,
        DiscoveryError,
    >) {
        if mock {
            Ok(KinesisCollector::mock_assets(regions))
        } else {
            Err(offline_error("kinesis"))
        }
    }
}

} // verus!
