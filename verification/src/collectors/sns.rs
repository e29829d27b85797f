//! Notification topics.

use crate::collector_core::{Collector, DiscoveryError};
use crate::collectors::{
    metadata_from_pairs, models, offline_error, offline_message, tags_from_pairs, tags_of,
    texts_as_metadata, TagPair,
};
use crate::record::{
    lookup, no_metadata, no_tags, put_tag, put_text, text_at, Asset, AssetKind, AssetModel,
    MetaModel,
};
use crate::text::{first_or, first_text_or, join2, last_piece, last_piece_of, texts};
use vstd::prelude::*;

verus! {

/// The collector of notification topics.
pub struct SnsCollector;

/// The record of the topic `arn` found in `region`, from its attributes and
/// its tags. Its name is what follows the last colon of its identifier, and
/// each attribute is part of its metadata.
pub open spec fn topic_record(
    region: Seq<char>,
    arn: Seq<char>,
    attributes: Seq<TagPair>,
    tags: Seq<TagPair>,
) -> AssetModel {
    AssetModel {
        id: arn,
        service: "sns"@,
        kind: AssetKind::ObjectStore,
        region,
        name: Some(last_piece(arn, ':')),
        uri: Some("arn://"@ + arn),
        size_bytes: None,
        encrypted: None,
        kms_key_id: text_at(tags_of(attributes), "KmsMasterKeyId"@),
        tags: tags_of(tags),
        metadata: texts_as_metadata(attributes),
    }
}

/// The records that the collector returns when no outside call is made.
pub open spec fn sns_mock(regions: Seq<Seq<char>>) -> Seq<AssetModel> {
    seq![
        AssetModel {
            id: "arn:aws:sns:ap-northeast-2:123456789012:demo-topic"@,
            service: "sns"@,
            kind: AssetKind::ObjectStore,
            region: first_text_or(regions, "ap-northeast-2"@),
            name: Some("demo-topic"@),
            uri: Some("arn://arn:aws:sns:ap-northeast-2:123456789012:demo-topic"@),
            size_bytes: None,
            encrypted: None,
            kms_key_id: None,
            tags: Map::<Seq<char>, Seq<char>>::empty().insert("env"@, "dev"@),
            metadata: Map::<Seq<char>, MetaModel>::empty().insert(
                "DisplayName"@,
                MetaModel::Text("demo-topic"@),
            ),
        },
    ]
}

impl SnsCollector {
    /// The collector, which declares the name `sns`.
    pub fn new() -> (c: Self)
        ensures
            c.label() == "sns"@,
    {
        SnsCollector
    }

    /// The record of the topic `arn` found in `region`.
    pub fn topic_asset(region: &str, arn: &str, attributes: &Vec<TagPair>, tags: &Vec<TagPair>) -> (asset:
        Asset)
        ensures
            asset@ == topic_record(region@, arn@, attributes@, tags@),
    {
        let by_name = tags_from_pairs(attributes);
        let kms_key_id = match lookup(&by_name, "KmsMasterKeyId") {
            Some(k) => Some(k.clone()),
            None => None,
        };
        Asset {
            id: arn.to_owned(),
            service: "sns".to_owned(),
            kind: AssetKind::ObjectStore,
            region: region.to_owned(),
            name: Some(last_piece_of(arn, ':')),
            uri: Some(join2("arn://", arn)),
            size_bytes: None,
            encrypted: None,
            kms_key_id,
            tags: tags_from_pairs(tags),
            metadata: metadata_from_pairs(attributes),
        }
    }

    /// The records that the collector returns when no outside call is made.
    pub fn mock_assets(regions: &[String]) -> (assets: Vec<Asset>)
        ensures
            models(assets@) == sns_mock(texts(regions@)),
    {
        let mut metadata = no_metadata();
        put_text(&mut metadata, "DisplayName", "demo-topic");
        let mut tags = no_tags();
        put_tag(&mut tags, "env", "dev");
        let asset = Asset {
            id: "arn:aws:sns:ap-northeast-2:123456789012:demo-topic".to_owned(),
            service: "sns".to_owned(),
            kind: AssetKind::ObjectStore,
            region: first_or(regions, "ap-northeast-2"),
            name: Some("demo-topic".to_owned()),
            uri: Some("arn://arn:aws:sns:ap-northeast-2:123456789012:demo-topic".to_owned()),
            size_bytes: None,
            encrypted: None,
            kms_key_id: None,
            tags,
            metadata,
        };
        let mut assets: Vec<Asset> = Vec::new();
        assets.push(asset);
        assert(models(assets@) =~= sns_mock(texts(regions@)));
        assets
    }
}

impl Collector for SnsCollector {
    open spec fn label(&self) -> Seq<char> {
        "sns"@
    }

    open spec fn discovers(
        &self,
        regions: Seq<Seq<char>>,
        mock: bool,
        outcome: Result<Vec<Asset>, DiscoveryError>,
    ) -> bool {
        if mock {
            outcome is Ok && models(outcome->Ok_0@) == sns_mock(regions)
        } else {
            outcome is Err && outcome->Err_0.message@ == offline_message("sns"@)
        }
    }

    fn name(&self) -> (s: &'static str) {
        "sns"
    }

    fn discover(&self, regions: &[String], mock: bool) -> (outcome: Result<
        Vec<Asset>,
        DiscoveryError,
    >) {
        if mock {
            Ok(SnsCollector::mock_assets(regions))
        } else {
            Err(offline_error("sns"))
        }
    }
}

} // verus!
