//! Search domains.

use crate::collector_core::{Collector, DiscoveryError};
use crate::collectors::{
    flag_or, flag_or_default, keyed_tags_from_pairs, keyed_tags_of, models, offline_error,
    offline_message, string_or, text_or, TagPair,
};
use crate::record::{
    clone_opt_text, no_metadata, no_tags, opt_text, put_opt_text, put_tag, put_text, with_meta,
    with_opt_text, Asset, AssetKind, AssetModel, MetaModel,
};
use crate::text::{first_or, first_text_or, texts};
use vstd::prelude::*;

verus! {

/// The collector of search domains.
pub struct OpenSearchCollector;

/// What the service reports of the encryption at rest of a domain.
#[derive(Debug)]
pub struct EncryptionAtRest {
    pub enabled: Option<bool>,
    pub kms_key_id: Option<String>,
}

/// What the service reports of a domain.
#[derive(Debug)]
pub struct DomainFacts {
    pub domain_name: Option<String>,
    pub arn: String,
    pub engine_version: Option<String>,
    pub endpoint: Option<String>,
    pub encryption_at_rest: Option<EncryptionAtRest>,
}

/// Whether a domain is encrypted: where the service reports options for
/// encryption at rest, whether they are enabled, which a missing setting
/// counts as; unknown otherwise.
pub open spec fn domain_encrypted(f: DomainFacts) -> Option<bool> {
    match f.encryption_at_rest {
        Some(e) => Some(flag_or(e.enabled, true)),
        None => None,
    }
}

/// The key that a domain is encrypted with.
pub open spec fn domain_key(f: DomainFacts) -> Option<Seq<char>> {
    match f.encryption_at_rest {
        Some(e) => opt_text(e.kms_key_id),
        None => None,
    }
}

/// The record of a domain found in `region`, with the tags that the service
/// lists for it.
pub open spec fn domain_record(region: Seq<char>, f: DomainFacts, tags: Seq<TagPair>) -> AssetModel {
    AssetModel {
        id: f.arn@,
        service: "opensearch"@,
        kind: AssetKind::ObjectStore,
        region,
        name: Some(text_or(f.domain_name, "unknown"@)),
        uri: opt_text(f.endpoint),
        size_bytes: None,
        encrypted: domain_encrypted(f),
        kms_key_id: domain_key(f),
        tags: keyed_tags_of(tags),
        metadata: with_opt_text(
            with_meta(
                Map::empty(),
                "engine"@,
                MetaModel::Text(text_or(f.engine_version, "unknown"@)),
            ),
            "endpoint"@,
            opt_text(f.endpoint),
        ),
    }
}

/// The records that the collector returns when no outside call is made.
pub open spec fn opensearch_mock(regions: Seq<Seq<char>>) -> Seq<AssetModel> {
    seq![
        AssetModel {
            id: "arn:aws:es:ap-northeast-2:111122223333:domain/mock-domain"@,
            service: "opensearch"@,
            kind: AssetKind::ObjectStore,
            region: first_text_or(regions, "ap-northeast-2"@),
            name: Some("mock-domain"@),
            uri: Some("https://mock-domain.ap-northeast-2.es.amazonaws.com"@),
            size_bytes: None,
            encrypted: Some(true),
            kms_key_id: None,
            tags: Map::<Seq<char>, Seq<char>>::empty().insert("env"@, "dev"@),
            metadata: Map::<Seq<char>, MetaModel>::empty().insert(
                "engine"@,
                MetaModel::Text("OpenSearch_2.13"@),
            ),
        },
    ]
}

impl OpenSearchCollector {
    /// The collector, which declares the name `opensearch`.
    pub fn new() -> (c: Self)
        ensures
            c.label() == "opensearch"@,
    {
        OpenSearchCollector
    }

    /// Whether the tags of a domain can be asked for: only a domain with an
    /// identifier can be asked about.
    pub fn lists_tags(arn: &str) -> (b: bool)
        ensures
            b == (arn@.len() > 0),
    {
        arn.unicode_len() > 0
    }

    /// The record of a domain found in `region`.
    pub fn domain_asset(region: &str, facts: &DomainFacts, tags: &Vec<TagPair>) -> (asset: Asset)
        ensures
            asset@ == domain_record(region@, *facts, tags@),
    {
        let name = string_or(&facts.domain_name, "unknown");
        let engine = string_or(&facts.engine_version, "unknown");
        let mut metadata = no_metadata();
        put_text(&mut metadata, "engine", engine.as_str());
        put_opt_text(&mut metadata, "endpoint", &facts.endpoint);
        let encrypted = match &facts.encryption_at_rest {
            Some(e) => Some(flag_or_default(e.enabled, true)),
            None => None,
        };
        let kms_key_id = match &facts.encryption_at_rest {
            Some(e) => clone_opt_text(&e.kms_key_id),
            None => None,
        };
        Asset {
            id: facts.arn.clone(),
            service: "opensearch".to_owned(),
            kind: AssetKind::ObjectStore,
            region: region.to_owned(),
            name: Some(name),
            uri: clone_opt_text(&facts.endpoint),
            size_bytes: None,
            encrypted,
            kms_key_id,
            tags: keyed_tags_from_pairs(tags),
            metadata,
        }
    }

    /// The records that the collector returns when no outside call is made.
    pub fn mock_assets(regions: &[String]) -> (assets: Vec<Asset>)
        ensures
            models(assets@) == opensearch_mock(texts(regions@)),
    {
        let mut metadata = no_metadata();
        put_text(&mut metadata, "engine", "OpenSearch_2.13");
        let mut tags = no_tags();
        put_tag(&mut tags, "env", "dev");
        let asset = Asset {
            id: "arn:aws:es:ap-northeast-2:111122223333:domain/mock-domain".to_owned(),
            service: "opensearch".to_owned(),
            kind: AssetKind::ObjectStore,
            region: first_or(regions, "ap-northeast-2"),
            name: Some("mock-domain".to_owned()),
            uri: Some("https://mock-domain.ap-northeast-2.es.amazonaws.com".to_owned()),
            size_bytes: None,
            encrypted: Some(true),
            kms_key_id: None,
            tags,
            metadata,
        };
        let mut assets: Vec<Asset> = Vec::new();
        assets.push(asset);
        assert(models(assets@) =~= opensearch_mock(texts(regions@)));
        assets
    }
}

impl Collector for OpenSearchCollector {
    open spec fn label(&self) -> Seq<char> {
        "opensearch"@
    }

    open spec fn discovers(
        &self,
        regions: Seq<Seq<char>>,
        mock: bool,
        outcome: Result<Vec<Asset>, DiscoveryError>,
    ) -> bool {
        if mock {
            outcome is Ok && models(outcome->Ok_0@) == opensearch_mock(regions)
        } else {
            outcome is Err && outcome->Err_0.message@ == offline_message("opensearch"@)
        }
    }

    fn name(&self) -> (s: &'static str) {
        "opensearch"
    }

    fn discover(&self, regions: &[String], mock: bool) -> (outcome: Result<
        Vec<Asset>,
        DiscoveryError,
    >) {
        if mock {
            Ok(OpenSearchCollector::mock_assets(regions))
        } else {
            Err(offline_error("opensearch"))
        }
    }
}

} // verus!
