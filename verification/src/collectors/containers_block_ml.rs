//! Container registries, and collectors that are planned.

use crate::collector_core::{Collector, DiscoveryError};
use crate::collectors::{models, offline_error, offline_message, string_or, text_or};
use crate::record::{
    clone_opt_text, no_metadata, no_tags, opt_text, Asset, AssetKind, AssetModel,
};
use crate::text::{first_or, first_text_or, texts};
use vstd::prelude::*;

verus! {

/// The collector of container registries.
pub struct EcrCollector;

/// The collector of volumes and their snapshots. It collects nothing yet.
pub struct Ec2EbsCollector;

/// The collector of backup vaults and their recovery points. It collects
/// nothing yet.
pub struct AwsBackupCollector;

/// The collector of models and training jobs. It collects nothing yet.
pub struct SageMakerCollector;

/// What the service reports of a registry.
#[derive(Debug)]
pub struct RegistryFacts {
    pub repository_arn: Option<String>,
    pub repository_name: Option<String>,
    pub repository_uri: Option<String>,
}

/// The record of a registry found in `region`.
pub open spec fn registry_record(region: Seq<char>, f: RegistryFacts) -> AssetModel {
    AssetModel {
        id: text_or(f.repository_arn, Seq::empty()),
        service: "ecr"@,
        kind: AssetKind::Registry,
        region,
        name: opt_text(f.repository_name),
        uri: opt_text(f.repository_uri),
        size_bytes: None,
        encrypted: None,
        kms_key_id: None,
        tags: Map::empty(),
        metadata: Map::empty(),
    }
}

/// The records that the collector returns when no outside call is made.
pub open spec fn registry_mock(regions: Seq<Seq<char>>) -> Seq<AssetModel> {
    seq![
        AssetModel {
            id: "arn:aws:ecr:ap-northeast-2:123456789012:repository/demo-repo"@,
            service: "ecr"@,
            kind: AssetKind::Registry,
            region: first_text_or(regions, "ap-northeast-2"@),
            name: Some("demo-repo"@),
            uri: Some("123456789012.dkr.ecr.ap-northeast-2.amazonaws.com/demo-repo"@),
            size_bytes: None,
            encrypted: None,
            kms_key_id: None,
            tags: Map::empty(),
            metadata: Map::empty(),
        },
    ]
}

impl EcrCollector {
    /// The collector, which declares the name `ecr`.
    pub fn new() -> (c: Self)
        ensures
            c.label() == "ecr"@,
    {
        EcrCollector
    }

    /// The record of a registry found in `region`.
    pub fn registry_asset(region: &str, facts: &RegistryFacts) -> (asset: Asset)
        ensures
            asset@ == registry_record(region@, *facts),
    {
        proof {
            reveal_strlit("");
            assert(""@ =~= Seq::<char>::empty());
        }
        Asset {
            id: string_or(&facts.repository_arn, ""),
            service: "ecr".to_owned(),
            kind: AssetKind::Registry,
            region: region.to_owned(),
            name: clone_opt_text(&facts.repository_name),
            uri: clone_opt_text(&facts.repository_uri),
            size_bytes: None,
            encrypted: None,
            kms_key_id: None,
            tags: no_tags(),
            metadata: no_metadata(),
        }
    }

    /// The records that the collector returns when no outside call is made.
    pub fn mock_assets(regions: &[String]) -> (assets: Vec<Asset>)
        ensures
            models(assets@) == registry_mock(texts(regions@)),
    {
        let asset = Asset {
            id: "arn:aws:ecr:ap-northeast-2:123456789012:repository/demo-repo".to_owned(),
            service: "ecr".to_owned(),
            kind: AssetKind::Registry,
            region: first_or(regions, "ap-northeast-2"),
            name: Some("demo-repo".to_owned()),
            uri: Some("123456789012.dkr.ecr.ap-northeast-2.amazonaws.com/demo-repo".to_owned()),
            size_bytes: None,
            encrypted: None,
            kms_key_id: None,
            tags: no_tags(),
            metadata: no_metadata(),
        };
        let mut assets: Vec<Asset> = Vec::new();
        assets.push(asset);
        assert(models(assets@) =~= registry_mock(texts(regions@)));
        assets
    }
}

impl Collector for EcrCollector {
    open spec fn label(&self) -> Seq<char> {
        "ecr"@
    }

    open spec fn discovers(
        &self,
        regions: Seq<Seq<char>>,
        mock: bool,
        outcome: Result<Vec<Asset>, DiscoveryError>,
    ) -> bool {
        if mock {
            outcome is Ok && models(outcome->Ok_0@) == registry_mock(regions)
        } else {
            outcome is Err && outcome->Err_0.message@ == offline_message("ecr"@)
        }
    }

    fn name(&self) -> (s: &'static str) {
        "ecr"
    }

    fn discover(&self, regions: &[String], mock: bool) -> (outcome: Result<
        Vec<Asset>,
        DiscoveryError,
    >) {
        if mock {
            Ok(EcrCollector::mock_assets(regions))
        } else {
            Err(offline_error("ecr"))
        }
    }
}

} // verus!
