//! Repositories of container images.

use crate::collector_core::{Collector, DiscoveryError};
use crate::collectors::{
    models, offline_error, offline_message, opt_model, string_or, tags_from_pairs, tags_of,
    text_or, TagPair,
};
use crate::record::{
    no_metadata, no_tags, put_flag, put_opt_flag, put_tag, with_opt_flag, Asset, AssetKind,
    AssetModel, MetaModel,
};
use crate::text::{first_or, first_text_or, join4, texts};
use vstd::prelude::*;

verus! {

/// The collector of repositories of container images.
pub struct EcrCollector;

/// What the service reports of a repository.
#[derive(Debug)]
pub struct RepositoryFacts {
    pub repository_name: Option<String>,
    pub repository_arn: Option<String>,
    /// Whether images are scanned when they are pushed, where the service
    /// reports a scanning configuration.
    pub scan_on_push: Option<bool>,
}

/// The record of a repository found in `region`, with the tags that the
/// service lists for it. A repository without a name has none.
pub open spec fn repository_record(
    region: Seq<char>,
    f: RepositoryFacts,
    tags: Seq<TagPair>,
) -> Option<AssetModel> {
    match f.repository_name {
        None => None,
        Some(name) => Some(
            AssetModel {
                id: text_or(f.repository_arn, Seq::empty()),
                service: "ecr"@,
                kind: AssetKind::ObjectStore,
                region,
                name: Some(name@),
                uri: Some("ecr://"@ + region + "/"@ + name@),
                size_bytes: None,
                encrypted: None,
                kms_key_id: None,
                tags: tags_of(tags),
                metadata: with_opt_flag(Map::empty(), "scan_on_push"@, f.scan_on_push),
            },
        ),
    }
}

/// The records that the collector returns when no outside call is made.
pub open spec fn ecr_mock(regions: Seq<Seq<char>>) -> Seq<AssetModel> {
    seq![
        AssetModel {
            id: "arn:aws:ecr:ap-northeast-2:123456789012:repository/demo-repo"@,
            service: "ecr"@,
            kind: AssetKind::ObjectStore,
            region: first_text_or(regions, "ap-northeast-2"@),
            name: Some("demo-repo"@),
            uri: Some("ecr://ap-northeast-2/demo-repo"@),
            size_bytes: None,
            encrypted: None,
            kms_key_id: None,
            tags: Map::<Seq<char>, Seq<char>>::empty().insert("env"@, "dev"@),
            metadata: Map::<Seq<char>, MetaModel>::empty().insert(
                "scan_on_push"@,
                MetaModel::Flag(true),
            ),
        },
    ]
}

impl EcrCollector {
    /// The collector, which declares the name `ecr`.
    pub fn new() -> (c: Self)
        ensures
            c.label() == "ecr"@,
    {
        EcrCollector
    }

    /// Whether the tags of a repository are asked for: only a repository
    /// with a name and an identifier is asked about.
    pub fn lists_tags(facts: &RepositoryFacts) -> (b: bool)
        ensures
            b == (facts.repository_name is Some && text_or(
                facts.repository_arn,
                Seq::empty(),
            ).len() > 0),
    {
        match (&facts.repository_name, &facts.repository_arn) {
            (Some(_), Some(arn)) => arn.as_str().unicode_len() > 0,
            _ => false,
        }
    }

    /// The record of a repository found in `region`, if the repository has a
    /// name.
    pub fn repository_asset(region: &str, facts: &RepositoryFacts, tags: &Vec<TagPair>) -> (asset:
        Option<Asset>)
        ensures
            opt_model(asset) == repository_record(region@, *facts, tags@),
    {
        match &facts.repository_name {
            None => None,
            Some(name) => {
                proof {
                    reveal_strlit("");
                    assert(""@ =~= Seq::<char>::empty());
                }
                let mut metadata = no_metadata();
                put_opt_flag(&mut metadata, "scan_on_push", facts.scan_on_push);
                Some(
                    Asset {
                        id: string_or(&facts.repository_arn, ""),
                        service: "ecr".to_owned(),
                        kind: AssetKind::ObjectStore,
                        region: region.to_owned(),
                        name: Some(name.clone()),
                        uri: Some(join4("ecr://", region, "/", name.as_str())),
                        size_bytes: None,
                        encrypted: None,
                        kms_key_id: None,
                        tags: tags_from_pairs(tags),
                        metadata,
                    },
                )
            },
        }
    }

    /// The records that the collector returns when no outside call is made.
    pub fn mock_assets(regions: &[String]) -> (assets: Vec<Asset>)
        ensures
            models(assets@) == ecr_mock(texts(regions@)),
    {
        let mut metadata = no_metadata();
        put_flag(&mut metadata, "scan_on_push", true);
        let mut tags = no_tags();
        put_tag(&mut tags, "env", "dev");
        let asset = Asset {
            id: "arn:aws:ecr:ap-northeast-2:123456789012:repository/demo-repo".to_owned(),
            service: "ecr".to_owned(),
            kind: AssetKind::ObjectStore,
            region: first_or(regions, "ap-northeast-2"),
            name: Some("demo-repo".to_owned()),
            uri: Some("ecr://ap-northeast-2/demo-repo".to_owned()),
            size_bytes: None,
            encrypted: None,
            kms_key_id: None,
            tags,
            metadata,
        };
        let mut assets: Vec<Asset> = Vec::new();
        assets.push(asset);
        assert(models(assets@) =~= ecr_mock(texts(regions@)));
        assets
    }
}

impl Collector for EcrCollector {
    open spec fn label(&self) -> Seq<char> {
        "ecr"@
    }

    open spec fn discovers(
        &self,
        regions: Seq<Seq<char>>,
        mock: bool,
        outcome: Result<Vec<Asset>, DiscoveryError>,
    ) -> bool {
        if mock {
            outcome is Ok && models(outcome->Ok_0@) == ecr_mock(regions)
        } else {
            outcome is Err && outcome->Err_0.message@ == offline_message("ecr"@)
        }
    }

    fn name(&self) -> (s: &'static str) {
        "ecr"
    }

    fn discover(&self, regions: &[String], mock: bool) -> (outcome: Result<
        Vec<Asset>,
        DiscoveryError,
    >) {
        if mock {
            Ok(EcrCollector::mock_assets(regions))
        } else {
            Err(offline_error("ecr"))
        }
    }
}

} // verus!
