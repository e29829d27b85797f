//! Audit trails.

use crate::collector_core::{Collector, DiscoveryError};
use crate::collectors::{
    flag_or, flag_or_default, models, nonempty_or, offline_error, offline_message, string_or,
    text_or,
};
use crate::record::{
    clone_opt_text, no_metadata, no_tags, opt_text, put_flag, put_opt_flag, put_opt_text,
    put_text, with_meta, with_opt_flag, with_opt_text, Asset, AssetKind, AssetModel, MetaModel,
};
use crate::text::{first_or, first_text_or, join2, join4, texts};
use vstd::prelude::*;

verus! {

/// The collector of audit trails.
pub struct CloudTrailCollector;

/// What the service reports of a trail.
#[derive(Debug)]
pub struct TrailFacts {
    pub name: Option<String>,
    pub trail_arn: Option<String>,
    pub s3_bucket_name: Option<String>,
    pub s3_key_prefix: Option<String>,
    pub cloud_watch_logs_log_group_arn: Option<String>,
    pub cloud_watch_logs_role_arn: Option<String>,
    pub kms_key_id: Option<String>,
    pub is_multi_region_trail: Option<bool>,
    pub log_file_validation_enabled: Option<bool>,
    pub is_organization_trail: Option<bool>,
    pub home_region: Option<String>,
}

/// Whether a trail has insight selectors, from their number. Unknown where
/// the number is.
pub open spec fn insight_flag(selectors: Option<usize>) -> Option<bool> {
    match selectors {
        Some(n) => Some(n > 0),
        None => None,
    }
}

/// The metadata of a trail found in `region`.
pub open spec fn trail_metadata(region: Seq<char>, f: TrailFacts, insight: Option<bool>) -> Map<
    Seq<char>,
    MetaModel,
> {
    let m = with_opt_text(Map::empty(), "s3_bucket"@, opt_text(f.s3_bucket_name));
    let m = with_opt_text(m, "s3_prefix"@, opt_text(f.s3_key_prefix));
    let m = with_opt_text(m, "cw_logs_group_arn"@, opt_text(f.cloud_watch_logs_log_group_arn));
    let m = with_opt_text(m, "cw_logs_role_arn"@, opt_text(f.cloud_watch_logs_role_arn));
    let m = with_meta(
        m,
        "is_multi_region_trail"@,
        MetaModel::Flag(flag_or(f.is_multi_region_trail, false)),
    );
    let m = with_meta(
        m,
        "log_file_validation"@,
        MetaModel::Flag(flag_or(f.log_file_validation_enabled, true)),
    );
    let m = with_meta(
        m,
        "is_organization_trail"@,
        MetaModel::Flag(flag_or(f.is_organization_trail, false)),
    );
    let m = with_meta(m, "home_region"@, MetaModel::Text(text_or(f.home_region, region)));
    with_opt_flag(m, "has_insight_selectors"@, insight)
}

/// The record of a trail found in `region`. A trail counts as encrypted
/// where it has a key; otherwise that is unknown.
pub open spec fn trail_record(region: Seq<char>, f: TrailFacts, insight: Option<bool>) -> AssetModel {
    AssetModel {
        id: nonempty_or(
            text_or(f.trail_arn, Seq::empty()),
            "cloudtrail:"@ + region + ":"@ + text_or(f.name, "unknown"@),
        ),
        service: "cloudtrail"@,
        kind: AssetKind::ObjectStore,
        region,
        name: Some(text_or(f.name, "unknown"@)),
        uri: Some("cloudtrail://"@ + text_or(f.trail_arn, "unknown"@)),
        size_bytes: None,
        encrypted: match f.kms_key_id {
            Some(_) => Some(true),
            None => None,
        },
        kms_key_id: opt_text(f.kms_key_id),
        tags: Map::empty(),
        metadata: trail_metadata(region, f, insight),
    }
}

/// The records that the collector returns when no outside call is made.
pub open spec fn cloudtrail_mock(regions: Seq<Seq<char>>) -> Seq<AssetModel> {
    seq![
        AssetModel {
            id: "arn:aws:cloudtrail:ap-northeast-2:123456789012:trail/OrgTrailMock"@,
            service: "cloudtrail"@,
            kind: AssetKind::ObjectStore,
            region: first_text_or(regions, "ap-northeast-2"@),
            name: Some("OrgTrailMock"@),
            uri: Some("cloudtrail://OrgTrailMock"@),
            size_bytes: None,
            encrypted: Some(true),
            kms_key_id: Some("arn:aws:kms:ap-northeast-2:123456789012:key/mock-kms"@),
            tags: Map::empty(),
            metadata: Map::<Seq<char>, MetaModel>::empty().insert(
                "is_multi_region_trail"@,
                MetaModel::Flag(true),
            ).insert("has_insight_selectors"@, MetaModel::Flag(true)).insert(
                "s3_bucket"@,
                MetaModel::Text("my-org-cloudtrail-logs"@),
            ),
        },
    ]
}

impl CloudTrailCollector {
    /// The collector, which declares the name `cloudtrail`.
    pub fn new() -> (c: Self)
        ensures
            c.label() == "cloudtrail"@,
    {
        CloudTrailCollector
    }

    /// Whether the insight selectors of a trail can be asked for: only a
    /// trail with a name can be asked about.
    pub fn asks_insight(facts: &TrailFacts) -> (b: bool)
        ensures
            b == facts.name is Some,
    {
        facts.name.is_some()
    }

    /// Whether a trail has insight selectors, from their number.
    pub fn has_insight(selectors: Option<usize>) -> (flag: Option<bool>)
        ensures
            flag == insight_flag(selectors),
    {
        match selectors {
            Some(n) => Some(n > 0),
            None => None,
        }
    }

    /// The record of a trail found in `region`.
    pub fn trail_asset(region: &str, facts: &TrailFacts, insight: Option<bool>) -> (asset: Asset)
        ensures
            asset@ == trail_record(region@, *facts, insight),
    {
        let name = string_or(&facts.name, "unknown");
        let arn = string_or(&facts.trail_arn, "");
        proof {
            reveal_strlit("");
            assert(""@ =~= Seq::<char>::empty());
        }
        let mut metadata = no_metadata();
        put_opt_text(&mut metadata, "s3_bucket", &facts.s3_bucket_name);
        put_opt_text(&mut metadata, "s3_prefix", &facts.s3_key_prefix);
        put_opt_text(&mut metadata, "cw_logs_group_arn", &facts.cloud_watch_logs_log_group_arn);
        put_opt_text(&mut metadata, "cw_logs_role_arn", &facts.cloud_watch_logs_role_arn);
        put_flag(
            &mut metadata,
            "is_multi_region_trail",
            flag_or_default(facts.is_multi_region_trail, false),
        );
        put_flag(
            &mut metadata,
            "log_file_validation",
            flag_or_default(facts.log_file_validation_enabled, true),
        );
        put_flag(
            &mut metadata,
            "is_organization_trail",
            flag_or_default(facts.is_organization_trail, false),
        );
        let home = string_or(&facts.home_region, region);
        put_text(&mut metadata, "home_region", home.as_str());
        put_opt_flag(&mut metadata, "has_insight_selectors", insight);
        let id = if arn.as_str().unicode_len() > 0 {
            arn
        } else {
            join4("cloudtrail:", region, ":", name.as_str())
        };
        let shown = string_or(&facts.trail_arn, "unknown");
        Asset {
            id,
            service: "cloudtrail".to_owned(),
            kind: AssetKind::ObjectStore,
            region: region.to_owned(),
            name: Some(name),
            uri: Some(join2("cloudtrail://", shown.as_str())),
            size_bytes: None,
            encrypted: match &facts.kms_key_id {
                Some(_) => Some(true),
                None => None,
            },
            kms_key_id: clone_opt_text(&facts.kms_key_id),
            tags: no_tags(),
            metadata,
        }
    }

    /// The records that the collector returns when no outside call is made.
    pub fn mock_assets(regions: &[String]) -> (assets: Vec<Asset>)
        ensures
            models(assets@) == cloudtrail_mock(texts(regions@)),
    {
        let mut metadata = no_metadata();
        put_flag(&mut metadata, "is_multi_region_trail", true);
        put_flag(&mut metadata, "has_insight_selectors", true);
        put_text(&mut metadata, "s3_bucket", "my-org-cloudtrail-logs");
        let asset = Asset {
            id: "arn:aws:cloudtrail:ap-northeast-2:123456789012:trail/OrgTrailMock".to_owned(),
            service: "cloudtrail".to_owned(),
            kind: AssetKind::ObjectStore,
            region: first_or(regions, "ap-northeast-2"),
            name: Some("OrgTrailMock".to_owned()),
            uri: Some("cloudtrail://OrgTrailMock".to_owned()),
            size_bytes: None,
            encrypted: Some(true),
            kms_key_id: Some("arn:aws:kms:ap-northeast-2:123456789012:key/mock-kms".to_owned()),
            tags: no_tags(),
            metadata,
        };
        let mut assets: Vec<Asset> = Vec::new();
        assets.push(asset);
        assert(models(assets@) =~= cloudtrail_mock(texts(regions@)));
        assets
    }
}

impl Collector for CloudTrailCollector {
    open spec fn label(&self) -> Seq<char> {
        "cloudtrail"@
    }

    open spec fn discovers(
        &self,
        regions: Seq<Seq<char>>,
        mock: bool,
        outcome: Result<Vec<Asset>, DiscoveryError>,
    ) -> bool {
        if mock {
            outcome is Ok && models(outcome->Ok_0@) == cloudtrail_mock(regions)
        } else {
            outcome is Err && outcome->Err_0.message@ == offline_message("cloudtrail"@)
        }
    }

    fn name(&self) -> (s: &'static str) {
        "cloudtrail"
    }

    fn discover(&self, regions: &[String], mock: bool) -> (outcome: Result<
        Vec<Asset>,
        DiscoveryError,
    >) {
        if mock {
            Ok(CloudTrailCollector::mock_assets(regions))
        } else {
            Err(offline_error("cloudtrail"))
        }
    }
}

} // verus!
