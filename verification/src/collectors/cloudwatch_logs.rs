//! Log groups.

use crate::collector_core::{Collector, DiscoveryError};
use crate::collectors::{models, offline_error, offline_message, string_or, text_or};
use crate::record::{
    clone_opt_text, no_metadata, no_tags, opt_int32, opt_text, put_meta, put_number, put_opt_int32,
    put_opt_text, with_opt_number, with_opt_text, Asset, AssetKind, AssetModel, MetaModel,
    MetaValue,
};
use crate::text::{join4, texts};
use vstd::prelude::*;

verus! {

/// The collector of log groups.
pub struct CloudWatchLogsCollector;

/// What the service reports of a log group.
#[derive(Debug)]
pub struct LogGroupFacts {
    pub log_group_name: Option<String>,
    pub kms_key_id: Option<String>,
    pub retention_in_days: Option<i32>,
}

/// The record of a log group found in `region`. A group without a name has
/// the empty name; it counts as encrypted where it has a key.
pub open spec fn log_group_record(region: Seq<char>, f: LogGroupFacts) -> AssetModel {
    AssetModel {
        id: "arn:aws:logs:"@ + region + ":unknown:log-group:"@ + text_or(
            f.log_group_name,
            Seq::empty(),
        ) + ":*"@,
        service: "cloudwatch-logs"@,
        kind: AssetKind::ObjectStore,
        region,
        name: Some(text_or(f.log_group_name, Seq::empty())),
        uri: Some("logs://"@ + region + "/"@ + text_or(f.log_group_name, Seq::empty())),
        size_bytes: None,
        encrypted: Some(f.kms_key_id is Some),
        kms_key_id: opt_text(f.kms_key_id),
        tags: Map::empty(),
        metadata: with_opt_text(
            with_opt_number(Map::empty(), "retention_days"@, opt_int32(f.retention_in_days)),
            "kms_key_id"@,
            opt_text(f.kms_key_id),
        ),
    }
}

/// The records that the collector returns when no outside call is made.
pub open spec fn cloudwatch_logs_mock(regions: Seq<Seq<char>>) -> Seq<AssetModel> {
    seq![
        AssetModel {
            id: "arn:aws:logs:ap-northeast-2:123456789012:log-group:/aws/lambda/demo:*"@,
            service: "cloudwatch-logs"@,
            kind: AssetKind::ObjectStore,
            region: "ap-northeast-2"@,
            name: Some("/aws/lambda/demo"@),
            uri: Some("logs://ap-northeast-2//aws/lambda/demo"@),
            size_bytes: None,
            encrypted: Some(false),
            kms_key_id: None,
            tags: Map::empty(),
            metadata: Map::<Seq<char>, MetaModel>::empty().insert(
                "retention_days"@,
                MetaModel::Number(14),
            ).insert("kms_key_id"@, MetaModel::Null),
        },
    ]
}

impl CloudWatchLogsCollector {
    /// The collector, which declares the name `cloudwatch-logs`.
    pub fn new() -> (c: Self)
        ensures
            c.label() == "cloudwatch-logs"@,
    {
        CloudWatchLogsCollector
    }

    /// The record of a log group found in `region`.
    pub fn log_group_asset(region: &str, facts: &LogGroupFacts) -> (asset: Asset)
        ensures
            asset@ == log_group_record(region@, *facts),
    {
        let name = string_or(&facts.log_group_name, "");
        proof {
            reveal_strlit("");
            assert(""@ =~= Seq::<char>::empty());
        }
        let mut metadata = no_metadata();
        put_opt_int32(&mut metadata, "retention_days", facts.retention_in_days);
        put_opt_text(&mut metadata, "kms_key_id", &facts.kms_key_id);
        let mut id = join4("arn:aws:logs:", region, ":unknown:log-group:", name.as_str());
        id.append(":*");
        Asset {
            id,
            service: "cloudwatch-logs".to_owned(),
            kind: AssetKind::ObjectStore,
            region: region.to_owned(),
            uri: Some(join4("logs://", region, "/", name.as_str())),
            name: Some(name),
            size_bytes: None,
            encrypted: Some(facts.kms_key_id.is_some()),
            kms_key_id: clone_opt_text(&facts.kms_key_id),
            tags: no_tags(),
            metadata,
        }
    }

    /// The records that the collector returns when no outside call is made.
    pub fn mock_assets(regions: &[String]) -> (assets: Vec<Asset>)
        ensures
            models(assets@) == cloudwatch_logs_mock(texts(regions@)),
    {
        let mut metadata = no_metadata();
        put_number(&mut metadata, "retention_days", 14);
        put_meta(&mut metadata, "kms_key_id", MetaValue::Null);
        let asset = Asset {
            id: "arn:aws:logs:ap-northeast-2:123456789012:log-group:/aws/lambda/demo:*".to_owned(),
            service: "cloudwatch-logs".to_owned(),
            kind: AssetKind::ObjectStore,
            region: "ap-northeast-2".to_owned(),
            name: Some("/aws/lambda/demo".to_owned()),
            uri: Some("logs://ap-northeast-2//aws/lambda/demo".to_owned()),
            size_bytes: None,
            encrypted: Some(false),
            kms_key_id: None,
            tags: no_tags(),
            metadata,
        };
        let mut assets: Vec<Asset> = Vec::new();
        assets.push(asset);
        assert(models(assets@) =~= cloudwatch_logs_mock(texts(regions@)));
        assets
    }
}

impl Collector for CloudWatchLogsCollector {
    open spec fn label(&self) -> Seq<char> {
        "cloudwatch-logs"@
    }

    open spec fn discovers(
        &self,
        regions: Seq<Seq<char>>,
        mock: bool,
        outcome: Result<Vec<Asset>, DiscoveryError>,
    ) -> bool {
        if mock {
            outcome is Ok && models(outcome->Ok_0@) == cloudwatch_logs_mock(regions)
        } else {
            outcome is Err && outcome->Err_0.message@ == offline_message("cloudwatch-logs"@)
        }
    }

    fn name(&self) -> (s: &'static str) {
        "cloudwatch-logs"
    }

    fn discover(&self, regions: &[String], mock: bool) -> (outcome: Result<
        Vec<Asset>,
        DiscoveryError,
    >) {
        if mock {
            Ok(CloudWatchLogsCollector::mock_assets(regions))
        } else {
            Err(offline_error("cloudwatch-logs"))
        }
    }
}

} // verus!
