//! Tables of the key-value store.

use crate::collector_core::{Collector, DiscoveryError};
use crate::collectors::{
    models, offline_error, offline_message, string_or, tags_from_pairs, tags_of, text_or, TagPair,
};
use crate::record::{
    clone_opt_text, no_metadata, no_tags, opt_text, put_opt_text, put_tag, put_text,
    with_opt_text, Asset, AssetKind, AssetModel, MetaModel,
};
use crate::text::{first_or, first_text_or, join4, same_text, texts};
use vstd::prelude::*;

verus! {

/// The collector of tables.
pub struct DynamodbCollector;

/// What the service reports of the encryption of a table.
#[derive(Debug)]
pub struct SseFacts {
    pub status: Option<String>,
    pub kms_master_key_arn: Option<String>,
    pub sse_type: Option<String>,
}

/// What the service reports of a table.
#[derive(Debug)]
pub struct TableFacts {
    pub table_arn: Option<String>,
    pub billing_mode: Option<String>,
    pub pitr_status: Option<String>,
    pub sse: Option<SseFacts>,
}

/// The status of the encryption of a table, where the service reports one.
pub open spec fn sse_status(f: TableFacts) -> Option<Seq<char>> {
    match f.sse {
        Some(s) => opt_text(s.status),
        None => None,
    }
}

/// The key of the encryption of a table, where the service reports one.
pub open spec fn sse_key(f: TableFacts) -> Option<Seq<char>> {
    match f.sse {
        Some(s) => opt_text(s.kms_master_key_arn),
        None => None,
    }
}

/// The type of the encryption of a table, where the service reports one.
pub open spec fn sse_type(f: TableFacts) -> Option<Seq<char>> {
    match f.sse {
        Some(s) => opt_text(s.sse_type),
        None => None,
    }
}

/// Whether a table is encrypted: whether the status of its encryption is
/// `ENABLED`, and unknown where the service reports no status.
pub open spec fn table_encrypted(f: TableFacts) -> Option<bool> {
    match sse_status(f) {
        Some(s) => Some(s == "ENABLED"@),
        None => None,
    }
}

/// The metadata of a table.
pub open spec fn table_metadata(f: TableFacts) -> Map<Seq<char>, MetaModel> {
    let m = with_opt_text(Map::empty(), "billing_mode"@, opt_text(f.billing_mode));
    let m = with_opt_text(m, "pitr_status"@, opt_text(f.pitr_status));
    let m = with_opt_text(m, "sse_status"@, sse_status(f));
    let m = with_opt_text(m, "kms_key_arn"@, sse_key(f));
    with_opt_text(m, "sse_type"@, sse_type(f))
}

/// The record of the table `name` found in `region`, with the tags that the
/// service lists for it.
pub open spec fn table_record(
    region: Seq<char>,
    name: Seq<char>,
    f: TableFacts,
    tags: Seq<TagPair>,
) -> AssetModel {
    AssetModel {
        id: text_or(f.table_arn, name),
        service: "dynamodb"@,
        kind: AssetKind::ObjectStore,
        region,
        name: Some(name),
        uri: Some("dynamodb://"@ + region + "/"@ + name),
        size_bytes: None,
        encrypted: table_encrypted(f),
        kms_key_id: sse_key(f),
        tags: tags_of(tags),
        metadata: table_metadata(f),
    }
}

/// The records that the collector returns when no outside call is made.
pub open spec fn dynamodb_mock(regions: Seq<Seq<char>>) -> Seq<AssetModel> {
    seq![
        AssetModel {
            id: "arn:aws:dynamodb:ap-northeast-2:123456789012:table/demo-table"@,
            service: "dynamodb"@,
            kind: AssetKind::ObjectStore,
            region: first_text_or(regions, "ap-northeast-2"@),
            name: Some("demo-table"@),
            uri: Some("dynamodb://ap-northeast-2/demo-table"@),
            size_bytes: None,
            encrypted: Some(true),
            kms_key_id: None,
            tags: Map::<Seq<char>, Seq<char>>::empty().insert("env"@, "dev"@),
            metadata: Map::<Seq<char>, MetaModel>::empty().insert(
                "billing_mode"@,
                MetaModel::Text("PAY_PER_REQUEST"@),
            ).insert("sse_status"@, MetaModel::Text("ENABLED"@)),
        },
    ]
}

impl DynamodbCollector {
    /// The collector, which declares the name `dynamodb`.
    pub fn new() -> (c: Self)
        ensures
            c.label() == "dynamodb"@,
    {
        DynamodbCollector
    }

    /// The record of the table `name` found in `region`.
    pub fn table_asset(region: &str, name: &str, facts: &TableFacts, tags: &Vec<TagPair>) -> (asset:
        Asset)
        ensures
            asset@ == table_record(region@, name@, *facts, tags@),
    {
        let status = match &facts.sse {
            Some(s) => clone_opt_text(&s.status),
            None => None,
        };
        let key = match &facts.sse {
            Some(s) => clone_opt_text(&s.kms_master_key_arn),
            None => None,
        };
        let kind = match &facts.sse {
            Some(s) => clone_opt_text(&s.sse_type),
            None => None,
        };
        let mut metadata = no_metadata();
        put_opt_text(&mut metadata, "billing_mode", &facts.billing_mode);
        put_opt_text(&mut metadata, "pitr_status", &facts.pitr_status);
        put_opt_text(&mut metadata, "sse_status", &status);
        put_opt_text(&mut metadata, "kms_key_arn", &key);
        put_opt_text(&mut metadata, "sse_type", &kind);
        let encrypted = match &status {
            Some(s) => Some(same_text(s.as_str(), "ENABLED")),
            None => None,
        };
        Asset {
            id: string_or(&facts.table_arn, name),
            service: "dynamodb".to_owned(),
            kind: AssetKind::ObjectStore,
            region: region.to_owned(),
            name: Some(name.to_owned()),
            uri: Some(join4("dynamodb://", region, "/", name)),
            size_bytes: None,
            encrypted,
            kms_key_id: key,
            tags: tags_from_pairs(tags),
            metadata,
        }
    }

    /// The records that the collector returns when no outside call is made.
    pub fn mock_assets(regions: &[String]) -> (assets: Vec<Asset>)
        ensures
            models(assets@) == dynamodb_mock(texts(regions@)),
    {
        let mut metadata = no_metadata();
        put_text(&mut metadata, "billing_mode", "PAY_PER_REQUEST");
        put_text(&mut metadata, "sse_status", "ENABLED");
        let mut tags = no_tags();
        put_tag(&mut tags, "env", "dev");
        let asset = Asset {
            id: "arn:aws:dynamodb:ap-northeast-2:123456789012:table/demo-table".to_owned(),
            service: "dynamodb".to_owned(),
            kind: AssetKind::ObjectStore,
            region: first_or(regions, "ap-northeast-2"),
            name: Some("demo-table".to_owned()),
            uri: Some("dynamodb://ap-northeast-2/demo-table".to_owned()),
            size_bytes: None,
            encrypted: Some(true),
            kms_key_id: None,
            tags,
            metadata,
        };
        let mut assets: Vec<Asset> = Vec::new();
        assets.push(asset);
        assert(models(assets@) =~= dynamodb_mock(texts(regions@)));
        assets
    }
}

impl Collector for DynamodbCollector {
    open spec fn label(&self) -> Seq<char> {
        "dynamodb"@
    }

    open spec fn discovers(
        &self,
        regions: Seq<Seq<char>>,
        mock: bool,
        outcome: Result<Vec<Asset>, DiscoveryError>,
    ) -> bool {
        if mock {
            outcome is Ok && models(outcome->Ok_0@) == dynamodb_mock(regions)
        } else {
            outcome is Err && outcome->Err_0.message@ == offline_message("dynamodb"@)
        }
    }

    fn name(&self) -> (s: &'static str) {
        "dynamodb"
    }

    fn discover(&self, regions: &[String], mock: bool) -> (outcome: Result<
        Vec<Asset>,
        DiscoveryError,
    >) {
        if mock {
            Ok(DynamodbCollector::mock_assets(regions))
        } else {
            Err(offline_error("dynamodb"))
        }
    }
}

} // verus!
