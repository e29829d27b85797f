//! Relational database instances.

use crate::collector_core::{Collector, DiscoveryError};
use crate::collectors::{
    models, nonempty_or, offline_error, offline_message, string_or, text_or,
};
use crate::record::{
    clone_opt_text, no_metadata, no_tags, opt_int32, opt_text, put_opt_int32, put_opt_text,
    put_text, with_meta, with_opt_number, with_opt_text, Asset, AssetKind, AssetModel, MetaModel,
};
use crate::text::{first_or, first_text_or, join4, texts};
use vstd::prelude::*;

verus! {

/// The collector of relational database instances.
pub struct RdsCollector;

/// Where a database instance is reached.
#[derive(Debug)]
pub struct EndpointFacts {
    pub address: Option<String>,
    pub port: Option<i32>,
}

/// What the service reports of a database instance.
#[derive(Debug)]
pub struct DbInstanceFacts {
    pub db_instance_identifier: Option<String>,
    pub db_instance_arn: Option<String>,
    pub engine: Option<String>,
    pub storage_encrypted: Option<bool>,
    pub kms_key_id: Option<String>,
    pub db_instance_class: Option<String>,
    pub db_instance_status: Option<String>,
    pub endpoint: Option<EndpointFacts>,
}

/// The address of a database instance, where the service reports one.
pub open spec fn endpoint_address(f: DbInstanceFacts) -> Option<Seq<char>> {
    match f.endpoint {
        Some(e) => opt_text(e.address),
        None => None,
    }
}

/// The port of a database instance, where the service reports one.
pub open spec fn endpoint_port(f: DbInstanceFacts) -> Option<i32> {
    match f.endpoint {
        Some(e) => e.port,
        None => None,
    }
}

/// The metadata of a database instance.
pub open spec fn db_metadata(f: DbInstanceFacts) -> Map<Seq<char>, MetaModel> {
    let m = with_opt_text(Map::empty(), "class"@, opt_text(f.db_instance_class));
    let m = with_opt_text(m, "status"@, opt_text(f.db_instance_status));
    let m = with_opt_text(m, "endpoint"@, endpoint_address(f));
    let m = with_opt_number(m, "port"@, opt_int32(endpoint_port(f)));
    with_meta(m, "engine"@, MetaModel::Text(text_or(f.engine, Seq::empty())))
}

/// The record of a database instance found in `region`. An instance without
/// an identifier goes by `unknown`.
pub open spec fn db_record(region: Seq<char>, f: DbInstanceFacts) -> AssetModel {
    AssetModel {
        id: nonempty_or(
            text_or(f.db_instance_arn, Seq::empty()),
            "arn:aws:rds:"@ + region + ":unknown:db:"@ + text_or(
                f.db_instance_identifier,
                "unknown"@,
            ),
        ),
        service: "rds"@,
        kind: AssetKind::ObjectStore,
        region,
        name: Some(text_or(f.db_instance_identifier, "unknown"@)),
        uri: Some("rds://"@ + region + "/"@ + text_or(f.db_instance_identifier, "unknown"@)),
        size_bytes: None,
        encrypted: f.storage_encrypted,
        kms_key_id: opt_text(f.kms_key_id),
        tags: Map::empty(),
        metadata: db_metadata(f),
    }
}

/// The records that the collector returns when no outside call is made.
pub open spec fn rds_mock(regions: Seq<Seq<char>>) -> Seq<AssetModel> {
    seq![
        AssetModel {
            id: "arn:aws:rds:ap-northeast-2:123456789012:db:demo-db"@,
            service: "rds"@,
            kind: AssetKind::ObjectStore,
            region: first_text_or(regions, "ap-northeast-2"@),
            name: Some("demo-db"@),
            uri: Some("rds://ap-northeast-2/demo-db"@),
            size_bytes: None,
            encrypted: Some(true),
            kms_key_id: None,
            tags: Map::empty(),
            metadata: Map::<Seq<char>, MetaModel>::empty().insert(
                "class"@,
                MetaModel::Text("db.t3.micro"@),
            ).insert("status"@, MetaModel::Text("available"@)).insert(
                "engine"@,
                MetaModel::Text("postgres"@),
            ),
        },
    ]
}

impl RdsCollector {
    /// The collector, which declares the name `rds`.
    pub fn new() -> (c: Self)
        ensures
            c.label() == "rds"@,
    {
        RdsCollector
    }

    /// The record of a database instance found in `region`.
    pub fn db_asset(region: &str, facts: &DbInstanceFacts) -> (asset: Asset)
        ensures
            asset@ == db_record(region@, *facts),
    {
        proof {
            reveal_strlit("");
            assert(""@ =~= Seq::<char>::empty());
        }
        let id = string_or(&facts.db_instance_identifier, "unknown");
        let arn = string_or(&facts.db_instance_arn, "");
        let engine = string_or(&facts.engine, "");
        let address = match &facts.endpoint {
            Some(e) => clone_opt_text(&e.address),
            None => None,
        };
        let port = match &facts.endpoint {
            Some(e) => e.port,
            None => None,
        };
        let mut metadata = no_metadata();
        put_opt_text(&mut metadata, "class", &facts.db_instance_class);
        put_opt_text(&mut metadata, "status", &facts.db_instance_status);
        put_opt_text(&mut metadata, "endpoint", &address);
        put_opt_int32(&mut metadata, "port", port);
        put_text(&mut metadata, "engine", engine.as_str());
        let asset_id = if arn.as_str().unicode_len() > 0 {
            arn
        } else {
            join4("arn:aws:rds:", region, ":unknown:db:", id.as_str())
        };
        Asset {
            id: asset_id,
            service: "rds".to_owned(),
            kind: AssetKind::ObjectStore,
            region: region.to_owned(),
            uri: Some(join4("rds://", region, "/", id.as_str())),
            name: Some(id),
            size_bytes: None,
            encrypted: facts.storage_encrypted,
            kms_key_id: clone_opt_text(&facts.kms_key_id),
            tags: no_tags(),
            metadata,
        }
    }

    /// The records that the collector returns when no outside call is made.
    pub fn mock_assets(regions: &[String]) -> (assets: Vec<Asset>)
        ensures
            models(assets@) == rds_mock(texts(regions@)),
    {
        let mut metadata = no_metadata();
        put_text(&mut metadata, "class", "db.t3.micro");
        put_text(&mut metadata, "status", "available");
        put_text(&mut metadata, "engine", "postgres");
        let asset = Asset {
            id: "arn:aws:rds:ap-northeast-2:123456789012:db:demo-db".to_owned(),
            service: "rds".to_owned(),
            kind: AssetKind::ObjectStore,
            region: first_or(regions, "ap-northeast-2"),
            name: Some("demo-db".to_owned()),
            uri: Some("rds://ap-northeast-2/demo-db".to_owned()),
            size_bytes: None,
            encrypted: Some(true),
            kms_key_id: None,
            tags: no_tags(),
            metadata,
        };
        let mut assets: Vec<Asset> = Vec::new();
        assets.push(asset);
        assert(models(assets@) =~= rds_mock(texts(regions@)));
        assets
    }
}

impl Collector for RdsCollector {
    open spec fn label(&self) -> Seq<char> {
        "rds"@
    }

    open spec fn discovers(
        &self,
        regions: Seq<Seq<char>>,
        mock: bool,
        outcome: Result<Vec<Asset>, DiscoveryError>,
    ) -> bool {
        if mock {
            outcome is Ok && models(outcome->Ok_0@) == rds_mock(regions)
        } else {
            outcome is Err && outcome->Err_0.message@ == offline_message("rds"@)
        }
    }

    fn name(&self) -> (s: &'static str) {
        "rds"
    }

    fn discover(&self, regions: &[String], mock: bool) -> (outcome: Result<
        Vec<Asset>,
        DiscoveryError,
    >) {
        if mock {
            Ok(RdsCollector::mock_assets(regions))
        } else {
            Err(offline_error("rds"))
        }
    }
}

} // verus!
