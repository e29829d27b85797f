//! Backup vaults.

use crate::collector_core::{Collector, DiscoveryError};
use crate::collectors::{models, offline_error, offline_message, string_or, text_or};
use crate::record::{
    clone_opt_text, no_metadata, no_tags, opt_text, put_number, put_opt_text, put_text,
    with_opt_number, with_opt_text, Asset, AssetKind, AssetModel, MetaModel,
};
use crate::text::{first_or, first_text_or, join2, texts};
use vstd::prelude::*;

verus! {

/// The collector of backup vaults.
pub struct BackupCollector;

/// What the service reports of a vault.
#[derive(Debug)]
pub struct VaultFacts {
    pub backup_vault_name: Option<String>,
    pub backup_vault_arn: Option<String>,
    pub encryption_key_arn: Option<String>,
    pub number_of_recovery_points: i64,
    pub creator_request_id: Option<String>,
}

/// The number of recovery points of a vault, where it is not negative.
pub open spec fn recovery_points(n: i64) -> Option<int> {
    if n >= 0 {
        Some(n as int)
    } else {
        None
    }
}

/// The record of a vault found in `region`. A vault without a name goes by
/// `unknown`; it counts as encrypted where it has a key.
pub open spec fn vault_record(region: Seq<char>, f: VaultFacts) -> AssetModel {
    AssetModel {
        id: text_or(f.backup_vault_arn, Seq::empty()),
        service: "backup"@,
        kind: AssetKind::ObjectStore,
        region,
        name: Some(text_or(f.backup_vault_name, "unknown"@)),
        uri: Some("arn://"@ + text_or(f.backup_vault_arn, Seq::empty())),
        size_bytes: None,
        encrypted: Some(f.encryption_key_arn is Some),
        kms_key_id: opt_text(f.encryption_key_arn),
        tags: Map::empty(),
        metadata: with_opt_number(
            with_opt_text(
                with_opt_text(Map::empty(), "vault_arn"@, opt_text(f.backup_vault_arn)),
                "creator_request_id"@,
                opt_text(f.creator_request_id),
            ),
            "recovery_points"@,
            recovery_points(f.number_of_recovery_points),
        ),
    }
}

/// The records that the collector returns when no outside call is made.
pub open spec fn backup_mock(regions: Seq<Seq<char>>) -> Seq<AssetModel> {
    seq![
        AssetModel {
            id: "arn:aws:backup:ap-northeast-2:123456789012:backup-vault:demo-vault"@,
            service: "backup"@,
            kind: AssetKind::ObjectStore,
            region: first_text_or(regions, "ap-northeast-2"@),
            name: Some("demo-vault"@),
            uri: Some("arn://arn:aws:backup:ap-northeast-2:123456789012:backup-vault:demo-vault"@),
            size_bytes: None,
            encrypted: Some(false),
            kms_key_id: None,
            tags: Map::empty(),
            metadata: Map::<Seq<char>, MetaModel>::empty().insert(
                "vault_arn"@,
                MetaModel::Text(
                    "arn:aws:backup:ap-northeast-2:123456789012:backup-vault:demo-vault"@,
                ),
            ).insert("recovery_points"@, MetaModel::Number(3)),
        },
    ]
}

impl BackupCollector {
    /// The collector, which declares the name `backup`.
    pub fn new() -> (c: Self)
        ensures
            c.label() == "backup"@,
    {
        BackupCollector
    }

    /// The record of a vault found in `region`.
    pub fn vault_asset(region: &str, facts: &VaultFacts) -> (asset: Asset)
        ensures
            asset@ == vault_record(region@, *facts),
    {
        proof {
            reveal_strlit("");
            assert(""@ =~= Seq::<char>::empty());
        }
        let name = string_or(&facts.backup_vault_name, "unknown");
        let arn = string_or(&facts.backup_vault_arn, "");
        let mut metadata = no_metadata();
        put_opt_text(&mut metadata, "vault_arn", &facts.backup_vault_arn);
        put_opt_text(&mut metadata, "creator_request_id", &facts.creator_request_id);
        if facts.number_of_recovery_points >= 0 {
            put_number(&mut metadata, "recovery_points", facts.number_of_recovery_points);
        }
        Asset {
            uri: Some(join2("arn://", arn.as_str())),
            id: arn,
            service: "backup".to_owned(),
            kind: AssetKind::ObjectStore,
            region: region.to_owned(),
            name: Some(name),
            size_bytes: None,
            encrypted: Some(facts.encryption_key_arn.is_some()),
            kms_key_id: clone_opt_text(&facts.encryption_key_arn),
            tags: no_tags(),
            metadata,
        }
    }

    /// The records that the collector returns when no outside call is made.
    pub fn mock_assets(regions: &[String]) -> (assets: Vec<Asset>)
        ensures
            models(assets@) == backup_mock(texts(regions@)),
    {
        let mut metadata = no_metadata();
        put_text(
            &mut metadata,
            "vault_arn",
            "arn:aws:backup:ap-northeast-2:123456789012:backup-vault:demo-vault",
        );
        put_number(&mut metadata, "recovery_points", 3);
        let asset = Asset {
            id: "arn:aws:backup:ap-northeast-2:123456789012:backup-vault:demo-vault".to_owned(),
            service: "backup".to_owned(),
            kind: AssetKind::ObjectStore,
            region: first_or(regions, "ap-northeast-2"),
            name: Some("demo-vault".to_owned()),
            uri: Some(
                "arn://arn:aws:backup:ap-northeast-2:123456789012:backup-vault:demo-vault".to_owned(),
            ),
            size_bytes: None,
            encrypted: Some(false),
            kms_key_id: None,
            tags: no_tags(),
            metadata,
        };
        let mut assets: Vec<Asset> = Vec::new();
        assets.push(asset);
        assert(models(assets@) =~= backup_mock(texts(regions@)));
        assets
    }
}

impl Collector for BackupCollector {
    open spec fn label(&self) -> Seq<char> {
        "backup"@
    }

    open spec fn discovers(
        &self,
        regions: Seq<Seq<char>>,
        mock: bool,
        outcome: Result<Vec<Asset>, DiscoveryError>,
    ) -> bool {
        if mock {
            outcome is Ok && models(outcome->Ok_0@) == backup_mock(regions)
        } else {
            outcome is Err && outcome->Err_0.message@ == offline_message("backup"@)
        }
    }

    fn name(&self) -> (s: &'static str) {
        "backup"
    }

    fn discover(&self, regions: &[String], mock: bool) -> (outcome: Result<
        Vec<Asset>,
        DiscoveryError,
    >) {
        if mock {
            Ok(BackupCollector::mock_assets(regions))
        } else {
            Err(offline_error("backup"))
        }
    }
}

} // verus!
