//! File systems.

use crate::collector_core::{Collector, DiscoveryError};
use crate::collectors::{models, offline_error, offline_message, string_or, text_or};
use crate::record::{
    clone_opt_text, no_metadata, no_tags, opt_text, Asset, AssetKind, AssetModel,
};
use crate::text::{first_or, first_text_or, texts};
use vstd::prelude::*;

verus! {

/// The collector of elastic file systems.
pub struct EfsCollector;

/// The collector of managed file systems.
pub struct FsxCollector;

/// What the service reports of an elastic file system.
#[derive(Debug)]
pub struct EfsFacts {
    pub file_system_id: Option<String>,
    pub name: Option<String>,
    pub size_in_bytes: Option<i64>,
    pub encrypted: Option<bool>,
    pub kms_key_id: Option<String>,
}

/// What the service reports of a managed file system.
#[derive(Debug)]
pub struct FsxFacts {
    pub file_system_id: Option<String>,
    /// The capacity in units of 10^9 bytes.
    pub storage_capacity: Option<i32>,
    pub kms_key_id: Option<String>,
}

/// A size in bytes, where the service reports one that is not negative.
pub open spec fn reported_bytes(size: Option<i64>) -> Option<u64> {
    match size {
        Some(n) => if n >= 0 {
            Some(n as u64)
        } else {
            None
        },
        None => None,
    }
}

/// The number of bytes in a capacity given in units of 10^9 bytes. A
/// negative capacity gives none.
pub open spec fn capacity_bytes(capacity: Option<i32>) -> Option<u64> {
    match capacity {
        Some(n) => if n >= 0 {
            Some((n * 1000000000) as u64)
        } else {
            None
        },
        None => None,
    }
}

/// The record of an elastic file system found in `region`.
pub open spec fn efs_record(region: Seq<char>, f: EfsFacts) -> AssetModel {
    AssetModel {
        id: text_or(f.file_system_id, Seq::empty()),
        service: "efs"@,
        kind: AssetKind::FileStore,
        region,
        name: opt_text(f.name),
        uri: None,
        size_bytes: reported_bytes(f.size_in_bytes),
        encrypted: f.encrypted,
        kms_key_id: opt_text(f.kms_key_id),
        tags: Map::empty(),
        metadata: Map::empty(),
    }
}

/// The record of a managed file system found in `region`. It counts as
/// encrypted where it has a key.
pub open spec fn fsx_record(region: Seq<char>, f: FsxFacts) -> AssetModel {
    AssetModel {
        id: text_or(f.file_system_id, Seq::empty()),
        service: "fsx"@,
        kind: AssetKind::FileStore,
        region,
        name: None,
        uri: None,
        size_bytes: capacity_bytes(f.storage_capacity),
        encrypted: Some(f.kms_key_id is Some),
        kms_key_id: opt_text(f.kms_key_id),
        tags: Map::empty(),
        metadata: Map::empty(),
    }
}

/// The records that the collector of elastic file systems returns when no
/// outside call is made.
pub open spec fn efs_mock(regions: Seq<Seq<char>>) -> Seq<AssetModel> {
    seq![
        AssetModel {
            id: "fs-0123456789abcdef0"@,
            service: "efs"@,
            kind: AssetKind::FileStore,
            region: first_text_or(regions, "ap-northeast-2"@),
            name: Some("demo-efs"@),
            uri: None,
            size_bytes: Some(6144u64),
            encrypted: Some(true),
            kms_key_id: None,
            tags: Map::empty(),
            metadata: Map::empty(),
        },
    ]
}

/// The records that the collector of managed file systems returns when no
/// outside call is made.
pub open spec fn fsx_mock(regions: Seq<Seq<char>>) -> Seq<AssetModel> {
    seq![
        AssetModel {
            id: "fs-0fedcba9876543210"@,
            service: "fsx"@,
            kind: AssetKind::FileStore,
            region: first_text_or(regions, "ap-northeast-2"@),
            name: None,
            uri: None,
            size_bytes: Some(1200000000000u64),
            encrypted: Some(false),
            kms_key_id: None,
            tags: Map::empty(),
            metadata: Map::empty(),
        },
    ]
}

impl EfsCollector {
    /// The collector, which declares the name `efs`.
    pub fn new() -> (c: Self)
        ensures
            c.label() == "efs"@,
    {
        EfsCollector
    }

    /// The record of an elastic file system found in `region`.
    pub fn file_system_asset(region: &str, facts: &EfsFacts) -> (asset: Asset)
        ensures
            asset@ == efs_record(region@, *facts),
    {
        proof {
            reveal_strlit("");
            assert(""@ =~= Seq::<char>::empty());
        }
        let size_bytes = match facts.size_in_bytes {
            Some(n) => if n >= 0 {
                Some(n as u64)
            } else {
                None
            },
            None => None,
        };
        Asset {
            id: string_or(&facts.file_system_id, ""),
            service: "efs".to_owned(),
            kind: AssetKind::FileStore,
            region: region.to_owned(),
            name: clone_opt_text(&facts.name),
            uri: None,
            size_bytes,
            encrypted: facts.encrypted,
            kms_key_id: clone_opt_text(&facts.kms_key_id),
            tags: no_tags(),
            metadata: no_metadata(),
        }
    }

    /// The records that the collector returns when no outside call is made.
    pub fn mock_assets(regions: &[String]) -> (assets: Vec<Asset>)
        ensures
            models(assets@) == efs_mock(texts(regions@)),
    {
        let asset = Asset {
            id: "fs-0123456789abcdef0".to_owned(),
            service: "efs".to_owned(),
            kind: AssetKind::FileStore,
            region: first_or(regions, "ap-northeast-2"),
            name: Some("demo-efs".to_owned()),
            uri: None,
            size_bytes: Some(6144),
            encrypted: Some(true),
            kms_key_id: None,
            tags: no_tags(),
            metadata: no_metadata(),
        };
        let mut assets: Vec<Asset> = Vec::new();
        assets.push(asset);
        assert(models(assets@) =~= efs_mock(texts(regions@)));
        assets
    }
}

impl FsxCollector {
    /// The collector, which declares the name `fsx`.
    pub fn new() -> (c: Self)
        ensures
            c.label() == "fsx"@,
    {
        FsxCollector
    }

    /// The record of a managed file system found in `region`.
    pub fn file_system_asset(region: &str, facts: &FsxFacts) -> (asset: Asset)
        ensures
            asset@ == fsx_record(region@, *facts),
    {
        proof {
            reveal_strlit("");
            assert(""@ =~= Seq::<char>::empty());
        }
        let size_bytes = match facts.storage_capacity {
            Some(n) => if n >= 0 {
                let wide: u64 = n as u64;
                Some(wide * 1000000000)
            } else {
                None
            },
            None => None,
        };
        Asset {
            id: string_or(&facts.file_system_id, ""),
            service: "fsx".to_owned(),
            kind: AssetKind::FileStore,
            region: region.to_owned(),
            name: None,
            uri: None,
            size_bytes,
            encrypted: Some(facts.kms_key_id.is_some()),
            kms_key_id: clone_opt_text(&facts.kms_key_id),
            tags: no_tags(),
            metadata: no_metadata(),
        }
    }

    /// The records that the collector returns when no outside call is made.
    pub fn mock_assets(regions: &[String]) -> (assets: Vec<Asset>)
        ensures
            models(assets@) == fsx_mock(texts(regions@)),
    {
        let asset = Asset {
            id: "fs-0fedcba9876543210".to_owned(),
            service: "fsx".to_owned(),
            kind: AssetKind::FileStore,
            region: first_or(regions, "ap-northeast-2"),
            name: None,
            uri: None,
            size_bytes: Some(1200000000000),
            encrypted: Some(false),
            kms_key_id: None,
            tags: no_tags(),
            metadata: no_metadata(),
        };
        let mut assets: Vec<Asset> = Vec::new();
        assets.push(asset);
        assert(models(assets@) =~= fsx_mock(texts(regions@)));
        assets
    }
}

impl Collector for EfsCollector {
    open spec fn label(&self) -> Seq<char> {
        "efs"@
    }

    open spec fn discovers(
        &self,
        regions: Seq<Seq<char>>,
        mock: bool,
        outcome: Result<Vec<Asset>, DiscoveryError>,
    ) -> bool {
        if mock {
            outcome is Ok && models(outcome->Ok_0@) == efs_mock(regions)
        } else {
            outcome is Err && outcome->Err_0.message@ == offline_message("efs"@)
        }
    }

    fn name(&self) -> (s: &'static str) {
        "efs"
    }

    fn discover(&self, regions: &[String], mock: bool) -> (outcome: Result<
        Vec<Asset>,
        DiscoveryError,
    >) {
        if mock {
            Ok(EfsCollector::mock_assets(regions))
        } else {
            Err(offline_error("efs"))
        }
    }
}

impl Collector for FsxCollector {
    open spec fn label(&self) -> Seq<char> {
        "fsx"@
    }

    open spec fn discovers(
        &self,
        regions: Seq<Seq<char>>,
        mock: bool,
        outcome: Result<Vec<Asset>, DiscoveryError>,
    ) -> bool {
        if mock {
            outcome is Ok && models(outcome->Ok_0@) == fsx_mock(regions)
        } else {
            outcome is Err && outcome->Err_0.message@ == offline_message("fsx"@)
        }
    }

    fn name(&self) -> (s: &'static str) {
        "fsx"
    }

    fn discover(&self, regions: &[String], mock: bool) -> (outcome: Result<
        Vec<Asset>,
        DiscoveryError,
    >) {
        if mock {
            Ok(FsxCollector::mock_assets(regions))
        } else {
            Err(offline_error("fsx"))
        }
    }
}

} // verus!
