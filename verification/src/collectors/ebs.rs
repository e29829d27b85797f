//! Block storage volumes.

use crate::collector_core::{Collector, DiscoveryError};
use crate::collectors::ec2::{AttachmentFacts, VolumeFacts};
use crate::collectors::{
    bytes_of_gib, gib_bytes, models, offline_error, offline_message, string_or, tags_from_pairs,
    tags_of, text_or,
};
use crate::record::{
    clone_opt_text, metadata_model, no_metadata, no_tags, opt_int32, opt_text, put_opt_flag,
    put_opt_int32, put_opt_text, put_tag, put_text, with_opt_flag, with_opt_number,
    with_opt_text, Asset, AssetKind, AssetModel, MetaModel, MetaValue,
};
use crate::strmap::StrMap;
use crate::text::{first_or, first_text_or, join4, texts};
use vstd::prelude::*;

verus! {

/// The collector of block storage volumes.
pub struct EbsCollector;

/// Metadata to which the attachments of a volume were added in order: what
/// a later attachment reports replaces what an earlier one did.
pub open spec fn with_attachments(
    m: Map<Seq<char>, MetaModel>,
    attachments: Seq<AttachmentFacts>,
) -> Map<Seq<char>, MetaModel>
    decreases attachments.len(),
{
    if attachments.len() == 0 {
        m
    } else {
        let a = attachments.last();
        let m = with_attachments(m, attachments.drop_last());
        let m = with_opt_text(m, "attached_instance"@, opt_text(a.instance_id));
        let m = with_opt_text(m, "device"@, opt_text(a.device));
        with_opt_text(m, "attachment_state"@, opt_text(a.state))
    }
}

/// The metadata of a volume.
pub open spec fn ebs_metadata(f: VolumeFacts) -> Map<Seq<char>, MetaModel> {
    let m = with_attachments(Map::empty(), f.attachments@);
    let m = with_opt_text(m, "state"@, opt_text(f.state));
    let m = with_opt_text(m, "volume_type"@, opt_text(f.volume_type));
    let m = with_opt_number(m, "iops"@, opt_int32(f.iops));
    let m = with_opt_number(m, "throughput"@, opt_int32(f.throughput));
    with_opt_flag(m, "multi_attach_enabled"@, f.multi_attach_enabled)
}

/// The record of a volume found in `region`. A volume without an identifier
/// goes by `unknown`.
pub open spec fn ebs_record(region: Seq<char>, f: VolumeFacts) -> AssetModel {
    AssetModel {
        id: "arn:aws:ec2:"@ + region + ":unknown:volume/"@ + text_or(f.volume_id, "unknown"@),
        service: "ec2"@,
        kind: AssetKind::BlockStorage,
        region,
        name: Some(text_or(f.volume_id, "unknown"@)),
        uri: Some("ec2://"@ + region + "/volume/"@ + text_or(f.volume_id, "unknown"@)),
        size_bytes: gib_bytes(f.size_gib),
        encrypted: f.encrypted,
        kms_key_id: opt_text(f.kms_key_id),
        tags: tags_of(f.tags@),
        metadata: ebs_metadata(f),
    }
}

/// The records that the collector returns when no outside call is made.
pub open spec fn ebs_mock(regions: Seq<Seq<char>>) -> Seq<AssetModel> {
    seq![
        AssetModel {
            id: "arn:aws:ec2:ap-northeast-2:unknown:volume/vol-0abcde12345f67890"@,
            service: "ec2"@,
            kind: AssetKind::BlockStorage,
            region: first_text_or(regions, "ap-northeast-2"@),
            name: Some("vol-0abcde12345f67890"@),
            uri: Some("ec2://ap-northeast-2/volume/vol-0abcde12345f67890"@),
            size_bytes: Some(107374182400u64),
            encrypted: Some(true),
            kms_key_id: None,
            tags: Map::<Seq<char>, Seq<char>>::empty().insert("env"@, "dev"@),
            metadata: Map::<Seq<char>, MetaModel>::empty().insert(
                "state"@,
                MetaModel::Text("in-use"@),
            ).insert("volume_type"@, MetaModel::Text("gp3"@)),
        },
    ]
}

impl EbsCollector {
    /// The collector, which declares the name `ebs`.
    pub fn new() -> (c: Self)
        ensures
            c.label() == "ebs"@,
    {
        EbsCollector
    }

    /// Adds the attachments of a volume to its metadata, in order.
    pub fn put_attachments(metadata: &mut StrMap<MetaValue>, attachments: &Vec<AttachmentFacts>)
        ensures
            metadata_model(*final(metadata)) == with_attachments(
                metadata_model(*old(metadata)),
                attachments@,
            ),
    {
        let n: usize = attachments.len();
        let mut i: usize = 0;
        assert(attachments@.subrange(0, 0) =~= Seq::<AttachmentFacts>::empty());
        while i < n
            invariant
                n == attachments@.len(),
                i <= n,
                metadata_model(*metadata) == with_attachments(
                    metadata_model(*old(metadata)),
                    attachments@.subrange(0, i as int),
                ),
            decreases n - i,
        {
            proof {
                let next = attachments@.subrange(0, i + 1);
                assert(next.drop_last() =~= attachments@.subrange(0, i as int));
                assert(next.last() == attachments@[i as int]);
            }
            let a = &attachments[i];
            put_opt_text(metadata, "attached_instance", &a.instance_id);
            put_opt_text(metadata, "device", &a.device);
            put_opt_text(metadata, "attachment_state", &a.state);
            i = i + 1;
        }
        assert(attachments@.subrange(0, n as int) =~= attachments@);
    }

    /// The record of a volume found in `region`.
    pub fn volume_asset(region: &str, facts: &VolumeFacts) -> (asset: Asset)
        ensures
            asset@ == ebs_record(region@, *facts),
    {
        let id = string_or(&facts.volume_id, "unknown");
        let mut metadata = no_metadata();
        EbsCollector::put_attachments(&mut metadata, &facts.attachments);
        put_opt_text(&mut metadata, "state", &facts.state);
        put_opt_text(&mut metadata, "volume_type", &facts.volume_type);
        put_opt_int32(&mut metadata, "iops", facts.iops);
        put_opt_int32(&mut metadata, "throughput", facts.throughput);
        put_opt_flag(&mut metadata, "multi_attach_enabled", facts.multi_attach_enabled);
        Asset {
            id: join4("arn:aws:ec2:", region, ":unknown:volume/", id.as_str()),
            service: "ec2".to_owned(),
            kind: AssetKind::BlockStorage,
            region: region.to_owned(),
            uri: Some(join4("ec2://", region, "/volume/", id.as_str())),
            name: Some(id),
            size_bytes: bytes_of_gib(facts.size_gib),
            encrypted: facts.encrypted,
            kms_key_id: clone_opt_text(&facts.kms_key_id),
            tags: tags_from_pairs(&facts.tags),
            metadata,
        }
    }

    /// The records that the collector returns when no outside call is made.
    pub fn mock_assets(regions: &[String]) -> (assets: Vec<Asset>)
        ensures
            models(assets@) == ebs_mock(texts(regions@)),
    {
        let mut metadata = no_metadata();
        put_text(&mut metadata, "state", "in-use");
        put_text(&mut metadata, "volume_type", "gp3");
        let mut tags = no_tags();
        put_tag(&mut tags, "env", "dev");
        let asset = Asset {
            id: "arn:aws:ec2:ap-northeast-2:unknown:volume/vol-0abcde12345f67890".to_owned(),
            service: "ec2".to_owned(),
            kind: AssetKind::BlockStorage,
            region: first_or(regions, "ap-northeast-2"),
            name: Some("vol-0abcde12345f67890".to_owned()),
            uri: Some("ec2://ap-northeast-2/volume/vol-0abcde12345f67890".to_owned()),
            size_bytes: Some(107374182400),
            encrypted: Some(true),
            kms_key_id: None,
            tags,
            metadata,
        };
        let mut assets: Vec<Asset> = Vec::new();
        assets.push(asset);
        assert(models(assets@) =~= ebs_mock(texts(regions@)));
        assets
    }
}

impl Collector for EbsCollector {
    open spec fn label(&self) -> Seq<char> {
        "ebs"@
    }

    open spec fn discovers(
        &self,
        regions: Seq<Seq<char>>,
        mock: bool,
        outcome: Result<Vec<Asset>, DiscoveryError>,
    ) -> bool {
        if mock {
            outcome is Ok && models(outcome->Ok_0@) == ebs_mock(regions)
        } else {
            outcome is Err && outcome->Err_0.message@ == offline_message("ebs"@)
        }
    }

    fn name(&self) -> (s: &'static str) {
        "ebs"
    }

    fn discover(&self, regions: &[String], mock: bool) -> (outcome: Result<
        Vec<Asset>,
        DiscoveryError,
    >) {
        if mock {
            Ok(EbsCollector::mock_assets(regions))
        } else {
            Err(offline_error("ebs"))
        }
    }
}

} // verus!
