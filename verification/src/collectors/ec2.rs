//! Compute instances and the volumes attached to them.

use crate::collector_core::{Collector, DiscoveryError};
use crate::collectors::{
    bytes_of_gib, gib_bytes, models, offline_error, offline_message, opt_model, string_or,
    tags_from_pairs, tags_of, text_or, TagPair,
};
use crate::record::{
    field_models, meta_field, meta_list, meta_of_opt_text, meta_record, no_metadata, no_tags,
    opt_int32, opt_text, put_flag, put_meta, put_opt_flag, put_opt_int32, put_opt_text, put_tag,
    put_text, text_or_null, value_models, with_meta, with_opt_flag, with_opt_number,
    with_opt_text, Asset, AssetKind, AssetModel, MetaField, MetaFieldModel, MetaModel, MetaValue,
};
use crate::strmap::StrMap;
use crate::text::{join2, join4};
use vstd::prelude::*;

verus! {

/// The collector of compute instances and volumes.
pub struct EC2Collector;

/// What the service reports of an instance.
#[derive(Debug)]
pub struct InstanceFacts {
    pub instance_id: Option<String>,
    pub tags: Vec<TagPair>,
    pub state: Option<String>,
    pub instance_type: Option<String>,
    pub platform: Option<String>,
    pub private_ip: Option<String>,
    pub public_ip: Option<String>,
    pub vpc_id: Option<String>,
    pub subnet_id: Option<String>,
    pub launch_time: Option<String>,
    pub iam_instance_profile_arn: Option<String>,
    pub ebs_optimized: Option<bool>,
}

/// What the service reports of the attachment of a volume.
#[derive(Debug)]
pub struct AttachmentFacts {
    pub instance_id: Option<String>,
    pub state: Option<String>,
    pub device: Option<String>,
}

/// What the service reports of a volume.
#[derive(Debug)]
pub struct VolumeFacts {
    pub volume_id: Option<String>,
    pub tags: Vec<TagPair>,
    pub state: Option<String>,
    pub iops: Option<i32>,
    pub throughput: Option<i32>,
    pub volume_type: Option<String>,
    pub multi_attach_enabled: Option<bool>,
    pub attachments: Vec<AttachmentFacts>,
    pub size_gib: Option<i32>,
    pub encrypted: Option<bool>,
    pub kms_key_id: Option<String>,
}

/// The identifier of an instance.
pub open spec fn instance_arn(region: Seq<char>, account: Seq<char>, id: Seq<char>) -> Seq<char> {
    "arn:aws:ec2:"@ + region + ":"@ + account + ":instance/"@ + id
}

/// The identifier of a volume.
pub open spec fn volume_arn(region: Seq<char>, account: Seq<char>, id: Seq<char>) -> Seq<char> {
    "arn:aws:ec2:"@ + region + ":"@ + account + ":volume/"@ + id
}

/// The metadata of an instance.
pub open spec fn instance_metadata(f: InstanceFacts) -> Map<Seq<char>, MetaModel> {
    let m = with_opt_text(Map::empty(), "state"@, opt_text(f.state));
    let m = with_opt_text(m, "instance_type"@, opt_text(f.instance_type));
    let m = with_opt_text(m, "platform"@, opt_text(f.platform));
    let m = with_opt_text(m, "private_ip"@, opt_text(f.private_ip));
    let m = with_opt_text(m, "public_ip"@, opt_text(f.public_ip));
    let m = with_opt_text(m, "vpc_id"@, opt_text(f.vpc_id));
    let m = with_opt_text(m, "subnet_id"@, opt_text(f.subnet_id));
    let m = with_opt_text(m, "launch_time"@, opt_text(f.launch_time));
    let m = with_opt_text(m, "iam_instance_profile_arn"@, opt_text(f.iam_instance_profile_arn));
    with_opt_flag(m, "ebs_optimized"@, f.ebs_optimized)
}

/// The record of an instance. An instance without an identifier has none.
pub open spec fn instance_record(
    region: Seq<char>,
    account: Seq<char>,
    f: InstanceFacts,
) -> Option<AssetModel> {
    match f.instance_id {
        None => None,
        Some(id) => Some(
            AssetModel {
                id: instance_arn(region, account, id@),
                service: "ec2"@,
                kind: AssetKind::Compute,
                region,
                name: Some(id@),
                uri: Some("ec2://"@ + id@),
                size_bytes: None,
                encrypted: None,
                kms_key_id: None,
                tags: tags_of(f.tags@),
                metadata: instance_metadata(f),
            },
        ),
    }
}

/// The metadata value of one attachment.
pub open spec fn attachment_meta(a: AttachmentFacts) -> MetaModel {
    MetaModel::Record(
        seq![
            MetaFieldModel { name: "instance_id"@, value: text_or_null(opt_text(a.instance_id)) },
            MetaFieldModel { name: "state"@, value: text_or_null(opt_text(a.state)) },
            MetaFieldModel { name: "device"@, value: text_or_null(opt_text(a.device)) },
        ],
    )
}

/// The metadata value of the attachments of a volume.
pub open spec fn attachments_meta(attachments: Seq<AttachmentFacts>) -> MetaModel {
    MetaModel::List(Seq::new(attachments.len(), |i: int| attachment_meta(attachments[i])))
}

/// The metadata of a volume.
pub open spec fn volume_metadata(f: VolumeFacts) -> Map<Seq<char>, MetaModel> {
    let m = with_opt_text(Map::empty(), "state"@, opt_text(f.state));
    let m = with_opt_number(m, "iops"@, opt_int32(f.iops));
    let m = with_opt_number(m, "throughput"@, opt_int32(f.throughput));
    let m = with_opt_text(m, "volume_type"@, opt_text(f.volume_type));
    with_meta(m, "attachments"@, attachments_meta(f.attachments@))
}

/// The record of a volume. A volume without an identifier has none.
pub open spec fn volume_record(
    region: Seq<char>,
    account: Seq<char>,
    f: VolumeFacts,
) -> Option<AssetModel> {
    match f.volume_id {
        None => None,
        Some(id) => Some(
            AssetModel {
                id: volume_arn(region, account, id@),
                service: "ec2"@,
                kind: AssetKind::BlockStorage,
                region,
                name: Some(id@),
                uri: Some("ec2://volume/"@ + id@),
                size_bytes: gib_bytes(f.size_gib),
                encrypted: f.encrypted,
                kms_key_id: opt_text(f.kms_key_id),
                tags: tags_of(f.tags@),
                metadata: volume_metadata(f),
            },
        ),
    }
}

/// The records that the collector returns when no outside call is made.
pub open spec fn ec2_mock(regions: Seq<Seq<char>>) -> Seq<AssetModel> {
    seq![
        AssetModel {
            id: "arn:aws:ec2:ap-northeast-2:111122223333:instance/i-0123456789abcdef0"@,
            service: "ec2"@,
            kind: AssetKind::Compute,
            region: "ap-northeast-2"@,
            name: Some("i-0123456789abcdef0"@),
            uri: Some("ec2://i-0123456789abcdef0"@),
            size_bytes: None,
            encrypted: None,
            kms_key_id: None,
            tags: Map::<Seq<char>, Seq<char>>::empty().insert("env"@, "dev"@),
            metadata: Map::<Seq<char>, MetaModel>::empty().insert(
                "state"@,
                MetaModel::Text("running"@),
            ).insert("instance_type"@, MetaModel::Text("t3.medium"@)),
        },
        AssetModel {
            id: "arn:aws:ec2:ap-northeast-2:111122223333:volume/vol-0abcde12345f67890"@,
            service: "ec2"@,
            kind: AssetKind::BlockStorage,
            region: "ap-northeast-2"@,
            name: Some("vol-0abcde12345f67890"@),
            uri: Some("ec2://volume/vol-0abcde12345f67890"@),
            size_bytes: Some(107374182400u64),
            encrypted: Some(true),
            kms_key_id: Some("arn:aws:kms:ap-northeast-2:111122223333:key/mock-kms"@),
            tags: Map::<Seq<char>, Seq<char>>::empty().insert("env"@, "dev"@),
            metadata: Map::<Seq<char>, MetaModel>::empty().insert(
                "encrypted"@,
                MetaModel::Flag(true),
            ),
        },
    ]
}

impl EC2Collector {
    /// The collector, which declares the name `ec2`.
    pub fn new() -> (c: Self)
        ensures
            c.label() == "ec2"@,
    {
        EC2Collector
    }

    /// The tags of a resource from the tags that the service reports.
    pub fn tags_to_hashmap(tags: &Vec<TagPair>) -> (r: StrMap<String>)
        ensures
            crate::record::tags_model(r) == tags_of(tags@),
    {
        tags_from_pairs(tags)
    }

    /// The account that resources are listed under: the caller's, or twelve
    /// zeros where it is not known.
    pub fn account_or_default(account: &Option<String>) -> (r: String)
        ensures
            r@ == text_or(*account, "000000000000"@),
    {
        string_or(account, "000000000000")
    }

    /// The identifier of an instance.
    pub fn arn_instance(region: &str, account: &str, instance_id: &str) -> (arn: String)
        ensures
            arn@ == instance_arn(region@, account@, instance_id@),
    {
        let mut arn = join4("arn:aws:ec2:", region, ":", account);
        arn.append(":instance/");
        arn.append(instance_id);
        arn
    }

    /// The identifier of a volume.
    pub fn arn_volume(region: &str, account: &str, volume_id: &str) -> (arn: String)
        ensures
            arn@ == volume_arn(region@, account@, volume_id@),
    {
        let mut arn = join4("arn:aws:ec2:", region, ":", account);
        arn.append(":volume/");
        arn.append(volume_id);
        arn
    }

    /// The record of an instance in `region`, if the instance has an
    /// identifier.
    pub fn instance_asset(region: &str, account: &str, facts: &InstanceFacts) -> (asset: Option<
        Asset,
    >)
        ensures
            opt_model(asset) == instance_record(region@, account@, *facts),
    {
        match &facts.instance_id {
            None => None,
            Some(id) => {
                let mut metadata = no_metadata();
                put_opt_text(&mut metadata, "state", &facts.state);
                put_opt_text(&mut metadata, "instance_type", &facts.instance_type);
                put_opt_text(&mut metadata, "platform", &facts.platform);
                put_opt_text(&mut metadata, "private_ip", &facts.private_ip);
                put_opt_text(&mut metadata, "public_ip", &facts.public_ip);
                put_opt_text(&mut metadata, "vpc_id", &facts.vpc_id);
                put_opt_text(&mut metadata, "subnet_id", &facts.subnet_id);
                put_opt_text(&mut metadata, "launch_time", &facts.launch_time);
                put_opt_text(
                    &mut metadata,
                    "iam_instance_profile_arn",
                    &facts.iam_instance_profile_arn,
                );
                put_opt_flag(&mut metadata, "ebs_optimized", facts.ebs_optimized);
                Some(
                    Asset {
                        id: EC2Collector::arn_instance(region, account, id.as_str()),
                        service: "ec2".to_owned(),
                        kind: AssetKind::Compute,
                        region: region.to_owned(),
                        name: Some(id.clone()),
                        uri: Some(join2("ec2://", id.as_str())),
                        size_bytes: None,
                        encrypted: None,
                        kms_key_id: None,
                        tags: tags_from_pairs(&facts.tags),
                        metadata,
                    },
                )
            },
        }
    }

    /// The metadata value of the attachments of a volume.
    pub fn attachments_value(attachments: &Vec<AttachmentFacts>) -> (v: MetaValue)
        ensures
            v@ == attachments_meta(attachments@),
    {
        let mut items: Vec<MetaValue> = Vec::new();
        let n: usize = attachments.len();
        let mut i: usize = 0;
        while i < n
            invariant
                n == attachments@.len(),
                i <= n,
                items@.len() == i,
                forall|j: int| 0 <= j < i ==> (#[trigger] items@[j])@ == attachment_meta(
                    attachments@[j],
                ),
            decreases n - i,
        {
            let a = &attachments[i];
            let mut fields: Vec<MetaField> = Vec::new();
            fields.push(meta_field("instance_id", meta_of_opt_text(&a.instance_id)));
            fields.push(meta_field("state", meta_of_opt_text(&a.state)));
            fields.push(meta_field("device", meta_of_opt_text(&a.device)));
            let item = meta_record(fields);
            assert(field_models(fields@) =~= attachment_meta(*a)->Record_0);
            items.push(item);
            i = i + 1;
        }
        let v = meta_list(items);
        assert(value_models(items@) =~= attachments_meta(attachments@)->List_0);
        v
    }

    /// The record of a volume in `region`, if the volume has an identifier.
    pub fn volume_asset(region: &str, account: &str, facts: &VolumeFacts) -> (asset: Option<Asset>)
        ensures
            opt_model(asset) == volume_record(region@, account@, *facts),
    {
        match &facts.volume_id {
            None => None,
            Some(id) => {
                let mut metadata = no_metadata();
                put_opt_text(&mut metadata, "state", &facts.state);
                put_opt_int32(&mut metadata, "iops", facts.iops);
                put_opt_int32(&mut metadata, "throughput", facts.throughput);
                put_opt_text(&mut metadata, "volume_type", &facts.volume_type);
                put_meta(
                    &mut metadata,
                    "attachments",
                    EC2Collector::attachments_value(&facts.attachments),
                );
                Some(
                    Asset {
                        id: EC2Collector::arn_volume(region, account, id.as_str()),
                        service: "ec2".to_owned(),
                        kind: AssetKind::BlockStorage,
                        region: region.to_owned(),
                        name: Some(id.clone()),
                        uri: Some(join2("ec2://volume/", id.as_str())),
                        size_bytes: bytes_of_gib(facts.size_gib),
                        encrypted: facts.encrypted,
                        kms_key_id: crate::record::clone_opt_text(&facts.kms_key_id),
                        tags: tags_from_pairs(&facts.tags),
                        metadata,
                    },
                )
            },
        }
    }

    /// The records that the collector returns when no outside call is made.
    pub fn mock_assets(regions: &[String]) -> (assets: Vec<Asset>)
        ensures
            models(assets@) == ec2_mock(crate::text::texts(regions@)),
    {
        let mut metadata = no_metadata();
        put_text(&mut metadata, "state", "running");
        put_text(&mut metadata, "instance_type", "t3.medium");
        let mut tags = no_tags();
        put_tag(&mut tags, "env", "dev");
        let instance = Asset {
            id: "arn:aws:ec2:ap-northeast-2:111122223333:instance/i-0123456789abcdef0".to_owned(),
            service: "ec2".to_owned(),
            kind: AssetKind::Compute,
            region: "ap-northeast-2".to_owned(),
            name: Some("i-0123456789abcdef0".to_owned()),
            uri: Some("ec2://i-0123456789abcdef0".to_owned()),
            size_bytes: None,
            encrypted: None,
            kms_key_id: None,
            tags,
            metadata,
        };
        let mut volume_metadata = no_metadata();
        put_flag(&mut volume_metadata, "encrypted", true);
        let mut volume_tags = no_tags();
        put_tag(&mut volume_tags, "env", "dev");
        let volume = Asset {
            id: "arn:aws:ec2:ap-northeast-2:111122223333:volume/vol-0abcde12345f67890".to_owned(),
            service: "ec2".to_owned(),
            kind: AssetKind::BlockStorage,
            region: "ap-northeast-2".to_owned(),
            name: Some("vol-0abcde12345f67890".to_owned()),
            uri: Some("ec2://volume/vol-0abcde12345f67890".to_owned()),
            size_bytes: Some(107374182400),
            encrypted: Some(true),
            kms_key_id: Some("arn:aws:kms:ap-northeast-2:111122223333:key/mock-kms".to_owned()),
            tags: volume_tags,
            metadata: volume_metadata,
        };
        let mut assets: Vec<Asset> = Vec::new();
        assets.push(instance);
        assets.push(volume);
        assert(models(assets@) =~= ec2_mock(crate::text::texts(regions@)));
        assets
    }
}

impl Collector for EC2Collector {
    open spec fn label(&self) -> Seq<char> {
        "ec2"@
    }

    open spec fn discovers(
        &self,
        regions: Seq<Seq<char>>,
        mock: bool,
        outcome: Result<Vec<Asset>, DiscoveryError>,
    ) -> bool {
        if mock {
            outcome is Ok && models(outcome->Ok_0@) == ec2_mock(regions)
        } else {
            outcome is Err && outcome->Err_0.message@ == offline_message("ec2"@)
        }
    }

    fn name(&self) -> (s: &'static str) {
        "ec2"
    }

    fn discover(&self, regions: &[String], mock: bool) -> (outcome: Result<
        Vec<Asset>,
        DiscoveryError,
    >) {
        if mock {
            Ok(EC2Collector::mock_assets(regions))
        } else {
            Err(offline_error("ec2"))
        }
    }
}

} // verus!
