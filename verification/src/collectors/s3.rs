//! Object storage buckets.

use crate::collector_core::{Collector, DiscoveryError};
use crate::collectors::{models, offline_error, offline_message};
use crate::record::{
    no_metadata, no_tags, put_opt_flag, put_flag, put_tag, with_opt_flag, Asset, AssetKind,
    AssetModel, MetaModel, opt_text,
};
use crate::text::{contains_text, first_or, first_text_or, join2, join3, texts};
use vstd::prelude::*;

verus! {

/// The collector of object storage buckets.
pub struct S3Collector;

/// The encryption that a bucket is configured with: for each rule, in
/// order, the key of its default encryption, where it names one.
#[derive(Debug)]
pub struct BucketEncryption {
    pub rule_keys: Vec<Option<String>>,
}

/// The settings of a bucket that block public access.
#[derive(Debug, Clone, Copy)]
pub struct PublicAccessBlock {
    pub block_public_acls: Option<bool>,
    pub block_public_policy: Option<bool>,
}

/// How the service answered a question about a bucket.
#[derive(Debug)]
pub enum Answer<T> {
    /// The call failed.
    Failed,
    /// The call succeeded and the bucket has no such configuration.
    Absent,
    /// The call succeeded with this configuration.
    Present(T),
}

/// The region of a bucket from the answer to the question where it lies. A
/// bucket without a location constraint lies in `us-east-1`.
pub open spec fn bucket_region(location: Answer<String>) -> Seq<char> {
    match location {
        Answer::Failed => "unknown"@,
        Answer::Absent => "us-east-1"@,
        Answer::Present(r) => r@,
    }
}

/// Whether a bucket in `region` belongs to the scope. An empty scope takes
/// in every region.
pub open spec fn bucket_in_scope(regions: Seq<Seq<char>>, region: Seq<char>) -> bool {
    regions.len() == 0 || regions.contains(region)
}

/// The key of the first rule that names one.
pub open spec fn first_key(rule_keys: Seq<Option<String>>) -> Option<Seq<char>>
    decreases rule_keys.len(),
{
    if rule_keys.len() == 0 {
        None
    } else {
        match rule_keys[0] {
            Some(k) => Some(k@),
            None => first_key(rule_keys.drop_first()),
        }
    }
}

/// Whether a bucket is encrypted: unknown where the call failed, no where
/// nothing is configured, and otherwise whether there is a rule.
pub open spec fn bucket_encrypted(encryption: Answer<BucketEncryption>) -> Option<bool> {
    match encryption {
        Answer::Failed => None,
        Answer::Absent => Some(false),
        Answer::Present(e) => Some(e.rule_keys@.len() > 0),
    }
}

/// The key that a bucket is encrypted with, where a rule names one.
pub open spec fn bucket_key(encryption: Answer<BucketEncryption>) -> Option<Seq<char>> {
    match encryption {
        Answer::Present(e) => first_key(e.rule_keys@),
        _ => None,
    }
}

/// Whether public access to a bucket is blocked: both the access lists and
/// the policies must be blocked, and a setting that is missing counts as
/// blocked. Unknown where the call failed or nothing is configured.
pub open spec fn public_blocked(access: Answer<PublicAccessBlock>) -> Option<bool> {
    match access {
        Answer::Present(p) => Some(
            (match p.block_public_acls {
                Some(b) => b,
                None => true,
            }) && (match p.block_public_policy {
                Some(b) => b,
                None => true,
            }),
        ),
        _ => None,
    }
}

/// The record of a bucket.
pub open spec fn bucket_record(
    name: Seq<char>,
    region: Seq<char>,
    encrypted: Option<bool>,
    kms_key_id: Option<Seq<char>>,
    blocked: Option<bool>,
) -> AssetModel {
    AssetModel {
        id: "arn:aws:s3:::"@ + name,
        service: "s3"@,
        kind: AssetKind::ObjectStore,
        region,
        name: Some(name),
        uri: Some("s3://"@ + name + "/"@),
        size_bytes: None,
        encrypted,
        kms_key_id,
        tags: Map::empty(),
        metadata: with_opt_flag(Map::empty(), "public_blocked"@, blocked),
    }
}

/// The records that the collector returns when no outside call is made.
pub open spec fn s3_mock(regions: Seq<Seq<char>>) -> Seq<AssetModel> {
    seq![
        AssetModel {
            id: "arn:aws:s3:::sample-bucket-mock"@,
            service: "s3"@,
            kind: AssetKind::ObjectStore,
            region: first_text_or(regions, "ap-northeast-2"@),
            name: Some("sample-bucket-mock"@),
            uri: Some("s3://sample-bucket-mock/"@),
            size_bytes: None,
            encrypted: Some(true),
            kms_key_id: None,
            tags: Map::<Seq<char>, Seq<char>>::empty().insert("env"@, "dev"@),
            metadata: Map::<Seq<char>, MetaModel>::empty().insert(
                "public_blocked"@,
                MetaModel::Flag(true),
            ),
        },
    ]
}

impl S3Collector {
    /// The collector, which declares the name `s3`.
    pub fn new() -> (c: Self)
        ensures
            c.label() == "s3"@,
    {
        S3Collector
    }

    /// The region of a bucket from the answer to the question where it lies.
    pub fn region_of(location: &Answer<String>) -> (region: String)
        ensures
            region@ == bucket_region(*location),
    {
        match location {
            Answer::Failed => "unknown".to_owned(),
            Answer::Absent => "us-east-1".to_owned(),
            Answer::Present(r) => r.clone(),
        }
    }

    /// Whether a bucket in `region` belongs to the scope.
    pub fn in_scope(regions: &[String], region: &str) -> (b: bool)
        ensures
            b == bucket_in_scope(texts(regions@), region@),
    {
        regions.len() == 0 || contains_text(regions, region)
    }

    /// Whether a bucket is encrypted.
    pub fn encrypted(encryption: &Answer<BucketEncryption>) -> (e: Option<bool>)
        ensures
            e == bucket_encrypted(*encryption),
    {
        match encryption {
            Answer::Failed => None,
            Answer::Absent => Some(false),
            Answer::Present(e) => Some(e.rule_keys.len() > 0),
        }
    }

    /// The key that a bucket is encrypted with.
    pub fn kms_key(encryption: &Answer<BucketEncryption>) -> (key: Option<String>)
        ensures
            opt_text(key) == bucket_key(*encryption),
    {
        match encryption {
            Answer::Present(e) => {
                let n: usize = e.rule_keys.len();
                let mut i: usize = 0;
                assert(e.rule_keys@.subrange(0, n as int) =~= e.rule_keys@);
                while i < n
                    invariant
                        n == e.rule_keys@.len(),
                        i <= n,
                        bucket_key(*encryption) == first_key(e.rule_keys@),
                        first_key(e.rule_keys@) == first_key(
                            e.rule_keys@.subrange(i as int, n as int),
                        ),
                    decreases n - i,
                {
                    let ghost rest = e.rule_keys@.subrange(i as int, n as int);
                    assert(rest.drop_first() =~= e.rule_keys@.subrange(i + 1, n as int));
                    assert(rest[0] == e.rule_keys@[i as int]);
                    match &e.rule_keys[i] {
                        Some(k) => {
                            assert(first_key(rest) == Some(k@));
                            return Some(k.clone());
                        },
                        None => {},
                    }
                    i = i + 1;
                }
                None
            },
            _ => None,
        }
    }

    /// Whether public access to a bucket is blocked.
    pub fn blocked(access: &Answer<PublicAccessBlock>) -> (b: Option<bool>)
        ensures
            b == public_blocked(*access),
    {
        match access {
            Answer::Present(p) => {
                let acls = match p.block_public_acls {
                    Some(b) => b,
                    None => true,
                };
                let policy = match p.block_public_policy {
                    Some(b) => b,
                    None => true,
                };
                Some(acls && policy)
            },
            _ => None,
        }
    }

    /// The record of the bucket `name`.
    pub fn bucket_asset(
        name: &str,
        region: &str,
        encrypted: Option<bool>,
        kms_key_id: Option<String>,
        blocked: Option<bool>,
    ) -> (asset: Asset)
        ensures
            asset@ == bucket_record(name@, region@, encrypted, opt_text(kms_key_id), blocked),
    {
        let mut metadata = no_metadata();
        put_opt_flag(&mut metadata, "public_blocked", blocked);
        Asset {
            id: join2("arn:aws:s3:::", name),
            service: "s3".to_owned(),
            kind: AssetKind::ObjectStore,
            region: region.to_owned(),
            name: Some(name.to_owned()),
            uri: Some(join3("s3://", name, "/")),
            size_bytes: None,
            encrypted,
            kms_key_id,
            tags: no_tags(),
            metadata,
        }
    }

    /// The records that the collector returns when no outside call is made.
    pub fn mock_assets(regions: &[String]) -> (assets: Vec<Asset>)
        ensures
            models(assets@) == s3_mock(texts(regions@)),
    {
        let mut metadata = no_metadata();
        put_flag(&mut metadata, "public_blocked", true);
        let mut tags = no_tags();
        put_tag(&mut tags, "env", "dev");
        let asset = Asset {
            id: "arn:aws:s3:::sample-bucket-mock".to_owned(),
            service: "s3".to_owned(),
            kind: AssetKind::ObjectStore,
            region: first_or(regions, "ap-northeast-2"),
            name: Some("sample-bucket-mock".to_owned()),
            uri: Some("s3://sample-bucket-mock/".to_owned()),
            size_bytes: None,
            encrypted: Some(true),
            kms_key_id: None,
            tags,
            metadata,
        };
        let mut assets: Vec<Asset> = Vec::new();
        assets.push(asset);
        assert(models(assets@) =~= s3_mock(texts(regions@)));
        assets
    }
}

impl Collector for S3Collector {
    open spec fn label(&self) -> Seq<char> {
        "s3"@
    }

    open spec fn discovers(
        &self,
        regions: Seq<Seq<char>>,
        mock: bool,
        outcome: Result<Vec<Asset>, DiscoveryError>,
    ) -> bool {
        if mock {
            outcome is Ok && models(outcome->Ok_0@) == s3_mock(regions)
        } else {
            outcome is Err && outcome->Err_0.message@ == offline_message("s3"@)
        }
    }

    fn name(&self) -> (s: &'static str) {
        "s3"
    }

    fn discover(&self, regions: &[String], mock: bool) -> (outcome: Result<
        Vec<Asset>,
        DiscoveryError,
    >) {
        if mock {
            Ok(S3Collector::mock_assets(regions))
        } else {
            Err(offline_error("s3"))
        }
    }
}

} // verus!
