//! Database instances as flat items.

use crate::record::{
    field_models, flag_or_null, meta_field, meta_of_opt_flag, meta_of_opt_text, meta_of_text,
    meta_record, opt_text, text_or_null, MetaField, MetaFieldModel, MetaModel,
};
use crate::text::join2;
use crate::types::{Asset, ItemModel};
use vstd::prelude::*;

verus! {

/// What the service reports of a database instance.
#[derive(Debug)]
pub struct InstanceFacts {
    pub db_instance_identifier: Option<String>,
    pub engine: Option<String>,
    pub engine_version: Option<String>,
    pub db_instance_class: Option<String>,
    pub db_instance_status: Option<String>,
    pub multi_az: Option<bool>,
    pub storage_encrypted: Option<bool>,
}

/// The identifier of an instance, or the empty text where it has none.
pub open spec fn instance_id(f: InstanceFacts) -> Seq<char> {
    match f.db_instance_identifier {
        Some(id) => id@,
        None => Seq::empty(),
    }
}

/// What is known of an instance.
pub open spec fn instance_meta(f: InstanceFacts) -> MetaModel {
    MetaModel::Record(
        seq![
            MetaFieldModel { name: "engine"@, value: text_or_null(opt_text(f.engine)) },
            MetaFieldModel {
                name: "engine_version"@,
                value: text_or_null(opt_text(f.engine_version)),
            },
            MetaFieldModel { name: "class"@, value: text_or_null(opt_text(f.db_instance_class)) },
            MetaFieldModel {
                name: "status"@,
                value: text_or_null(opt_text(f.db_instance_status)),
            },
            MetaFieldModel { name: "multi_az"@, value: flag_or_null(f.multi_az) },
            MetaFieldModel { name: "encrypted"@, value: flag_or_null(f.storage_encrypted) },
            MetaFieldModel { name: "service"@, value: MetaModel::Text("rds"@) },
        ],
    )
}

/// The item of an instance found in `region`.
pub open spec fn instance_item(region: Seq<char>, f: InstanceFacts) -> ItemModel {
    ItemModel {
        kind: "rds-instance"@,
        locator: "rds://"@ + instance_id(f),
        name: instance_id(f),
        region,
        bytes: None,
        meta: instance_meta(f),
    }
}

/// The item of an instance found in `region`.
pub fn instance_asset(region: &str, facts: &InstanceFacts) -> (item: Asset)
    ensures
        item@ == instance_item(region@, *facts),
{
    proof {
        reveal_strlit("");
        assert(""@ =~= Seq::<char>::empty());
    }
    let id = match &facts.db_instance_identifier {
        Some(id) => id.clone(),
        None => "".to_owned(),
    };
    let mut fields: Vec<MetaField> = Vec::new();
    fields.push(meta_field("engine", meta_of_opt_text(&facts.engine)));
    fields.push(meta_field("engine_version", meta_of_opt_text(&facts.engine_version)));
    fields.push(meta_field("class", meta_of_opt_text(&facts.db_instance_class)));
    fields.push(meta_field("status", meta_of_opt_text(&facts.db_instance_status)));
    fields.push(meta_field("multi_az", meta_of_opt_flag(facts.multi_az)));
    fields.push(meta_field("encrypted", meta_of_opt_flag(facts.storage_encrypted)));
    fields.push(meta_field("service", meta_of_text("rds")));
    let meta = meta_record(fields);
    assert(field_models(fields@) =~= instance_meta(*facts)->Record_0);
    Asset {
        kind: "rds-instance".to_owned(),
        locator: join2("rds://", id.as_str()),
        name: id,
        region: region.to_owned(),
        bytes: None,
        meta,
    }
}

} // verus!
