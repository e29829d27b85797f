//! The flat item that the bulk endpoint takes, and the payload it comes in.

use crate::record::{MetaModel, MetaValue};
use vstd::prelude::*;

verus! {

/// A found resource as the bulk endpoint takes it.
#[derive(Debug)]
pub struct Asset {
    pub kind: String,
    pub locator: String,
    pub name: String,
    pub region: String,
    pub bytes: Option<i64>,
    pub meta: MetaValue,
}

/// What an item holds.
pub struct ItemModel {
    pub kind: Seq<char>,
    pub locator: Seq<char>,
    pub name: Seq<char>,
    pub region: Seq<char>,
    pub bytes: Option<i64>,
    pub meta: MetaModel,
}

impl View for Asset {
    type V = ItemModel;

    open spec fn view(&self) -> ItemModel {
        ItemModel {
            kind: self.kind@,
            locator: self.locator@,
            name: self.name@,
            region: self.region@,
            bytes: self.bytes,
            meta: self.meta@,
        }
    }
}

impl Clone for Asset {
    fn clone(&self) -> (r: Self)
        ensures
            r@ == self@,
    {
        Asset {
            kind: self.kind.clone(),
            locator: self.locator.clone(),
            name: self.name.clone(),
            region: self.region.clone(),
            bytes: self.bytes,
            meta: self.meta.clone(),
        }
    }
}

/// What each item of a list holds.
pub open spec fn item_models(items: Seq<Asset>) -> Seq<ItemModel> {
    items.map_values(|a: Asset| a@)
}

/// The items of one source, as they are posted together.
#[derive(Debug)]
pub struct BulkPayload {
    pub source_id: String,
    pub items: Vec<Asset>,
}

} // verus!
