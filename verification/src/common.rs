//! The description of one object of a source.

use crate::record::MetaValue;
use vstd::prelude::*;

verus! {

/// One object of a source, with its size and what else is known of it.
#[derive(Debug)]
pub struct MetaPayload {
    /// The source, such as `aws`.
    pub source_id: String,
    /// The type of the object, such as `S3_OBJECT`.
    pub object_type: String,
    pub locator: String,
    pub bytes: i64,
    pub extra: MetaValue,
}

impl Clone for MetaPayload {
    fn clone(&self) -> (r: Self)
        ensures
            r.source_id@ == self.source_id@,
            r.object_type@ == self.object_type@,
            r.locator@ == self.locator@,
            r.bytes == self.bytes,
            r.extra@ == self.extra@,
    {
        MetaPayload {
            source_id: self.source_id.clone(),
            object_type: self.object_type.clone(),
            locator: self.locator.clone(),
            bytes: self.bytes,
            extra: self.extra.clone(),
        }
    }
}

} // verus!
