//! Entities embedded in sweep, loft, extrusion and revolve data. They are not
//! database-resident entities: their body holds only the type-specific entity
//! data, without common entity data or handles.

use vstd::prelude::*;

verus! {

/// The body of an entity embedded in construction history, as the DWG codec
/// encodes it: its entity type code, its length in bits, and its bytes.
#[derive(Debug, Clone, PartialEq)]
pub struct EncodedEntity {
    pub type_code: i32,
    pub bit_count: usize,
    pub bytes: Vec<u8>,
}

/// Model of an encoded entity body.
pub struct EncodedEntityModel {
    pub type_code: i32,
    pub bit_count: usize,
    pub bytes: Seq<u8>,
}

impl View for EncodedEntity {
    type V = EncodedEntityModel;

    open spec fn view(&self) -> EncodedEntityModel {
        EncodedEntityModel { type_code: self.type_code, bit_count: self.bit_count, bytes: self.bytes@ }
    }
}

} // verus!
