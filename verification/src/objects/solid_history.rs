//! Settings of a construction-history loft that the native loft stream does
//! not hold, and the entity bodies embedded in construction history.

use vstd::prelude::*;
use crate::entities::embedded_entity::{EncodedEntity, EncodedEntityModel};

verus! {

/// Loft settings. Angles, magnitudes and bulges are binary64 bit patterns.
#[derive(Debug, Clone, PartialEq)]
pub struct SolidHistoryLoftParameters {
    /// How section normals constrain the surface (0 to 6).
    pub normals: i32,
    pub start_draft_angle: u64,
    pub end_draft_angle: u64,
    pub start_magnitude: u64,
    pub end_magnitude: u64,
    /// Continuity at the first section (0 or 1).
    pub start_continuity: i32,
    /// Continuity at the last section (0 or 1).
    pub end_continuity: i32,
    pub start_bulge: u64,
    pub end_bulge: u64,
    pub closed: bool,
    pub surface: bool,
    pub align_direction: bool,
    pub periodic: bool,
    /// Number of curves in each cross section.
    pub section_counts: Vec<usize>,
    /// Path the loft follows, if any.
    pub path_entity: Option<EncodedEntity>,
}

/// Model of loft settings.
pub struct LoftParametersModel {
    pub normals: i32,
    pub start_draft_angle: u64,
    pub end_draft_angle: u64,
    pub start_magnitude: u64,
    pub end_magnitude: u64,
    pub start_continuity: i32,
    pub end_continuity: i32,
    pub start_bulge: u64,
    pub end_bulge: u64,
    pub closed: bool,
    pub surface: bool,
    pub align_direction: bool,
    pub periodic: bool,
    pub section_counts: Seq<usize>,
    pub path_entity: Option<EncodedEntityModel>,
}

impl View for SolidHistoryLoftParameters {
    type V = LoftParametersModel;

    open spec fn view(&self) -> LoftParametersModel {
        LoftParametersModel {
            normals: self.normals,
            start_draft_angle: self.start_draft_angle,
            end_draft_angle: self.end_draft_angle,
            start_magnitude: self.start_magnitude,
            end_magnitude: self.end_magnitude,
            start_continuity: self.start_continuity,
            end_continuity: self.end_continuity,
            start_bulge: self.start_bulge,
            end_bulge: self.end_bulge,
            closed: self.closed,
            surface: self.surface,
            align_direction: self.align_direction,
            periodic: self.periodic,
            section_counts: self.section_counts@,
            path_entity: match self.path_entity {
                Some(e) => Some(e@),
                None => None,
            },
        }
    }
}

/// A loft node of a construction history.
#[derive(Debug, Clone, PartialEq)]
pub struct SolidHistoryLoft {
    /// Settings that the native loft stream does not hold, when known.
    pub parameters: Option<SolidHistoryLoftParameters>,
}

} // verus!
