//! Graphical entities, as far as the library's logic reads them: the data that
//! all entities share, and the kind of each entity.

use vstd::prelude::*;
use crate::entities::embedded_entity::EncodedEntity;
use crate::types::{Handle, Vector2};
use crate::xdata::ExtendedData;

verus! {

/// Data shared by every graphical entity.
#[derive(Debug, Clone, PartialEq)]
pub struct EntityCommon {
    pub handle: Handle,
    pub owner_handle: Handle,
    /// Name of the entity's layer.
    pub layer: String,
    /// Name of the entity's linetype.
    pub linetype: String,
    /// Linetype record resolved for `linetype`, when known.
    pub linetype_handle: Option<Handle>,
    pub material_handle: Option<Handle>,
    pub plotstyle_handle: Option<Handle>,
    /// Extension dictionary.
    pub xdictionary_handle: Option<Handle>,
    pub extended_data: ExtendedData,
    /// Cached proxy-graphics metafile.
    pub graphic_data: Option<Vec<u8>>,
}

impl EntityCommon {
    /// Common data of a new entity on layer "0" with linetype "ByLayer".
    pub fn new() -> (c: Self)
        ensures
            c.handle.value == 0,
            c.owner_handle.value == 0,
            c.layer@ == "0"@,
            c.linetype@ == "ByLayer"@,
            c.linetype_handle is None,
            c.material_handle is None,
            c.plotstyle_handle is None,
            c.xdictionary_handle is None,
            c.extended_data@.len() == 0,
            c.graphic_data is None,
    {
        EntityCommon {
            handle: Handle::null(),
            owner_handle: Handle::null(),
            layer: "0".to_owned(),
            linetype: "ByLayer".to_owned(),
            linetype_handle: None,
            material_handle: None,
            plotstyle_handle: None,
            xdictionary_handle: None,
            extended_data: ExtendedData::new(),
            graphic_data: None,
        }
    }
}

/// One family of parallel pattern lines. Floating-point values are binary64 bit patterns.
#[derive(Debug, Clone, PartialEq)]
pub struct HatchPatternLine {
    pub angle: u64,
    pub base_point: Vector2,
    pub offset: Vector2,
    pub dash_lengths: Vec<u64>,
}

/// A hatch pattern: its name and its line families.
#[derive(Debug, Clone, PartialEq)]
pub struct HatchPattern {
    pub name: String,
    pub lines: Vec<HatchPatternLine>,
}

/// A hatch entity, as far as its pattern is concerned.
#[derive(Debug, Clone, PartialEq)]
pub struct Hatch {
    pub common: EntityCommon,
    pub pattern: HatchPattern,
}

/// How a surface was made, as far as this library reads it.
#[derive(Debug, Clone, PartialEq)]
pub enum SurfaceData {
    /// A surface lofted through cross sections, along guides and a path.
    Lofted {
        cross_section_entities: Vec<EncodedEntity>,
        guide_entities: Vec<EncodedEntity>,
        path_entity: Option<EncodedEntity>,
    },
    Other,
}

/// A surface entity, how it was made, and the link to its construction history.
#[derive(Debug, Clone, PartialEq)]
pub struct Surface {
    pub common: EntityCommon,
    pub history_handle: Option<Handle>,
    pub surface_data: SurfaceData,
}

/// A graphical entity, by kind.
#[derive(Debug, Clone, PartialEq)]
pub enum EntityType {
    Point(EntityCommon),
    Line(EntityCommon),
    Circle(EntityCommon),
    Arc(EntityCommon),
    Ellipse(EntityCommon),
    Polyline(EntityCommon),
    Polyline2D(EntityCommon),
    Polyline3D(EntityCommon),
    LwPolyline(EntityCommon),
    Spline(EntityCommon),
    Helix(EntityCommon),
    Solid(EntityCommon),
    Face3D(EntityCommon),
    Ray(EntityCommon),
    XLine(EntityCommon),
    Mesh(EntityCommon),
    PolyfaceMesh(EntityCommon),
    Text(EntityCommon),
    MText(EntityCommon),
    Insert(EntityCommon),
    Dimension(EntityCommon),
    Hatch(Hatch),
    Surface(Surface),
    /// An entity of a kind the library does not interpret, by its type name.
    Other { common: EntityCommon, entity_name: String },
}

impl EntityType {
    /// The entity's common data.
    pub open spec fn common_spec(&self) -> EntityCommon {
        match self {
            EntityType::Point(c) => *c,
            EntityType::Line(c) => *c,
            EntityType::Circle(c) => *c,
            EntityType::Arc(c) => *c,
            EntityType::Ellipse(c) => *c,
            EntityType::Polyline(c) => *c,
            EntityType::Polyline2D(c) => *c,
            EntityType::Polyline3D(c) => *c,
            EntityType::LwPolyline(c) => *c,
            EntityType::Spline(c) => *c,
            EntityType::Helix(c) => *c,
            EntityType::Solid(c) => *c,
            EntityType::Face3D(c) => *c,
            EntityType::Ray(c) => *c,
            EntityType::XLine(c) => *c,
            EntityType::Mesh(c) => *c,
            EntityType::PolyfaceMesh(c) => *c,
            EntityType::Text(c) => *c,
            EntityType::MText(c) => *c,
            EntityType::Insert(c) => *c,
            EntityType::Dimension(c) => *c,
            EntityType::Hatch(h) => h.common,
            EntityType::Surface(s) => s.common,
            EntityType::Other { common, .. } => *common,
        }
    }

    /// The same entity with other common data.
    pub open spec fn with_common(&self, c: EntityCommon) -> EntityType {
        match self {
            EntityType::Point(_) => EntityType::Point(c),
            EntityType::Line(_) => EntityType::Line(c),
            EntityType::Circle(_) => EntityType::Circle(c),
            EntityType::Arc(_) => EntityType::Arc(c),
            EntityType::Ellipse(_) => EntityType::Ellipse(c),
            EntityType::Polyline(_) => EntityType::Polyline(c),
            EntityType::Polyline2D(_) => EntityType::Polyline2D(c),
            EntityType::Polyline3D(_) => EntityType::Polyline3D(c),
            EntityType::LwPolyline(_) => EntityType::LwPolyline(c),
            EntityType::Spline(_) => EntityType::Spline(c),
            EntityType::Helix(_) => EntityType::Helix(c),
            EntityType::Solid(_) => EntityType::Solid(c),
            EntityType::Face3D(_) => EntityType::Face3D(c),
            EntityType::Ray(_) => EntityType::Ray(c),
            EntityType::XLine(_) => EntityType::XLine(c),
            EntityType::Mesh(_) => EntityType::Mesh(c),
            EntityType::PolyfaceMesh(_) => EntityType::PolyfaceMesh(c),
            EntityType::Text(_) => EntityType::Text(c),
            EntityType::MText(_) => EntityType::MText(c),
            EntityType::Insert(_) => EntityType::Insert(c),
            EntityType::Dimension(_) => EntityType::Dimension(c),
            EntityType::Hatch(h) => EntityType::Hatch(Hatch { common: c, pattern: h.pattern }),
            EntityType::Surface(s) => EntityType::Surface(Surface { common: c, ..*s }),
            EntityType::Other { entity_name, .. } => EntityType::Other { common: c, entity_name: *entity_name },
        }
    }

    /// The entity's common data.
    pub fn common(&self) -> (c: &EntityCommon)
        ensures
            *c == self.common_spec(),
    {
        match self {
            EntityType::Point(c) => c,
            EntityType::Line(c) => c,
            EntityType::Circle(c) => c,
            EntityType::Arc(c) => c,
            EntityType::Ellipse(c) => c,
            EntityType::Polyline(c) => c,
            EntityType::Polyline2D(c) => c,
            EntityType::Polyline3D(c) => c,
            EntityType::LwPolyline(c) => c,
            EntityType::Spline(c) => c,
            EntityType::Helix(c) => c,
            EntityType::Solid(c) => c,
            EntityType::Face3D(c) => c,
            EntityType::Ray(c) => c,
            EntityType::XLine(c) => c,
            EntityType::Mesh(c) => c,
            EntityType::PolyfaceMesh(c) => c,
            EntityType::Text(c) => c,
            EntityType::MText(c) => c,
            EntityType::Insert(c) => c,
            EntityType::Dimension(c) => c,
            EntityType::Hatch(h) => &h.common,
            EntityType::Surface(s) => &s.common,
            EntityType::Other { common, .. } => common,
        }
    }

    /// Mutable access to the entity's common data.
    pub fn common_mut(&mut self) -> (c: &mut EntityCommon)
        ensures
            *c == old(self).common_spec(),
            *final(self) == old(self).with_common(*final(c)),
    {
        match self {
            EntityType::Point(c) => c,
            EntityType::Line(c) => c,
            EntityType::Circle(c) => c,
            EntityType::Arc(c) => c,
            EntityType::Ellipse(c) => c,
            EntityType::Polyline(c) => c,
            EntityType::Polyline2D(c) => c,
            EntityType::Polyline3D(c) => c,
            EntityType::LwPolyline(c) => c,
            EntityType::Spline(c) => c,
            EntityType::Helix(c) => c,
            EntityType::Solid(c) => c,
            EntityType::Face3D(c) => c,
            EntityType::Ray(c) => c,
            EntityType::XLine(c) => c,
            EntityType::Mesh(c) => c,
            EntityType::PolyfaceMesh(c) => c,
            EntityType::Text(c) => c,
            EntityType::MText(c) => c,
            EntityType::Insert(c) => c,
            EntityType::Dimension(c) => c,
            EntityType::Hatch(h) => &mut h.common,
            EntityType::Surface(s) => &mut s.common,
            EntityType::Other { common, .. } => common,
        }
    }
}

} // verus!
