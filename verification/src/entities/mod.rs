pub mod entity;
pub mod embedded_entity;
pub mod proxy_graphics;
pub mod proxy_graphics_laws;

pub use entity::{EntityCommon, EntityType, Hatch, HatchPattern, HatchPatternLine, Surface, SurfaceData};
