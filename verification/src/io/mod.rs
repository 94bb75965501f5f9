pub mod read;
pub mod extension_dictionary;
pub mod surface_history;
pub mod metadata_copy;
pub mod loft_parameters;
pub mod loft_surface_curves;
