pub mod dictionary;
pub mod solid_history;
pub mod xrecord;
pub mod xrecord_laws;
pub mod xrecord_kinds;
