use vstd::prelude::*;

pub mod types;
pub mod text;
pub mod objects;
pub mod entities;
pub mod document;
pub mod drawing_variables;
pub mod xdata;
pub mod hatch_origin;
pub mod tables;
pub mod notification;
pub mod io;
pub mod nested_copy;
pub mod localize;
pub mod localize_laws;
