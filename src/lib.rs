//! A markup attribute: its qualified identity, its typed value, and the
//! protocol by which a change of value is reported to the owning element.
pub mod atom;
pub mod tokens;
pub mod value;
pub mod attr;
pub mod laws;

