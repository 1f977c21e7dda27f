//! What a package for a display is made of, as far as it can be said
//! without files and without floating point.
pub mod display;
pub mod eram;
pub mod position;
pub mod symbol;
