//! Rules shared by several domains of the tactical layer.

pub mod collision;
