//! What each command of the operator asks for.

pub mod cluster;
pub mod generate;
