//! Sealed and unsealed secrets, their canonical text form, and the
//! configuration document that names the users who exchange them.

pub mod config;
pub mod vault;
