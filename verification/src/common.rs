//! Response shapes shared by several commands.

pub mod image;
