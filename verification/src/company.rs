//! Commands on company resources.

pub mod alternative_names;
