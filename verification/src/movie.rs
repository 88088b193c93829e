//! Commands on movie resources.

pub mod images;
