//! The image record that picture-listing endpoints return.

use vstd::prelude::*;

verus! {

/// One image attached to a resource.
///
/// The upstream schema also carries two fractional fields, the aspect
/// ratio and the vote average; they are floating-point values and stay
/// outside this library.
#[derive(Clone, Debug)]
pub struct Image {
    /// Path of the image file on the image host.
    pub file_path: String,
    /// Height of the image in pixels.
    pub height: u64,
    /// Width of the image in pixels.
    pub width: u64,
    /// ISO 639-1 language code of the image, when it carries text.
    pub iso_639_1: Option<String>,
    /// Number of votes cast on the image.
    pub vote_count: u64,
}

} // verus!
