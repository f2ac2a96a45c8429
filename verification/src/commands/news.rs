//! The news feed's images: fetched here and served inline, within a
//! limit, and a failed image never takes its post down with it.

use vstd::prelude::*;

verus! {

/// What to do with a post's image, given how many were already fetched.
#[derive(Debug, Clone, Copy, PartialEq, Eq, Structural)]
pub enum ImageStep {
    /// The post has no image: nothing to do.
    Nothing,
    /// The limit is reached: the post goes without its illustration.
    Drop,
    /// Fetch it.
    Fetch,
}

/// What to do with a post's image.
pub fn image_step(has_image: bool, fetched: usize, max: usize) -> (r: ImageStep)
    ensures
        r == if !has_image {
            ImageStep::Nothing
        } else if fetched >= max {
            ImageStep::Drop
        } else {
            ImageStep::Fetch
        },
{
    if !has_image {
        ImageStep::Nothing
    } else if fetched >= max {
        ImageStep::Drop
    } else {
        ImageStep::Fetch
    }
}

/// The image a post keeps once the fetch is over, and the new count: the
/// inline data when fetching and reading it worked, none otherwise.
pub fn after_fetch(fetched: usize, max: usize, data: Option<String>) -> (r: (
    Option<String>,
    usize,
))
    requires
        fetched < max,
    ensures
        r.0 == data,
        r.1 == if data is Some {
            fetched + 1
        } else {
            fetched as int
        },
        r.1 <= max,
{
    match data {
        Some(d) => (Some(d), fetched + 1),
        None => (None, fetched),
    }
}

} // verus!
