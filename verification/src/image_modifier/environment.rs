use std::sync::Arc;
use vstd::prelude::*;

verus! {

/// Where and how large the subject sits when composited over a
/// background image.
#[derive(Clone, Copy, PartialEq, Eq, Structural, Debug)]
pub struct EnvironmentOptions {
    pub width: i32,
    pub height: i32,
    pub x: i32,
    pub y: i32,
    pub margin_percent: i32,
}

/// Composites the working image over a prefetched background image.
#[derive(Debug, Clone, PartialEq)]
pub struct EnvironmentModifier {
    pub env_image: Arc<Vec<u8>>,
    pub opts: EnvironmentOptions,
}

impl EnvironmentModifier {
    pub fn new(env_image: Arc<Vec<u8>>, opts: EnvironmentOptions) -> (r: EnvironmentModifier)
        ensures
            r.env_image == env_image,
            r.opts == opts,
    {
        EnvironmentModifier { env_image, opts }
    }
}

} // verus!
