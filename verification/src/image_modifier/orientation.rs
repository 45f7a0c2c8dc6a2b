use vstd::prelude::*;

use crate::image_modifier::Modifier;
use crate::text::str_eq;

verus! {

/// Forces the working image into portrait or landscape orientation.
#[derive(Clone, Copy, PartialEq, Eq, Structural, Debug)]
pub struct OrientationModifier {
    pub portrait: bool,
}

/// Whether the step turns the image: only when the current orientation
/// (portrait means taller than wide) disagrees with the requested one.
pub open spec fn spec_rotates(portrait: bool, w: int, h: int) -> bool {
    (portrait && w > h) || (!portrait && h > w)
}

/// Edges after the step: a quarter turn swaps them (the rotation rule
/// of the pixel capability); a no-op keeps them.
pub open spec fn spec_oriented(portrait: bool, w: int, h: int) -> (int, int) {
    if spec_rotates(portrait, w, h) {
        (h, w)
    } else {
        (w, h)
    }
}

/// The orientation step settles after one application: running the
/// same step again on its own outcome changes nothing further.
pub proof fn lemma_orientation_idempotent(portrait: bool, w: int, h: int)
    ensures
        ({
            let (w1, h1) = spec_oriented(portrait, w, h);
            spec_oriented(portrait, w1, h1) == (w1, h1)
        }),
{
}

/// What an `oportrait` or `olandscape` token stands for.
pub open spec fn spec_evaluate(tok: Seq<char>) -> Option<Modifier> {
    if tok == "oportrait"@ || tok == "olandscape"@ {
        Some(Modifier::Orientation(OrientationModifier { portrait: tok == "oportrait"@ }))
    } else {
        None
    }
}

impl OrientationModifier {
    /// Recognizes the two orientation tokens.
    pub fn evaluate(opt: &str, _opts: &[&str]) -> (r: Option<Modifier>)
        ensures
            r == spec_evaluate(opt@),
    {
        if str_eq(opt, "oportrait") || str_eq(opt, "olandscape") {
            Some(Modifier::Orientation(OrientationModifier { portrait: str_eq(opt, "oportrait") }))
        } else {
            None
        }
    }
}

} // verus!
