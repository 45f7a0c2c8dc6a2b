use vstd::prelude::*;

use crate::image_modifier::Modifier;
use crate::text::str_eq;

verus! {

/// Cuts away the border of the working image that matches a background
/// tone, keeping the trimmed bounding box.
#[derive(Clone, Copy, PartialEq, Debug)]
pub struct TrimModifier {
    pub background: (u8, u8, u8),
}

impl TrimModifier {
    pub fn new(background: (u8, u8, u8)) -> (r: TrimModifier)
        ensures
            r.background == background,
    {
        TrimModifier { background }
    }

    /// Recognizes the trim token.
    pub fn evaluate(opt: &str, _opts: &[&str]) -> (r: Option<Modifier>)
        ensures
            r == spec_evaluate(opt@),
    {
        if str_eq(opt, "tr") {
            Some(Modifier::Trim(TrimModifier { background: (255, 255, 255) }))
        } else {
            None
        }
    }
}

/// What a `tr` token stands for: trimming against a white background.
pub open spec fn spec_evaluate(tok: Seq<char>) -> Option<Modifier> {
    if tok == "tr"@ {
        Some(Modifier::Trim(TrimModifier { background: (255, 255, 255) }))
    } else {
        None
    }
}

} // verus!
