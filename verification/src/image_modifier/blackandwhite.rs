use vstd::prelude::*;

use crate::image_modifier::Modifier;
use crate::text::str_eq;

verus! {

/// Desaturates the working image.
#[derive(Clone, Copy, PartialEq, Eq, Structural, Debug)]
pub struct BlackAndWhiteModifier;

/// What a `bw` token stands for.
pub open spec fn spec_evaluate(tok: Seq<char>) -> Option<Modifier> {
    if tok == "bw"@ {
        Some(Modifier::BlackAndWhite(BlackAndWhiteModifier))
    } else {
        None
    }
}

impl BlackAndWhiteModifier {
    /// Recognizes the black-and-white token.
    pub fn evaluate(opt: &str, _opts: &[&str]) -> (r: Option<Modifier>)
        ensures
            r == spec_evaluate(opt@),
    {
        if str_eq(opt, "bw") {
            Some(Modifier::BlackAndWhite(BlackAndWhiteModifier))
        } else {
            None
        }
    }
}

} // verus!
