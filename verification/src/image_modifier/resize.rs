use vstd::prelude::*;
use vstd::string::StrSliceExecFns;

use crate::image_modifier::Modifier;
use crate::text::{parse_decimal, spec_parse_decimal};

verus! {

/// Resizes the working image to a given width or height, deriving the
/// other edge from the source shape, never cropping.
#[derive(Clone, Copy, PartialEq, Eq, Structural, Debug)]
pub struct ResizeModifier {
    pub height: bool,
    pub pixels: i32,
}

/// What an `rw` or `rh` token stands for.
pub open spec fn spec_evaluate(tok: Seq<char>) -> Option<Modifier> {
    if tok.len() >= 2 && tok[0] == 'r' && (tok[1] == 'w' || tok[1] == 'h') {
        match spec_parse_decimal(tok.subrange(2, tok.len() as int)) {
            Some(v) => Some(Modifier::Resize(ResizeModifier { height: tok[1] == 'h', pixels: v })),
            None => None,
        }
    } else {
        None
    }
}

impl ResizeModifier {
    /// Recognizes a resize token.
    pub fn evaluate(opt: &str, _opts: &[&str]) -> (r: Option<Modifier>)
        ensures
            r == spec_evaluate(opt@),
    {
        let n = opt.unicode_len();
        if n < 2 || opt.get_char(0) != 'r' {
            return None;
        }
        let dim = opt.get_char(1);
        if dim != 'w' && dim != 'h' {
            return None;
        }
        match parse_decimal(opt, 2, n) {
            Some(v) => Some(Modifier::Resize(ResizeModifier { height: dim == 'h', pixels: v })),
            None => None,
        }
    }
}

} // verus!
