use vstd::math::{max, min};
use vstd::prelude::*;
use vstd::slice::slice_index_get;
use vstd::string::StrSliceExecFns;

use crate::geometry::Aspect;
use crate::image_modifier::Modifier;
use crate::text::{
    first_pos, lemma_first_pos, parse_decimal, spec_parse_decimal, views_of,
};

verus! {

/// Scales the working image to a target shape with an optional margin,
/// then centres it on a matching canvas.
#[derive(Clone, Copy, PartialEq, Eq, Structural, Debug)]
pub struct ScaleModifier {
    pub aspect: Aspect,
    pub margin_percentage: i32,
    pub size: Option<i32>,
    pub crop: bool,
}

impl ScaleModifier {
    pub fn new(aspect: Aspect, margin_percentage: i32, size: Option<i32>, crop: bool) -> (r:
        ScaleModifier)
        ensures
            r == (ScaleModifier { aspect, margin_percentage, size, crop }),
    {
        ScaleModifier { aspect, margin_percentage, size, crop }
    }

    /// Recognizes a scale token, binding the margin from the whole
    /// token set.
    pub fn evaluate<'a>(opt: &str, opts: &[&'a str]) -> (r: Option<Modifier>)
        ensures
            r == spec_evaluate(opt@, views_of(opts@)),
    {
        let n = opt.unicode_len();
        if n < 1 || opt.get_char(0) != 's' {
            return None;
        }
        let fx = find_x(opt);
        if fx >= n {
            return None;
        }
        proof {
            lemma_first_pos(opt@, 'x');
        }
        let w = parse_decimal(opt, 1, fx);
        let h = parse_decimal(opt, fx + 1, n);
        match (w, h) {
            (Some(wv), Some(hv)) => {
                let a = crate::geometry::aspect(wv, hv);
                let m = margin_of(opts);
                Some(
                    Modifier::Scale(
                        ScaleModifier {
                            aspect: a,
                            margin_percentage: m,
                            size: None,
                            crop: true,
                        },
                    ),
                )
            },
            _ => None,
        }
    }
}

fn find_x(opt: &str) -> (r: usize)
    ensures
        r == first_pos(opt@, 'x'),
        r <= opt@.len(),
{
    proof {
        assert(opt@.subrange(0, opt@.len() as int) =~= opt@);
    }
    crate::text::find_from(opt, 0, 'x')
}

/// Shape of a scale token: `s`, digits, `x`, digits, both numbers in
/// range; the numbers themselves otherwise carry no order.
pub open spec fn spec_scale_token(tok: Seq<char>) -> Option<(i32, i32)> {
    if tok.len() >= 1 && tok[0] == 's' {
        let fx = first_pos(tok, 'x') as int;
        if fx < tok.len() {
            match (
                spec_parse_decimal(tok.subrange(1, fx)),
                spec_parse_decimal(tok.subrange(fx + 1, tok.len() as int)),
            ) {
                (Some(w), Some(h)) => Some((w, h)),
                _ => None,
            }
        } else {
            None
        }
    } else {
        None
    }
}

/// A margin token: `m` and digits, with the value in range.
pub open spec fn spec_margin_token(tok: Seq<char>) -> Option<i32> {
    if tok.len() >= 1 && tok[0] == 'm' {
        spec_parse_decimal(tok.subrange(1, tok.len() as int))
    } else {
        None
    }
}

/// The margin percentage the whole token set carries: the value of its
/// first margin token, zero without one.
pub open spec fn spec_margin_of(toks: Seq<Seq<char>>) -> int
    decreases toks.len(),
{
    if toks.len() == 0 {
        0
    } else {
        match spec_margin_token(toks[0]) {
            Some(v) => v as int,
            None => spec_margin_of(toks.drop_first()),
        }
    }
}

/// Scans the token set for its first margin token.
pub fn margin_of(opts: &[&str]) -> (r: i32)
    ensures
        r as int == spec_margin_of(views_of(opts@)),
{
    let ghost vs = views_of(opts@);
    proof {
        assert(vs.skip(0) =~= vs);
    }
    let n = opts.len();
    let mut k: usize = 0;
    while k < n
        invariant
            k <= n,
            n == opts@.len(),
            vs == views_of(opts@),
            spec_margin_of(vs) == spec_margin_of(vs.skip(k as int)),
        decreases n - k,
    {
        let o: &str = *slice_index_get(opts, k);
        let on = o.unicode_len();
        proof {
            assert(vs.skip(k as int)[0] == o@);
        }
        if on >= 1 {
            if o.get_char(0) == 'm' {
                if let Some(mv) = parse_decimal(o, 1, on) {
                    return mv;
                }
            }
        }
        proof {
            assert(spec_margin_token(vs.skip(k as int)[0]) is None);
            assert(vs.skip(k as int).drop_first() =~= vs.skip(k as int + 1));
        }
        k += 1;
    }
    proof {
        assert(vs.skip(n as int) =~= Seq::empty());
    }
    0
}

/// What a scale token stands for: the shape of the given pair, the
/// token set's margin, cropping on, no configured size.
pub open spec fn spec_evaluate(tok: Seq<char>, toks: Seq<Seq<char>>) -> Option<Modifier> {
    match spec_scale_token(tok) {
        Some((w, h)) => Some(
            Modifier::Scale(
                ScaleModifier {
                    aspect: Aspect {
                        num: max(w as int, h as int) as u32,
                        den: min(w as int, h as int) as u32,
                    },
                    margin_percentage: spec_margin_of(toks) as i32,
                    size: None,
                    crop: true,
                },
            ),
        ),
        None => None,
    }
}

} // verus!
