use vstd::prelude::*;
use vstd::string::{StrSliceExecFns, StringExecFns};

use crate::error::AppError;
use crate::image_modifier::{blackandwhite, orientation, resize, scale, trim, Modifier};
use crate::image_processing::EncodeFormat;
use crate::text::{first_pos, lemma_first_pos_at, views_of};

verus! {

/// The option string split on `-`, empty pieces kept.
pub open spec fn split_dash(s: Seq<char>) -> Seq<Seq<char>>
    decreases s.len(),
{
    let i = first_pos(s, '-') as int;
    if i >= s.len() {
        seq![s]
    } else {
        seq![s.subrange(0, i)] + split_dash(s.subrange(i + 1, s.len() as int))
    }
}

/// Splitting off the piece before a first separator.
proof fn lemma_split_step(s: Seq<char>, start: int, i: int)
    requires
        0 <= start <= i < s.len(),
        forall|j: int| start <= j < i ==> s[j] != '-',
        s[i] == '-',
    ensures
        split_dash(s.subrange(start, s.len() as int)) == seq![s.subrange(start, i)]
            + split_dash(s.subrange(i + 1, s.len() as int)),
{
    let t = s.subrange(start, s.len() as int);
    assert forall|j: int| 0 <= j < i - start implies t[j] != '-' by {
        assert(t[j] == s[j + start]);
    }
    assert(t[i - start] == s[i]);
    lemma_first_pos_at(t, '-', i - start);
    assert(t.subrange(0, i - start) =~= s.subrange(start, i));
    assert(t.subrange(i - start + 1, t.len() as int) =~= s.subrange(i + 1, s.len() as int));
}

/// The last piece: no separator through the end.
proof fn lemma_split_last(s: Seq<char>, start: int)
    requires
        0 <= start <= s.len(),
        forall|j: int| start <= j < s.len() ==> s[j] != '-',
    ensures
        split_dash(s.subrange(start, s.len() as int)) == seq![s.subrange(start, s.len() as int)],
{
    let t = s.subrange(start, s.len() as int);
    assert forall|j: int| 0 <= j < t.len() implies t[j] != '-' by {
        assert(t[j] == s[j + start]);
    }
    lemma_first_pos_at(t, '-', t.len() as int);
}

/// Cuts the option string into its `-`-separated tokens.
fn tokenize<'a>(s: &'a str) -> (tokens: Vec<&'a str>)
    ensures
        views_of(tokens@) == split_dash(s@),
{
    let n = s.unicode_len();
    let mut tokens: Vec<&str> = Vec::new();
    let mut start: usize = 0;
    let mut i: usize = 0;
    proof {
        assert(s@.subrange(0, n as int) =~= s@);
        assert(views_of(tokens@) + split_dash(s@.subrange(0, n as int)) =~= split_dash(s@));
    }
    while i < n
        invariant
            start <= i <= n,
            n == s@.len(),
            views_of(tokens@) + split_dash(s@.subrange(start as int, n as int)) == split_dash(s@),
            forall|j: int| start <= j < i ==> s@[j] != '-',
        decreases n - i,
    {
        if s.get_char(i) == '-' {
            let ghost old_tokens = tokens@;
            let tok = s.substring_char(start, i);
            tokens.push(tok);
            proof {
                lemma_split_step(s@, start as int, i as int);
                assert(views_of(tokens@) =~= views_of(old_tokens) + seq![tok@]);
                assert(views_of(tokens@) + split_dash(s@.subrange(i + 1, n as int)) =~= split_dash(
                    s@,
                ));
            }
            start = i + 1;
        }
        i += 1;
    }
    let ghost old_tokens = tokens@;
    let tok = s.substring_char(start, n);
    tokens.push(tok);
    proof {
        lemma_split_last(s@, start as int);
        assert(views_of(tokens@) =~= views_of(old_tokens) + seq![tok@]);
        assert(views_of(tokens@) =~= split_dash(s@));
    }
    tokens
}

/// What one token stands for: the first recognizer that claims it
/// wins, in the fixed priority order orientation, black-and-white,
/// trim, scale, resize; a token claimed by none stands for nothing.
pub open spec fn spec_eval_token(tok: Seq<char>, toks: Seq<Seq<char>>) -> Option<Modifier> {
    if orientation::spec_evaluate(tok) is Some {
        orientation::spec_evaluate(tok)
    } else if blackandwhite::spec_evaluate(tok) is Some {
        blackandwhite::spec_evaluate(tok)
    } else if trim::spec_evaluate(tok) is Some {
        trim::spec_evaluate(tok)
    } else if scale::spec_evaluate(tok, toks) is Some {
        scale::spec_evaluate(tok, toks)
    } else {
        resize::spec_evaluate(tok)
    }
}

fn eval_token<'a>(opt: &str, opts: &[&'a str]) -> (r: Option<Modifier>)
    ensures
        r == spec_eval_token(opt@, views_of(opts@)),
{
    if let Some(m) = orientation::OrientationModifier::evaluate(opt, opts) {
        return Some(m);
    }
    if let Some(m) = blackandwhite::BlackAndWhiteModifier::evaluate(opt, opts) {
        return Some(m);
    }
    if let Some(m) = trim::TrimModifier::evaluate(opt, opts) {
        return Some(m);
    }
    if let Some(m) = scale::ScaleModifier::evaluate(opt, opts) {
        return Some(m);
    }
    resize::ResizeModifier::evaluate(opt, opts)
}

/// The steps the first `n` tokens produce, kept in token order.
pub open spec fn spec_eval_prefix(toks: Seq<Seq<char>>, n: int) -> Seq<Modifier>
    decreases n,
{
    if n <= 0 {
        Seq::empty()
    } else {
        spec_eval_prefix(toks, n - 1) + match spec_eval_token(toks[n - 1], toks) {
            Some(m) => seq![m],
            None => Seq::empty(),
        }
    }
}

/// The ordered step list an option string stands for.
pub open spec fn spec_parse_options(s: Seq<char>) -> Seq<Modifier> {
    spec_eval_prefix(split_dash(s), split_dash(s).len() as int)
}

/// Turns a `-`-separated option string into its ordered step list;
/// unrecognized tokens are dropped without error.
pub fn parse_options(option_string: &str) -> (mods: Vec<Modifier>)
    ensures
        mods@ == spec_parse_options(option_string@),
{
    let tokens = tokenize(option_string);
    let ghost toks = views_of(tokens@);
    let mut mods: Vec<Modifier> = Vec::new();
    let mut k: usize = 0;
    while k < tokens.len()
        invariant
            k <= tokens.len(),
            toks == views_of(tokens@),
            toks == split_dash(option_string@),
            mods@ == spec_eval_prefix(toks, k as int),
        decreases tokens.len() - k,
    {
        let opt: &str = tokens[k];
        let r = eval_token(opt, tokens.as_slice());
        proof {
            assert(toks[k as int] == opt@);
        }
        let ghost old_mods = mods@;
        match r {
            Some(m) => {
                mods.push(m);
                proof {
                    assert(mods@ =~= old_mods + seq![m]);
                }
            },
            None => {
                proof {
                    assert(mods@ =~= old_mods + Seq::<Modifier>::empty());
                }
            },
        }
        k += 1;
    }
    mods
}

/// Everything the single-URI flow runs after its decisions: the
/// downloaded source, the step list, and the fixed encoding.
pub struct ScalePlan {
    pub data: Vec<u8>,
    pub modifiers: Vec<Modifier>,
    pub encode: EncodeFormat,
}

/// The decisions of the single-URI scale flow, given what the storage
/// download returned: a missing source ends in not-found before any
/// parsing; an option string with no recognized token ends in a
/// server-side failure; otherwise the flow runs the parsed steps and
/// encodes JPEG at the fixed quality.
pub fn scale_begin(source: Option<Vec<u8>>, options: &str) -> (r: Result<ScalePlan, AppError>)
    ensures
        source is None <==> (r is Err && r->Err_0 is NotFound),
        (source is Some && spec_parse_options(options@).len() == 0) ==> (r is Err && (r->Err_0
            matches AppError::InternalServerError(m) && m@ == "no valid options provided"@)),
        (source is Some && spec_parse_options(options@).len() > 0) ==> (r matches Ok(p) && p.data
            == source->0 && p.modifiers@ == spec_parse_options(options@) && p.encode == (
        EncodeFormat::Jpeg { quality: 80 })),
{
    match source {
        None => Err(AppError::NotFound),
        Some(data) => {
            let modifiers = parse_options(options);
            if modifiers.len() == 0 {
                Err(
                    AppError::InternalServerError(
                        String::from_str("no valid options provided"),
                    ),
                )
            } else {
                Ok(ScalePlan { data, modifiers, encode: EncodeFormat::Jpeg { quality: 80 } })
            }
        },
    }
}

/// Parsing is deterministic: the step list is a function of the option
/// string alone, so equal strings always stand for equal step lists.
pub proof fn lemma_parse_options_deterministic(a: Seq<char>, b: Seq<char>)
    requires
        a == b,
    ensures
        spec_parse_options(a) == spec_parse_options(b),
{
}

proof fn lemma_eval_prefix_no_environment(toks: Seq<Seq<char>>, n: int, i: int)
    requires
        0 <= i < spec_eval_prefix(toks, n).len(),
    ensures
        !(spec_eval_prefix(toks, n)[i] is Environment),
    decreases n,
{
    let pre = spec_eval_prefix(toks, n - 1);
    if i < pre.len() {
        lemma_eval_prefix_no_environment(toks, n - 1, i);
    }
}

/// The grammar yields token-backed steps only: a parse never carries
/// an environment composite, so the single-URI flow needs no
/// background image.
pub proof fn lemma_parse_options_no_environment(s: Seq<char>, i: int)
    requires
        0 <= i < spec_parse_options(s).len(),
    ensures
        !(spec_parse_options(s)[i] is Environment),
{
    let toks = split_dash(s);
    lemma_eval_prefix_no_environment(toks, toks.len() as int, i);
}

/// The margin a token set carries never leaves the positive `i32`
/// range.
proof fn lemma_margin_range(toks: Seq<Seq<char>>)
    ensures
        0 <= scale::spec_margin_of(toks) <= i32::MAX as int,
    decreases toks.len(),
{
    if toks.len() > 0 {
        lemma_margin_range(toks.drop_first());
    }
}

proof fn lemma_eval_prefix_scale_margin(toks: Seq<Seq<char>>, n: int, i: int)
    requires
        0 <= i < spec_eval_prefix(toks, n).len(),
        spec_eval_prefix(toks, n)[i] is Scale,
    ensures
        spec_eval_prefix(toks, n)[i]->Scale_0.margin_percentage as int == scale::spec_margin_of(
            toks,
        ),
    decreases n,
{
    let pre = spec_eval_prefix(toks, n - 1);
    if i < pre.len() {
        lemma_eval_prefix_scale_margin(toks, n - 1, i);
    } else {
        lemma_margin_range(toks);
    }
}

/// Every scale step of a parse carries the margin of the whole token
/// set: where a margin token stands relative to the scale token
/// changes nothing.
pub proof fn lemma_scale_margin_uniform(s: Seq<char>, i: int)
    requires
        0 <= i < spec_parse_options(s).len(),
        spec_parse_options(s)[i] is Scale,
    ensures
        spec_parse_options(s)[i]->Scale_0.margin_percentage as int == scale::spec_margin_of(
            split_dash(s),
        ),
{
    let toks = split_dash(s);
    lemma_eval_prefix_scale_margin(toks, toks.len() as int, i);
}

} // verus!
