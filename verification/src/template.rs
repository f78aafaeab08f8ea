//! The template renderer: substitutes `{{key}}` placeholders inside a string
//! with string values looked up in a JSON context.  Rendering fails when a
//! placeholder is unterminated or its key is missing from the context (or is
//! not a string there); the original string is never mutated.

use crate::json::{get_spec, Json, JsonV};
use vstd::prelude::*;
use vstd::string::StrSliceExecFns;
use vstd::string::StringExecFns;

verus! {

/// Appends one character to `s`.
///
/// Relies on `String::push`: appends the given `char` to the end of this
/// `String`.
#[verifier::external_body]
fn push_char(s: &mut String, c: char)
    ensures
        final (s)@ == old(s)@.push(c),
{
    s.push(c);
}

/// Index of the first `}}` in `s`, if any.
pub open spec fn find_close_v(s: Seq<char>) -> Option<int>
    decreases s.len(),
{
    if s.len() < 2 {
        None
    } else if s[0] == '}' && s[1] == '}' {
        Some(0)
    } else {
        match find_close_v(s.skip(1)) {
            Some(k) => Some(k + 1),
            None => None,
        }
    }
}

/// What rendering `s` against the context `ctx` yields: every `{{key}}` is
/// replaced by the string value of `key` in `ctx`; `None` when a placeholder
/// is unterminated, its key is absent, or the keyed value is not a string.
pub open spec fn render_v(s: Seq<char>, ctx: JsonV) -> Option<Seq<char>>
    decreases s.len(),
{
    if s.len() == 0 {
        Some(Seq::empty())
    } else if s.len() >= 2 && s[0] == '{' && s[1] == '{' {
        let rest = s.skip(2);
        match find_close_v(rest) {
            Some(k) => if 0 <= k && k + 2 <= rest.len() {
                match get_spec(ctx, rest.subrange(0, k)) {
                    Some(JsonV::Str(val)) => match render_v(rest.skip(k + 2), ctx) {
                        Some(t) => Some(val + t),
                        None => None,
                    },
                    _ => None,
                }
            } else {
                None
            },
            None => None,
        }
    } else {
        match render_v(s.skip(1), ctx) {
            Some(t) => Some(seq![s[0]] + t),
            None => None,
        }
    }
}

/// Rendering failed: an unterminated placeholder, or a key with no string
/// value in the context.
#[derive(Debug, PartialEq, Eq)]
pub struct RenderError;

/// Index of the first `}}` in `s`, if any.
fn find_close(s: &str) -> (r: Option<usize>)
    ensures
        match r {
            Some(k) => find_close_v(s@) == Some(k as int) && k + 2 <= s@.len(),
            None => find_close_v(s@) is None,
        },
    decreases s@.len(),
{
    let n = s.unicode_len();
    if n < 2 {
        None
    } else if s.get_char(0) == '}' && s.get_char(1) == '}' {
        Some(0)
    } else {
        let rest = s.substring_char(1, n);
        match find_close(rest) {
            Some(k) => Some(k + 1),
            None => None,
        }
    }
}

/// Renders `s` against the context `ctx`, replacing each `{{key}}` with the
/// string value of `key` in `ctx`.
pub fn render_str(s: &str, ctx: &Json) -> (r: Result<String, RenderError>)
    ensures
        match r {
            Ok(out) => render_v(s@, ctx@) == Some(out@),
            Err(_) => render_v(s@, ctx@) is None,
        },
    decreases s@.len(),
{
    let n = s.unicode_len();
    if n == 0 {
        let out = String::new();
        proof {
            assert(out@ =~= Seq::<char>::empty());
        }
        Ok(out)
    } else if n >= 2 && s.get_char(0) == '{' && s.get_char(1) == '{' {
        let rest = s.substring_char(2, n);
        match find_close(rest) {
            Some(k) => {
                let key = rest.substring_char(0, k);
                match ctx.get(&String::from_str(key)) {
                    Some(Json::Str(val)) => {
                        let tail = match render_str(rest.substring_char(k + 2, n - 2), ctx) {
                            Ok(t) => t,
                            Err(e) => {
                                return Err(e);
                            },
                        };
                        let out = String::from_str(val.as_str()).concat(tail.as_str());
                        Ok(out)
                    },
                    _ => Err(RenderError),
                }
            },
            None => Err(RenderError),
        }
    } else {
        let c = s.get_char(0);
        let tail = match render_str(s.substring_char(1, n), ctx) {
            Ok(t) => t,
            Err(e) => {
                return Err(e);
            },
        };
        let mut out = String::new();
        push_char(&mut out, c);
        let out = out.concat(tail.as_str());
        proof {
            assert(out@ =~= seq![s@[0]] + tail@);
        }
        Ok(out)
    }
}

} // verus!
