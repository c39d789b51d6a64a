//! Utilities for building safe file-system path components.

use vstd::prelude::*;

verus! {

/// A character that may appear unchanged in a path component:
/// ASCII letters, digits, `-`, `_` and `.`.
pub open spec fn is_safe_path_char(c: char) -> bool {
    ||| ('a' as u32) <= (c as u32) && (c as u32) <= ('z' as u32)
    ||| ('A' as u32) <= (c as u32) && (c as u32) <= ('Z' as u32)
    ||| ('0' as u32) <= (c as u32) && (c as u32) <= ('9' as u32)
    ||| c == '-'
    ||| c == '_'
    ||| c == '.'
}

/// What one character of the input becomes in the sanitized output.
pub open spec fn sanitized_char(c: char) -> char {
    if is_safe_path_char(c) {
        c
    } else {
        '_'
    }
}

/// Appends one character to a string.
/// Relies on `String::push` from std: it appends exactly that character.
#[verifier::external_body]
fn push_char(s: &mut String, c: char)
    ensures
        final(s)@ == old(s)@.push(c),
{
    s.push(c);
}

/// Sanitizes a string for safe use as a single path component: every
/// character other than an ASCII letter, a digit, `-`, `_` or `.` is
/// replaced by `_`; the rest are kept in place.
pub fn sanitize_path_component(component: &str) -> (result: String)
    ensures
        result@ == component@.map_values(|c: char| sanitized_char(c)),
{
    let n = component.unicode_len();
    let mut out = String::from_str("");
    proof {
        reveal_strlit("");
        assert(out@ =~= component@.subrange(0, 0).map_values(|c: char| sanitized_char(c)));
    }
    let mut i: usize = 0;
    while i < n
        invariant
            n == component@.len(),
            i <= n,
            out@ == component@.subrange(0, i as int).map_values(|c: char| sanitized_char(c)),
        decreases n - i,
    {
        let c = component.get_char(i);
        let u = c as u32;
        let keep = (97 <= u && u <= 122) || (65 <= u && u <= 90) || (48 <= u && u <= 57) || c == '-'
            || c == '_' || c == '.';
        let mapped = if keep {
            c
        } else {
            '_'
        };
        proof {
            assert(mapped == sanitized_char(c));
        }
        push_char(&mut out, mapped);
        i = i + 1;
        proof {
            assert(out@ =~= component@.subrange(0, i as int).map_values(
                |ch: char| sanitized_char(ch),
            ));
        }
    }
    proof {
        assert(component@.subrange(0, n as int) =~= component@);
    }
    out
}

} // verus!
