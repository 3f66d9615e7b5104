//! Validity of the names that the generated code declares.
//!
//! Every name that the generator writes into the output — the constant
//! names, the two accessor names, the variant names — must be usable as an
//! identifier there. The check accepts the ASCII identifier shape: a letter
//! or an underscore followed by letters, digits and underscores, and not a
//! lone underscore. Keywords are not screened out; a name that collides
//! with one is reported by the compiler of the generated code.

use vstd::prelude::*;

verus! {

/// A character that may begin an identifier: an ASCII letter or `_`.
pub open spec fn is_ident_start(c: char) -> bool {
    ('a' as u32 <= c as u32 && c as u32 <= 'z' as u32) || ('A' as u32 <= c as u32 && c as u32
        <= 'Z' as u32) || c == '_'
}

/// A character that may continue an identifier: a start character or an
/// ASCII digit.
pub open spec fn is_ident_continue(c: char) -> bool {
    is_ident_start(c) || ('0' as u32 <= c as u32 && c as u32 <= '9' as u32)
}

/// The names accepted by the generator: nonempty, of identifier characters,
/// opening with a letter or an underscore, and not `_` alone.
pub open spec fn is_valid_ident(s: Seq<char>) -> bool {
    &&& s.len() > 0
    &&& is_ident_start(s[0])
    &&& forall|i: int| 1 <= i < s.len() ==> is_ident_continue(#[trigger] s[i])
    &&& !(s.len() == 1 && s[0] == '_')
}

fn ident_start_char(c: char) -> (r: bool)
    ensures
        r == is_ident_start(c),
{
    let u = c as u32;
    ('a' as u32 <= u && u <= 'z' as u32) || ('A' as u32 <= u && u <= 'Z' as u32) || c == '_'
}

fn ident_continue_char(c: char) -> (r: bool)
    ensures
        r == is_ident_continue(c),
{
    let u = c as u32;
    ident_start_char(c) || ('0' as u32 <= u && u <= '9' as u32)
}

/// Decides [`is_valid_ident`] for a string.
pub fn check_ident(s: &str) -> (r: bool)
    ensures
        r == is_valid_ident(s@),
{
    let n = s.unicode_len();
    if n == 0 {
        return false;
    }
    let first = s.get_char(0);
    if !ident_start_char(first) {
        return false;
    }
    if n == 1 && first == '_' {
        return false;
    }
    let mut i: usize = 1;
    while i < n
        invariant
            1 <= i <= n,
            n == s@.len(),
            is_ident_start(s@[0]),
            !(s@.len() == 1 && s@[0] == '_'),
            forall|j: int| 1 <= j < i ==> is_ident_continue(#[trigger] s@[j]),
        decreases n - i,
    {
        let c = s.get_char(i);
        if !ident_continue_char(c) {
            return false;
        }
        i += 1;
    }
    true
}

} // verus!
