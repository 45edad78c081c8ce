//! The names of the generated items: the PascalCase form of the name of an
//! operation.

use vstd::prelude::*;
use vstd::string::*;
use crate::text::{push_all, push_char};

verus! {

/// The uppercase mapping of a character: the characters that
/// `char::to_uppercase` yields for it.
pub uninterp spec fn char_uppercase(c: char) -> Seq<char>;

/// Trusted: `char::to_uppercase` of the standard library, collected into a
/// vector. The mapping is fixed by the Unicode character database and does
/// not depend on a locale.
#[verifier::external_body]
pub(crate) fn uppercase_of(c: char) -> (r: Vec<char>)
    ensures
        r@ == char_uppercase(c),
{
    c.to_uppercase().collect()
}

/// The state of the PascalCase scan after the first `n` characters of `s`:
/// what has been written, and whether the next character starts a word.
///
/// An underscore is dropped and makes the next character start a word; a
/// character that starts a word is replaced by its uppercase mapping; every
/// other character is copied.
pub open spec fn pascal_scan(s: Seq<char>, n: nat) -> (Seq<char>, bool)
    decreases n,
{
    if n == 0 {
        (Seq::empty(), true)
    } else {
        let before = pascal_scan(s, (n - 1) as nat);
        let c = s[n - 1];
        if c == '_' {
            (before.0, true)
        } else if before.1 {
            (before.0 + char_uppercase(c), false)
        } else {
            (before.0.push(c), false)
        }
    }
}

/// The PascalCase form of an identifier.
pub open spec fn pascal_case(s: Seq<char>) -> Seq<char> {
    pascal_scan(s, s.len()).0
}

/// Derives the PascalCase form of `s`: `by_ref_default` becomes
/// `ByRefDefault`.
pub fn to_pascal_case(s: &str) -> (result: String)
    ensures
        result@ == pascal_case(s@),
{
    let mut result = String::new();
    let mut upper = true;
    let n = s.unicode_len();
    let mut i: usize = 0;
    while i < n
        invariant
            n == s@.len(),
            i <= n,
            (result@, upper) == pascal_scan(s@, i as nat),
        decreases n - i,
    {
        let c = s.get_char(i);
        if c == '_' {
            upper = true;
        } else if upper {
            let mapped = uppercase_of(c);
            push_all(&mut result, &mapped);
            upper = false;
        } else {
            push_char(&mut result, c);
        }
        i += 1;
    }
    result
}

proof fn lemma_scan_after_underscore(s: Seq<char>, n: nat)
    requires
        n <= s.len(),
    ensures
        pascal_scan(seq!['_'] + s, n + 1) == pascal_scan(s, n),
    decreases n,
{
    let t = seq!['_'] + s;
    if n == 0 {
        assert(pascal_scan(t, 0) == (Seq::<char>::empty(), true));
        assert(t[0] == '_');
    } else {
        lemma_scan_after_underscore(s, (n - 1) as nat);
        assert(t[n as int] == s[n - 1]);
    }
}

/// The PascalCase form does not tell names apart: a name and the same name
/// after an underscore have one form. Operations with such names get member
/// types of the same name, and nothing detects it.
pub proof fn law_names_collide(s: Seq<char>)
    ensures
        pascal_case(seq!['_'] + s) == pascal_case(s),
        seq!['_'] + s != s,
{
    lemma_scan_after_underscore(s, s.len());
    assert((seq!['_'] + s).len() == s.len() + 1);
}

} // verus!
