//! Texts of tokens: putting pieces side by side with single spaces between
//! them.

use vstd::prelude::*;
use vstd::string::*;
use crate::syntax::views;

verus! {

/// Appends one character to a string.
///
/// Trusted: `String::push` of the standard library, which writes `c` after
/// the characters already held.
#[verifier::external_body]
pub(crate) fn push_char(out: &mut String, c: char)
    ensures
        final(out)@ == old(out)@.push(c),
{
    out.push(c)
}

/// Tells whether two texts are the same.
pub fn str_eq(a: &str, b: &str) -> (r: bool)
    ensures
        r == (a@ == b@),
{
    String::from_str(a) == String::from_str(b)
}

/// Two texts placed side by side as tokens: a single space separates them
/// when neither is empty.
pub open spec fn spaced(a: Seq<char>, b: Seq<char>) -> Seq<char> {
    if a.len() == 0 {
        b
    } else if b.len() == 0 {
        a
    } else {
        a + seq![' '] + b
    }
}

/// Appends `piece` to `out` as a further token.
pub fn push_piece(out: &mut String, piece: &str)
    ensures
        final(out)@ == spaced(old(out)@, piece@),
{
    if piece.is_empty() {
        return ;
    }
    if out.as_str().is_empty() {
        out.append(piece);
        assert(out@ =~= piece@);
    } else {
        push_char(out, ' ');
        out.append(piece);
    }
}

/// Appends every character of `chars` to `out`, in order.
pub fn push_all(out: &mut String, chars: &Vec<char>)
    ensures
        final(out)@ == old(out)@ + chars@,
{
    let mut i: usize = 0;
    while i < chars.len()
        invariant
            i <= chars.len(),
            out@ == old(out)@ + chars@.subrange(0, i as int),
        decreases chars.len() - i,
    {
        push_char(out, chars[i]);
        assert(chars@.subrange(0, i + 1) =~= chars@.subrange(0, i as int).push(chars@[i as int]));
        i += 1;
    }
    assert(chars@.subrange(0, chars@.len() as int) =~= chars@);
}

/// The pieces of a list placed side by side as tokens.
pub open spec fn join(pieces: Seq<Seq<char>>) -> Seq<char>
    decreases pieces.len(),
{
    if pieces.len() == 0 {
        Seq::empty()
    } else {
        spaced(join(pieces.drop_last()), pieces.last())
    }
}

/// Joins the pieces of a list into one text.
pub fn join_pieces(pieces: &Vec<String>) -> (out: String)
    ensures
        out@ == join(views(pieces@)),
{
    let mut out = String::new();
    let mut i: usize = 0;
    assert(views(pieces@).subrange(0, 0) =~= Seq::<Seq<char>>::empty());
    while i < pieces.len()
        invariant
            i <= pieces.len(),
            out@ == join(views(pieces@).subrange(0, i as int)),
        decreases pieces.len() - i,
    {
        let ghost before = views(pieces@).subrange(0, i as int);
        let ghost after = views(pieces@).subrange(0, i + 1);
        assert(after.drop_last() =~= before);
        assert(after.last() == pieces@[i as int]@);
        push_piece(&mut out, pieces[i].as_str());
        i += 1;
    }
    assert(views(pieces@).subrange(0, pieces@.len() as int) =~= views(pieces@));
    out
}

/// A copy of a text.
pub fn copy_text(text: &str) -> (out: String)
    ensures
        out@ == text@,
{
    String::from_str(text)
}

} // verus!
