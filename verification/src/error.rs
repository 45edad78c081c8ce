//! The errors of the parsers.

use vstd::prelude::*;
use vstd::string::*;

verus! {

/// Why a text was not accepted.
#[derive(Clone, Copy, PartialEq, Eq, Structural, Debug)]
pub enum ParseErrorKind {
    /// The text is no sequence of tokens.
    Lex,
    /// The tokens do not follow the grammar.
    Syntax,
    /// The tokens follow the grammar, in a shape that is not rewritten.
    Unsupported,
    /// The primitive grammar contradicted itself: it took no token where a
    /// rule needs one, refused a node that it had printed, or printed a text
    /// otherwise than as its tokens.
    Internal,
}

/// A rejected input: the reason, a message, and where the parser stopped.
///
/// The place is given as the text that was left: `rest` starts at the token
/// at which the parser stopped. A parser of the language itself that stops
/// inside a group of parentheses or brackets has left the text after the
/// group. Inside the body of a declaration,
/// `rest` is what was left of the body, and `enclosing` what was left of the
/// declaration when the body was entered. For a text that is no sequence of
/// tokens, `rest` is the whole text.
#[derive(Clone, PartialEq, Eq, Debug)]
pub struct ParseError {
    pub kind: ParseErrorKind,
    pub message: String,
    pub rest: String,
    pub enclosing: Option<String>,
}

/// The view of `ParseError`: each text as its sequence of characters.
pub struct ParseErrorView {
    pub kind: ParseErrorKind,
    pub message: Seq<char>,
    pub rest: Seq<char>,
    pub enclosing: Option<Seq<char>>,
}

impl View for ParseError {
    type V = ParseErrorView;

    open spec fn view(&self) -> ParseErrorView {
        ParseErrorView {
            kind: self.kind,
            message: self.message@,
            rest: self.rest@,
            enclosing: match self.enclosing {
                Some(text) => Some(text@),
                None => None,
            },
        }
    }
}

/// The error of a kind, with a message, at the front of `rest`.
pub open spec fn error_at(
    kind: ParseErrorKind,
    message: Seq<char>,
    rest: Seq<char>,
) -> ParseErrorView {
    ParseErrorView { kind, message, rest, enclosing: None }
}

/// A syntax error with the message of the primitive grammar.
pub open spec fn syntax_error(message: Seq<char>, rest: Seq<char>) -> ParseErrorView {
    error_at(ParseErrorKind::Syntax, message, rest)
}

/// Makes the error of a kind, with a message, at the front of `rest`.
pub fn make_error(kind: ParseErrorKind, message: &str, rest: &str) -> (e: ParseError)
    ensures
        e@ == error_at(kind, message@, rest@),
{
    ParseError {
        kind,
        message: String::from_str(message),
        rest: String::from_str(rest),
        enclosing: None,
    }
}

/// An error that arose in the body that `group` starts with.
pub open spec fn inside(e: ParseErrorView, group: Seq<char>) -> ParseErrorView {
    ParseErrorView { kind: e.kind, message: e.message, rest: e.rest, enclosing: Some(group) }
}

/// Marks an error as one that arose in the body that `group` starts with.
pub fn mark_inside(e: ParseError, group: &str) -> (out: ParseError)
    ensures
        out@ == inside(e@, group@),
{
    ParseError {
        kind: e.kind,
        message: e.message,
        rest: e.rest,
        enclosing: Some(String::from_str(group)),
    }
}

/// The message for a rule that succeeded without taking a token off the
/// text, where it has to take one.
pub open spec fn stalled_message() -> Seq<char> {
    "the parser made no progress"@
}

/// The message for a node that the primitive grammar printed and then did
/// not accept.
pub open spec fn mismatch_message() -> Seq<char> {
    "a syntax node could not be read back"@
}

/// The outcome of a parser seen through views: the node and the text that
/// is left, or the error.
pub open spec fn parsed_view<T: View>(r: Result<(T, String), ParseError>) -> Result<
    (T::V, Seq<char>),
    ParseErrorView,
> {
    match r {
        Ok((node, rest)) => Ok((node@, rest@)),
        Err(e) => Err(e@),
    }
}

/// A result with further nodes put in front of its list.
pub open spec fn prepend<T>(before: Seq<T>, r: Result<Seq<T>, ParseErrorView>) -> Result<
    Seq<T>,
    ParseErrorView,
> {
    match r {
        Ok(more) => Ok(before + more),
        Err(e) => Err(e),
    }
}

} // verus!
