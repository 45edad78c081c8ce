//! Looking at the next tokens of a text, as a parser of token streams does
//! before it commits to a rule.

use vstd::prelude::*;
use vstd::string::*;
use crate::error::{
    error_at, make_error, mismatch_message, syntax_error, ParseError, ParseErrorKind,
    ParseErrorView,
};
use crate::primitive::{next_token, split_ident, syn_ident, syn_token, Token, TokenView};
use crate::text::{copy_text, str_eq};

verus! {

impl TokenView {
    /// Whether the token is the given word.
    pub open spec fn is_word(self, word: Seq<char>) -> bool {
        self matches TokenView::Ident(name) && name == word
    }

    /// Whether the token is the given punctuation character, joined to what
    /// follows or not.
    pub open spec fn is_sign(self, c: char) -> bool {
        self matches TokenView::Punct(p, _) && p == c
    }

    /// Whether the token is the given punctuation character, joined to the
    /// one that follows.
    pub open spec fn is_joined_sign(self, c: char) -> bool {
        self matches TokenView::Punct(p, joint) && p == c && joint
    }

    /// Whether the token is an identifier or a keyword.
    pub open spec fn is_name(self) -> bool {
        self is Ident
    }

    /// Whether the token is an underscore.
    pub open spec fn is_underscore(self) -> bool {
        self.is_word("_"@) || self.is_sign('_')
    }

    /// What a group in braces encloses; `None` for any other token.
    pub open spec fn braced(self) -> Option<Seq<char>> {
        match self {
            TokenView::Group(whole, inner) => if whole.len() > 0 && whole[0] == '{' {
                Some(inner)
            } else {
                None
            },
            _ => None,
        }
    }
}

impl Token {
    /// Tells whether the token is the given word.
    pub fn is_word(&self, word: &str) -> (r: bool)
        ensures
            r == self@.is_word(word@),
    {
        match self {
            Token::Ident(name) => str_eq(name.as_str(), word),
            _ => false,
        }
    }

    /// Tells whether the token is the given punctuation character.
    pub fn is_sign(&self, c: char) -> (r: bool)
        ensures
            r == self@.is_sign(c),
    {
        match self {
            Token::Punct(p, _) => *p == c,
            _ => false,
        }
    }

    /// Tells whether the token is the given punctuation character, joined to
    /// the one that follows.
    pub fn is_joined_sign(&self, c: char) -> (r: bool)
        ensures
            r == self@.is_joined_sign(c),
    {
        match self {
            Token::Punct(p, joint) => *p == c && *joint,
            _ => false,
        }
    }

    /// Tells whether the token is an identifier or a keyword.
    pub fn is_name(&self) -> (r: bool)
        ensures
            r == self@.is_name(),
    {
        match self {
            Token::Ident(_) => true,
            _ => false,
        }
    }

    /// Tells whether the token is an underscore.
    pub fn is_underscore(&self) -> (r: bool)
        ensures
            r == self@.is_underscore(),
    {
        self.is_word("_") || self.is_sign('_')
    }

    /// Gives what a group in braces encloses.
    pub fn braced(&self) -> (r: Option<String>)
        ensures
            match r {
                Some(inner) => self@.braced() == Some(inner@),
                None => self@.braced() is None,
            },
    {
        match self {
            Token::Group(whole, inner) => {
                if !whole.as_str().is_empty() && whole.as_str().get_char(0) == '{' {
                    Some(copy_text(inner.as_str()))
                } else {
                    None
                }
            },
            _ => None,
        }
    }
}

/// The first token tree of a text.
pub open spec fn first_token(text: Seq<char>) -> Option<TokenView> {
    match syn_token(text) {
        Some((token, _)) => Some(token),
        None => None,
    }
}

/// The text after the first token tree; the text itself where it is empty.
pub open spec fn after_token(text: Seq<char>) -> Seq<char> {
    match syn_token(text) {
        Some((_, rest)) => rest,
        None => text,
    }
}

/// Whether the first token is the given word.
pub open spec fn peek_keyword(text: Seq<char>, word: Seq<char>) -> bool {
    first_token(text) matches Some(token) && token.is_word(word)
}

/// Whether the first token is the given punctuation character, joined to
/// what follows or not.
pub open spec fn peek_punct(text: Seq<char>, c: char) -> bool {
    first_token(text) matches Some(token) && token.is_sign(c)
}

/// Whether the text starts with `::`.
pub open spec fn peek_colon2(text: Seq<char>) -> bool {
    (first_token(text) matches Some(token) && token.is_joined_sign(':')) && peek_punct(
        after_token(text),
        ':',
    )
}

/// The content of the group in braces that the text starts with, and the
/// text after the group.
pub open spec fn brace_group(text: Seq<char>) -> Option<(Seq<char>, Seq<char>)> {
    match syn_token(text) {
        Some((token, rest)) => match token.braced() {
            Some(inner) => Some((inner, rest)),
            None => None,
        },
        None => None,
    }
}

/// Whether the first token is a group in braces.
pub open spec fn peek_brace(text: Seq<char>) -> bool {
    brace_group(text) is Some
}

/// Whether the text starts with a lifetime: a quote joined to a name.
pub open spec fn peek_lifetime(text: Seq<char>) -> bool {
    (first_token(text) matches Some(token) && token.is_joined_sign('\'')) && (first_token(
        after_token(text),
    ) matches Some(next) && next.is_name())
}

/// Whether the text starts with an identifier that is no keyword.
pub open spec fn peek_ident(text: Seq<char>) -> bool {
    syn_ident(text) is Ok
}

/// Whether the first token is an underscore.
pub open spec fn peek_underscore(text: Seq<char>) -> bool {
    first_token(text) matches Some(token) && token.is_underscore()
}

/// The text after one token, a lifetime counting as one; `None` where the
/// text is empty.
pub open spec fn skip(text: Seq<char>) -> Option<Seq<char>> {
    if first_token(text) is None {
        None
    } else if peek_lifetime(text) {
        Some(after_token(after_token(text)))
    } else {
        Some(after_token(text))
    }
}

/// The word, taken off the front of the text where it stands there.
pub open spec fn eat_keyword(text: Seq<char>, word: Seq<char>) -> (bool, Seq<char>) {
    if peek_keyword(text, word) {
        (true, after_token(text))
    } else {
        (false, text)
    }
}

/// The punctuation character, taken off the front of the text where it
/// stands there.
pub open spec fn eat_punct(text: Seq<char>, c: char) -> (bool, Seq<char>) {
    if peek_punct(text, c) {
        (true, after_token(text))
    } else {
        (false, text)
    }
}

/// Tells whether the text starts with the given word.
pub fn is_keyword(text: &str, word: &str) -> (r: bool)
    ensures
        r == peek_keyword(text@, word@),
{
    match next_token(text) {
        Some((token, _)) => token.is_word(word),
        None => false,
    }
}

/// Tells whether the text starts with the given punctuation character.
pub fn is_punct(text: &str, c: char) -> (r: bool)
    ensures
        r == peek_punct(text@, c),
{
    match next_token(text) {
        Some((token, _)) => token.is_sign(c),
        None => false,
    }
}

/// Tells whether the text starts with `::`.
pub fn is_colon2(text: &str) -> (r: bool)
    ensures
        r == peek_colon2(text@),
{
    match next_token(text) {
        Some((token, rest)) => token.is_joined_sign(':') && is_punct(rest.as_str(), ':'),
        None => false,
    }
}

/// Takes a group in braces off the front of the text.
pub fn take_brace_group(text: &str) -> (r: Option<(String, String)>)
    ensures
        match r {
            Some((inner, rest)) => brace_group(text@) == Some((inner@, rest@)) && (readable(text@)
                ==> readable(inner@) && readable(rest@)),
            None => brace_group(text@) is None,
        },
{
    proof {
        if readable(text@) {
            lemma_readable_after(text@);
        }
    }
    match next_token(text) {
        Some((token, rest)) => match token.braced() {
            Some(inner) => Some((inner, rest)),
            None => None,
        },
        None => None,
    }
}

/// Tells whether the text starts with a group in braces.
pub fn is_brace(text: &str) -> (r: bool)
    ensures
        r == peek_brace(text@),
{
    take_brace_group(text).is_some()
}

/// Tells whether the text starts with a lifetime.
pub fn is_lifetime(text: &str) -> (r: bool)
    ensures
        r == peek_lifetime(text@),
{
    match next_token(text) {
        Some((token, rest)) => token.is_joined_sign('\'') && match next_token(rest.as_str()) {
            Some((next, _)) => next.is_name(),
            None => false,
        },
        None => false,
    }
}

/// Tells whether the text starts with an identifier that is no keyword.
pub fn is_ident(text: &str) -> (r: bool)
    ensures
        r == peek_ident(text@),
{
    split_ident(text).is_ok()
}

/// Tells whether an underscore stands first.
pub fn is_underscore(text: &str) -> (r: bool)
    ensures
        r == peek_underscore(text@),
{
    match next_token(text) {
        Some((token, _)) => token.is_underscore(),
        None => false,
    }
}

/// Gives the text after the first token tree.
pub fn rest_after_token(text: &str) -> (rest: String)
    ensures
        rest@ == after_token(text@),
        readable(text@) && !peek_punct(text@, '#') ==> readable(rest@),
{
    proof {
        if readable(text@) {
            lemma_readable_after(text@);
        }
    }
    match next_token(text) {
        Some((_, rest)) => rest,
        None => copy_text(text),
    }
}

/// Gives the text after one token, a lifetime counting as one.
pub fn skip_token(text: &str) -> (r: Option<String>)
    ensures
        match r {
            Some(rest) => skip(text@) == Some(rest@),
            None => skip(text@) is None,
        },
{

    match next_token(text) {
        None => None,
        Some((_, rest)) => {
            if is_lifetime(text) {
                Some(rest_after_token(rest.as_str()))
            } else {
                Some(rest)
            }
        },
    }
}

/// Takes the word off the front of the text where it stands there.
pub fn take_keyword(text: &str, word: &str) -> (r: (bool, String))
    ensures
        (r.0, r.1@) == eat_keyword(text@, word@),
        readable(text@) ==> readable(r.1@),
{
    if is_keyword(text, word) {
        (true, rest_after_token(text))
    } else {
        (false, copy_text(text))
    }
}

/// Takes the punctuation character off the front of the text where it stands
/// there.
pub fn take_punct(text: &str, c: char) -> (r: (bool, String))
    ensures
        (r.0, r.1@) == eat_punct(text@, c),
        readable(text@) && c != '#' ==> readable(r.1@),
{
    if is_punct(text, c) {
        (true, rest_after_token(text))
    } else {
        (false, copy_text(text))
    }
}

/// The message for a missing word or sign.
pub open spec fn expected(what: Seq<char>) -> Seq<char> {
    "expected `"@ + what + "`"@
}

/// The error for a missing word or sign at the front of `rest`.
pub fn expected_error(what: &str, rest: &str) -> (e: ParseError)
    ensures
        e@ == syntax_error(expected(what@), rest@),
{
    let message = String::from_str("expected `").concat(what).concat("`");
    make_error(ParseErrorKind::Syntax, message.as_str(), rest)
}

/// Whether a character is a decimal digit.
pub open spec fn is_digit(c: char) -> bool {
    c == '0' || c == '1' || c == '2' || c == '3' || c == '4' || c == '5' || c == '6' || c == '7'
        || c == '8' || c == '9'
}

/// Whether a literal is of a form that the syntax-tree library knows: a
/// string, a raw string, a byte string, a byte, a character or a number. A
/// C string is not.
pub open spec fn literal_known(repr: Seq<char>) -> bool {
    repr.len() > 0 && (repr[0] == '"' || repr[0] == 'r' || repr[0] == '\'' || repr[0] == '-'
        || is_digit(repr[0]) || (repr[0] == 'b' && repr.len() > 1 && (repr[1] == '"' || repr[1]
        == 'r' || repr[1] == '\'')))
}

/// Tells whether a literal is of a form that the syntax-tree library knows.
pub fn literal_is_known(repr: &str) -> (r: bool)
    ensures
        r == literal_known(repr@),
{
    let n = repr.unicode_len();
    if n == 0 {
        return false;
    }
    let c = repr.get_char(0);
    if c == '"' || c == 'r' || c == '\'' || c == '-' {
        return true;
    }
    if c == '0' || c == '1' || c == '2' || c == '3' || c == '4' || c == '5' || c == '6' || c == '7'
        || c == '8' || c == '9' {
        return true;
    }
    if c == 'b' && n > 1 {
        let d = repr.get_char(1);
        return d == '"' || d == 'r' || d == '\'';
    }
    false
}

/// What keeps a text from being read, and the text from the token tree on
/// at which it is met.
#[derive(Clone, PartialEq, Eq, Debug)]
pub enum Flaw {
    /// A literal of a form that is not known, here or in a group.
    Literal(String),
    /// Taking a token tree off the text leaves no shorter text: the text is
    /// not printed as its own tokens.
    Stalled(String),
}

/// The view of `Flaw`: each text as its sequence of characters.
pub enum FlawView {
    Literal(Seq<char>),
    Stalled(Seq<char>),
}

impl View for Flaw {
    type V = FlawView;

    open spec fn view(&self) -> FlawView {
        match self {
            Flaw::Literal(at) => FlawView::Literal(at@),
            Flaw::Stalled(at) => FlawView::Stalled(at@),
        }
    }
}

/// Whether a token tree is a group in brackets.
pub open spec fn is_bracketed(token: TokenView) -> bool {
    token matches TokenView::Group(whole, _) && whole.len() > 0 && whole[0] == '['
}

/// The text after the attribute that a text starts with: after `#` and a
/// group in brackets, with `!` between them or not. The syntax-tree library
/// takes the group of an attribute as it is and reads no literal in it.
pub open spec fn attribute_rest(text: Seq<char>) -> Option<Seq<char>> {
    match syn_token(text) {
        Some((pound, r0)) => if pound.is_sign('#') && r0.len() < text.len() {
            match syn_token(r0) {
                Some((second, r1)) => if r1.len() < r0.len() {
                    if is_bracketed(second) {
                        Some(r1)
                    } else if second.is_sign('!') {
                        match syn_token(r1) {
                            Some((third, r2)) => if r2.len() < r1.len() && is_bracketed(third) {
                                Some(r2)
                            } else {
                                None
                            },
                            None => None,
                        }
                    } else {
                        None
                    }
                } else {
                    None
                },
                None => None,
            }
        } else {
            None
        },
        None => None,
    }
}

/// The first flaw of a text; `None` where the text can be read: it can be
/// walked token tree by token tree, each leaving a shorter text, and every
/// literal is of a known form, in groups too. The groups of attributes are
/// not looked into.
pub open spec fn first_flaw(text: Seq<char>) -> Option<FlawView>
    decreases text.len(),
{
    match syn_token(text) {
        None => None,
        Some((token, rest)) => match attribute_rest(text) {
            Some(after) => if after.len() < text.len() {
                first_flaw(after)
            } else {
                Some(FlawView::Stalled(text))
            },
            None => if !(rest.len() < text.len()) {
                Some(FlawView::Stalled(text))
            } else {
                match token {
                    TokenView::Literal(repr) => if literal_known(repr) {
                        first_flaw(rest)
                    } else {
                        Some(FlawView::Literal(text))
                    },
                    TokenView::Group(_, inner) => if !(inner.len() < text.len()) {
                        Some(FlawView::Stalled(text))
                    } else {
                        match first_flaw(inner) {
                            None => first_flaw(rest),
                            Some(FlawView::Literal(_)) => Some(FlawView::Literal(text)),
                            Some(FlawView::Stalled(_)) => Some(FlawView::Stalled(text)),
                        }
                    },
                    _ => first_flaw(rest),
                }
            },
        },
    }
}

/// Whether a text can be read: it has no flaw.
pub open spec fn readable(text: Seq<char>) -> bool {
    first_flaw(text) is None
}

/// An optional flaw seen through its view.
pub open spec fn flaw_view(r: Option<Flaw>) -> Option<FlawView> {
    match r {
        Some(flaw) => Some(flaw@),
        None => None,
    }
}

/// An optional text seen through its view.
pub open spec fn text_view(r: Option<String>) -> Option<Seq<char>> {
    match r {
        Some(text) => Some(text@),
        None => None,
    }
}

fn is_bracket_group(token: &Token) -> (r: bool)
    ensures
        r == is_bracketed(token@),
{
    match token {
        Token::Group(whole, _) => !whole.as_str().is_empty() && whole.as_str().get_char(0) == '[',
        _ => false,
    }
}

/// Takes the attribute that a text starts with off the text.
pub fn take_attribute(text: &str) -> (r: Option<String>)
    ensures
        text_view(r) == attribute_rest(text@),
{
    let (pound, r0) = match next_token(text) {
        Some(found) => found,
        None => return None,
    };
    if !(pound.is_sign('#') && r0.as_str().unicode_len() < text.unicode_len()) {
        return None;
    }
    let (second, r1) = match next_token(r0.as_str()) {
        Some(found) => found,
        None => return None,
    };
    if !(r1.as_str().unicode_len() < r0.as_str().unicode_len()) {
        return None;
    }
    if is_bracket_group(&second) {
        return Some(r1);
    }
    if !second.is_sign('!') {
        return None;
    }
    match next_token(r1.as_str()) {
        Some((third, r2)) => {
            if r2.as_str().unicode_len() < r1.as_str().unicode_len() && is_bracket_group(&third) {
                Some(r2)
            } else {
                None
            }
        },
        None => None,
    }
}

/// Finds the first flaw of a text.
pub fn find_flaw(text: &str) -> (r: Option<Flaw>)
    ensures
        flaw_view(r) == first_flaw(text@),
    decreases text@.len(),
{
    let mut cur = copy_text(text);
    loop
        invariant
            first_flaw(text@) == first_flaw(cur@),
            cur@.len() <= text@.len(),
        decreases cur@.len(),
    {
        let (token, rest) = match next_token(cur.as_str()) {
            None => return None,
            Some(found) => found,
        };
        let n = cur.as_str().unicode_len();
        match take_attribute(cur.as_str()) {
            Some(after) => {
                if !(after.as_str().unicode_len() < n) {
                    return Some(Flaw::Stalled(cur));
                }
                cur = after;
            },
            None => {
                if !(rest.as_str().unicode_len() < n) {
                    return Some(Flaw::Stalled(cur));
                }
                match &token {
                    Token::Literal(repr) => {
                        if !literal_is_known(repr.as_str()) {
                            return Some(Flaw::Literal(cur));
                        }
                    },
                    Token::Group(_, inner) => {
                        if !(inner.as_str().unicode_len() < n) {
                            return Some(Flaw::Stalled(cur));
                        }
                        match find_flaw(inner.as_str()) {
                            None => {},
                            Some(Flaw::Literal(_)) => {
                                return Some(Flaw::Literal(cur));
                            },
                            Some(Flaw::Stalled(_)) => {
                                return Some(Flaw::Stalled(cur));
                            },
                        }
                    },
                    _ => {},
                }
                cur = rest;
            },
        }
    }
}

/// The text after the next token tree of a text, an attribute counting as
/// one; `None` where the text is empty or no shorter text is left.
pub open spec fn step(text: Seq<char>) -> Option<Seq<char>> {
    match attribute_rest(text) {
        Some(after) => if after.len() < text.len() {
            Some(after)
        } else {
            None
        },
        None => match syn_token(text) {
            Some((_, rest)) => if rest.len() < text.len() {
                Some(rest)
            } else {
                None
            },
            None => None,
        },
    }
}

/// What is left of a text that can be read, after a token tree that does
/// not start an attribute, can be read. So can what a group in braces at its
/// front encloses.
pub proof fn lemma_readable_after(text: Seq<char>)
    requires
        readable(text),
    ensures
        !peek_punct(text, '#') ==> readable(after_token(text)),
        brace_group(text) matches Some((inner, rest)) ==> readable(inner) && readable(rest),
        first_token(text) is Some ==> after_token(text).len() < text.len(),
        step(text) matches Some(next) ==> readable(next),
{
}

/// Whether `rest` is what is left of `text` after some of its token trees
/// are taken off, an attribute counting as one, each leaving a shorter
/// text.
pub open spec fn follows(text: Seq<char>, rest: Seq<char>) -> bool
    decreases text.len(),
{
    text == rest || match step(text) {
        Some(next) => next.len() < text.len() && follows(next, rest),
        None => false,
    }
}

/// What follows a text that can be read can be read, and is no longer than
/// the text.
pub proof fn lemma_readable_follows(text: Seq<char>, rest: Seq<char>)
    requires
        readable(text),
        follows(text, rest),
    ensures
        readable(rest),
        rest.len() <= text.len(),
    decreases text.len(),
{
    if text != rest {
        lemma_readable_after(text);
        lemma_readable_follows(step(text)->0, rest);
    }
}

/// What follows a text is no longer than the text.
pub proof fn lemma_follows_shorter(text: Seq<char>, rest: Seq<char>)
    requires
        follows(text, rest),
    ensures
        rest.len() <= text.len(),
    decreases text.len(),
{
    if text != rest {
        lemma_follows_shorter(step(text)->0, rest);
    }
}

fn take_step(text: &str) -> (r: Option<String>)
    ensures
        text_view(r) == step(text@),
{
    let n = text.unicode_len();
    match take_attribute(text) {
        Some(after) => {
            if after.as_str().unicode_len() < n {
                Some(after)
            } else {
                None
            }
        },
        None => match next_token(text) {
            Some((_, rest)) => {
                if rest.as_str().unicode_len() < n {
                    Some(rest)
                } else {
                    None
                }
            },
            None => None,
        },
    }
}

/// Tells whether `rest` is what is left of `text` after some of its token
/// trees.
pub fn is_following(text: &str, rest: &str) -> (r: bool)
    ensures
        r == follows(text@, rest@),
{
    let mut cur = copy_text(text);
    loop
        invariant
            follows(text@, rest@) == follows(cur@, rest@),
        decreases cur@.len(),
    {
        if str_eq(cur.as_str(), rest) {
            return true;
        }
        match take_step(cur.as_str()) {
            None => {
                return false;
            },
            Some(next) => {
                cur = next;
            },
        }
    }
}

/// What a split comes to once it is checked: the error of the parser at the
/// place where it stopped; or the node and the rest, where the rest is what
/// is left of the text after some of its token trees.
pub open spec fn settled<N>(text: Seq<char>, split: Result<(N, Seq<char>), (Seq<char>, Seq<char>)>)
    -> Result<(N, Seq<char>), ParseErrorView> {
    match split {
        Err((message, left)) => Err(syntax_error(message, left)),
        Ok((node, rest)) => if follows(text, rest) {
            Ok((node, rest))
        } else {
            Err(error_at(ParseErrorKind::Internal, mismatch_message(), text))
        },
    }
}

/// Checks a split: the rest has to be what is left of the text after some
/// of its token trees. Such a rest can be read where the text can.
pub fn settle<N>(text: &str, split: Result<(N, String), (String, String)>) -> (r: Result<
    (N, String),
    ParseError,
>)
    ensures
        match split {
            Err((message, left)) => r matches Err(e) && e@ == syntax_error(message@, left@),
            Ok((node, rest)) => if follows(text@, rest@) {
                r == Ok::<_, ParseError>((node, rest)) && (readable(text@) ==> readable(rest@))
                    && rest@.len() <= text@.len()
            } else {
                r matches Err(e) && e@ == error_at(
                    ParseErrorKind::Internal,
                    mismatch_message(),
                    text@,
                )
            },
        },
{
    match split {
        Err((message, left)) => Err(
            make_error(ParseErrorKind::Syntax, message.as_str(), left.as_str()),
        ),
        Ok((node, rest)) => {
            if is_following(text, rest.as_str()) {
                proof {
                    if readable(text@) {
                        lemma_readable_follows(text@, rest@);
                    }
                    lemma_follows_shorter(text@, rest@);
                }
                Ok((node, rest))
            } else {
                Err(
                    make_error(
                        ParseErrorKind::Internal,
                        "a syntax node could not be read back",
                        text,
                    ),
                )
            }
        },
    }
}

/// The message for a literal of a form that is not known.
pub open spec fn unknown_literal_message() -> Seq<char> {
    "a literal of this form is not supported"@
}

/// The message for a text that is not printed as its own tokens.
pub open spec fn unprinted_message() -> Seq<char> {
    "the text is not printed as its tokens"@
}

/// The error for a flaw.
pub open spec fn flaw_error(flaw: FlawView) -> ParseErrorView {
    match flaw {
        FlawView::Literal(at) => error_at(
            ParseErrorKind::Unsupported,
            unknown_literal_message(),
            at,
        ),
        FlawView::Stalled(at) => error_at(ParseErrorKind::Internal, unprinted_message(), at),
    }
}

/// The outcome of a parser that is run on a text only where the text can
/// be read. Otherwise the text is refused at its first flaw.
pub open spec fn guarded<T>(text: Seq<char>, outcome: Result<T, ParseErrorView>) -> Result<
    T,
    ParseErrorView,
> {
    match first_flaw(text) {
        Some(flaw) => Err(flaw_error(flaw)),
        None => outcome,
    }
}

/// Refuses a text that cannot be read.
pub fn refuse_unreadable(text: &str) -> (r: Option<ParseError>)
    ensures
        match r {
            Some(e) => first_flaw(text@) matches Some(flaw) && e@ == flaw_error(flaw),
            None => readable(text@),
        },
{
    match find_flaw(text) {
        Some(Flaw::Literal(at)) => Some(
            make_error(
                ParseErrorKind::Unsupported,
                "a literal of this form is not supported",
                at.as_str(),
            ),
        ),
        Some(Flaw::Stalled(at)) => Some(
            make_error(
                ParseErrorKind::Internal,
                "the text is not printed as its tokens",
                at.as_str(),
            ),
        ),
        None => None,
    }
}

} // verus!
