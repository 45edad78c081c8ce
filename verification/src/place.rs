//! Where an error points to among the token trees of a declaration.

use vstd::prelude::*;
use vstd::string::*;
use crate::error::{ParseError, ParseErrorView};
use crate::primitive::{Token, TokenView};
use crate::rewrite::{RewriteError, RewriteErrorView};
use crate::text::str_eq;
use crate::token::{
    after_token, first_token, is_keyword, is_lifetime, peek_keyword, peek_lifetime,
    rest_after_token,
};
use crate::primitive::{next_token, syn_token};
use crate::reader::{tokenize, tokens_of};
use crate::text::copy_text;
use crate::token::{brace_group, take_brace_group};

verus! {

/// A place in a declaration: a token tree of the declaration itself, or a
/// token tree of one of its groups.
#[derive(Clone, Copy, PartialEq, Eq, Debug)]
pub struct Place {
    /// The number of the group among the token trees of the declaration;
    /// `None` where the place is in the declaration itself.
    pub group: Option<usize>,
    /// The number of the token tree, counted from zero. A number past the
    /// last token tree stands for the end.
    pub index: usize,
}

/// The view of `Place`: its numbers as natural numbers.
pub struct PlaceView {
    pub group: Option<nat>,
    pub index: nat,
}

impl View for Place {
    type V = PlaceView;

    open spec fn view(&self) -> PlaceView {
        PlaceView {
            group: match self.group {
                Some(g) => Some(g as nat),
                None => None,
            },
            index: self.index as nat,
        }
    }
}

/// The number of token trees of a text: of those that leave a shorter text
/// when they are taken off, one after the other.
pub open spec fn trees(text: Seq<char>) -> nat
    decreases text.len(),
{
    match syn_token(text) {
        None => 0,
        Some((_, rest)) => if rest.len() < text.len() {
            1 + trees(rest)
        } else {
            0
        },
    }
}

/// Counts the token trees of a text.
pub fn count_trees(text: &str) -> (count: usize)
    ensures
        count == trees(text@),
{
    let mut count: usize = 0;
    let mut cur = copy_text(text);
    let mut len = cur.as_str().unicode_len();
    let total = len;
    loop
        invariant
            len == cur@.len(),
            count + len <= total,
            trees(text@) == count + trees(cur@),
        decreases cur@.len(),
    {
        match next_token(cur.as_str()) {
            None => {
                return count;
            },
            Some((_, rest)) => {
                let rest_len = rest.as_str().unicode_len();
                if rest_len >= len {
                    return count;
                }
                count += 1;
                cur = rest;
                len = rest_len;
            },
        }
    }
}

/// How many more token trees `whole` has than `rest`.
pub open spec fn trees_before(whole: Seq<char>, rest: Seq<char>) -> nat {
    if trees(whole) >= trees(rest) {
        (trees(whole) - trees(rest)) as nat
    } else {
        0
    }
}

fn count_before(whole: &str, rest: &str) -> (count: usize)
    ensures
        count == trees_before(whole@, rest@),
{
    let all = count_trees(whole);
    let left = count_trees(rest);
    if all >= left {
        all - left
    } else {
        0
    }
}

/// What the group at the front of a text encloses; nothing where no group
/// in braces stands there.
pub open spec fn content_of(group: Seq<char>) -> Seq<char> {
    match brace_group(group) {
        Some((content, _)) => content,
        None => Seq::empty(),
    }
}

/// The place of an error in a declaration, given the tokens of the
/// declaration: the number of token trees that were read before the parser
/// stopped, in the declaration or in the body it had entered.
pub open spec fn place_in(e: ParseErrorView, tokens: Seq<char>) -> PlaceView {
    match e.enclosing {
        None => PlaceView { group: None, index: trees_before(tokens, e.rest) },
        Some(group) => PlaceView {
            group: Some(trees_before(tokens, group)),
            index: trees_before(content_of(group), e.rest),
        },
    }
}

/// The place of an error in the text of a declaration. For a text that is
/// no sequence of tokens, the place is its start.
pub open spec fn place_of(e: ParseErrorView, input: Seq<char>) -> PlaceView {
    match tokens_of(input) {
        Ok(tokens) => place_in(e, tokens),
        Err(_) => PlaceView { group: None, index: 0 },
    }
}

impl ParseError {
    /// Finds the place of this error in the text that was parsed: the token
    /// tree at which the parser stopped.
    pub fn place(&self, input: &str) -> (place: Place)
        ensures
            place@ == place_of(self@, input@),
    {
        let tokens = match tokenize(input) {
            Ok(tokens) => tokens,
            Err(_) => return Place { group: None, index: 0 },
        };
        match &self.enclosing {
            None => Place { group: None, index: count_before(tokens.as_str(), self.rest.as_str()) },
            Some(group) => {
                let content = match take_brace_group(group.as_str()) {
                    Some((content, _)) => content,
                    None => String::new(),
                };
                Place {
                    group: Some(count_before(tokens.as_str(), group.as_str())),
                    index: count_before(content.as_str(), self.rest.as_str()),
                }
            },
        }
    }
}

/// What is looked for among the token trees of a body.
pub enum Mark<'a> {
    /// The declaration of an operation: `fn` and its name.
    Operation(&'a str),
    /// A lifetime, written with its quote.
    Lifetime(&'a str),
}

/// The view of `Mark`: each text as its sequence of characters.
pub enum MarkView {
    Operation(Seq<char>),
    Lifetime(Seq<char>),
}

impl<'a> View for Mark<'a> {
    type V = MarkView;

    open spec fn view(&self) -> MarkView {
        match self {
            Mark::Operation(name) => MarkView::Operation(name@),
            Mark::Lifetime(name) => MarkView::Lifetime(name@),
        }
    }
}

/// Whether a text starts with what is looked for.
pub open spec fn marked(text: Seq<char>, mark: MarkView) -> bool {
    match mark {
        MarkView::Operation(name) => peek_keyword(text, "fn"@) && peek_keyword(
            after_token(text),
            name,
        ),
        MarkView::Lifetime(name) => peek_lifetime(text) && (first_token(
            after_token(text),
        ) matches Some(TokenView::Ident(word)) && "'"@ + word == name),
    }
}

fn is_marked(text: &str, mark: &Mark) -> (r: bool)
    ensures
        r == marked(text@, mark@),
{
    match mark {
        Mark::Operation(name) => is_keyword(text, "fn") && is_keyword(
            rest_after_token(text).as_str(),
            name,
        ),
        Mark::Lifetime(name) => {
            if !is_lifetime(text) {
                return false;
            }
            match next_token(rest_after_token(text).as_str()) {
                Some((Token::Ident(word), _)) => {
                    let written = String::from_str("'").concat(word.as_str());
                    str_eq(written.as_str(), name)
                },
                _ => false,
            }
        },
    }
}

/// The first token tree of a text at which what is looked for starts: its
/// number, and the text from it on.
pub open spec fn first_marked(text: Seq<char>, mark: MarkView) -> Option<(nat, Seq<char>)>
    decreases text.len(),
{
    if marked(text, mark) {
        Some((0, text))
    } else {
        match syn_token(text) {
            Some((_, rest)) => if rest.len() < text.len() {
                match first_marked(rest, mark) {
                    Some((number, at)) => Some((number + 1, at)),
                    None => None,
                }
            } else {
                None
            },
            None => None,
        }
    }
}

/// A result of a search with the token trees that were passed before it
/// counted in.
pub open spec fn shifted(by: nat, r: Option<(nat, Seq<char>)>) -> Option<(nat, Seq<char>)> {
    match r {
        Some((number, at)) => Some((by + number, at)),
        None => None,
    }
}

/// Finds the first token tree of a text at which what is looked for starts.
pub fn find_marked(text: &str, mark: &Mark) -> (r: Option<(usize, String)>)
    ensures
        match r {
            Some((number, at)) => first_marked(text@, mark@) == Some((number as nat, at@))
                && number + at@.len() <= text@.len(),
            None => first_marked(text@, mark@) is None,
        },
{
    let mut count: usize = 0;
    let mut cur = copy_text(text);
    let mut len = cur.as_str().unicode_len();
    let total = len;
    loop
        invariant
            len == cur@.len(),
            total == text@.len(),
            count + len <= total,
            first_marked(text@, mark@) == shifted(count as nat, first_marked(cur@, mark@)),
        decreases cur@.len(),
    {
        if is_marked(cur.as_str(), mark) {
            return Some((count, cur));
        }
        match next_token(cur.as_str()) {
            None => {
                return None;
            },
            Some((_, rest)) => {
                let rest_len = rest.as_str().unicode_len();
                if rest_len >= len {
                    return None;
                }
                count += 1;
                cur = rest;
                len = rest_len;
            },
        }
    }
}

/// The place of a lifetime of an operation in a body: the first such
/// lifetime after the declaration of the operation.
pub open spec fn lifetime_in(body: Seq<char>, operation: Seq<char>, lifetime: Seq<char>) -> Option<
    nat,
> {
    match first_marked(body, MarkView::Operation(operation)) {
        Some((declared, at)) => match first_marked(at, MarkView::Lifetime(lifetime)) {
            Some((further, _)) => Some(declared + further),
            None => None,
        },
        None => None,
    }
}

fn find_lifetime_in(body: &str, operation: &str, lifetime: &str) -> (r: Option<usize>)
    ensures
        match r {
            Some(number) => lifetime_in(body@, operation@, lifetime@) == Some(number as nat),
            None => lifetime_in(body@, operation@, lifetime@) is None,
        },
{
    let total = body.unicode_len();
    match find_marked(body, &Mark::Operation(operation)) {
        Some((declared, at)) => match find_marked(at.as_str(), &Mark::Lifetime(lifetime)) {
            Some((further, _)) => {
                assert(declared + further <= total);
                Some(declared + further)
            },
            None => None,
        },
        None => None,
    }
}

/// The place of a lifetime of an operation in a declaration, from the
/// token tree with the number `number` on: in the first group in braces
/// that declares the operation and after that writes the lifetime.
pub open spec fn lifetime_from(
    text: Seq<char>,
    number: nat,
    operation: Seq<char>,
    lifetime: Seq<char>,
) -> Option<PlaceView>
    decreases text.len(),
{
    match syn_token(text) {
        None => None,
        Some((token, rest)) => match (
            match token.braced() {
                Some(body) => lifetime_in(body, operation, lifetime),
                None => None,
            }
        ) {
            Some(index) => Some(PlaceView { group: Some(number), index }),
            None => if rest.len() < text.len() {
                lifetime_from(rest, number + 1, operation, lifetime)
            } else {
                None
            },
        },
    }
}

/// The place of the lifetime that an error names, in the text of a
/// declaration; the start of the text where the lifetime is not found.
pub open spec fn lifetime_place(e: RewriteErrorView, input: Seq<char>) -> PlaceView {
    match (tokens_of(input), e) {
        (
            Ok(tokens),
            RewriteErrorView::MultipleLifetimes { operation, lifetime, index },
        ) => match lifetime_from(tokens, 0, operation, lifetime) {
            Some(place) => place,
            None => PlaceView { group: None, index: 0 },
        },
        _ => PlaceView { group: None, index: 0 },
    }
}

impl RewriteError {
    /// Finds the place of the lifetime that this error names in the text
    /// that was rewritten: its quote, among the token trees of the body
    /// that declares the operation.
    pub fn place(&self, input: &str) -> (place: Place)
        ensures
            place@ == lifetime_place(self@, input@),
    {
        let tokens = match tokenize(input) {
            Ok(tokens) => tokens,
            Err(_) => return Place { group: None, index: 0 },
        };
        let (operation, lifetime) = match self {
            RewriteError::MultipleLifetimes { operation, lifetime, .. } => (operation, lifetime),
        };
        let mut number: usize = 0;
        let mut cur = tokens;
        let mut len = cur.as_str().unicode_len();
        let total = len;
        let ghost all = cur@;
        loop
            invariant
                len == cur@.len(),
                total == all.len(),
                number + len <= total,
                tokens_of(input@) == Ok::<_, ParseErrorView>(all),
                self@ matches RewriteErrorView::MultipleLifetimes {
                    operation: o,
                    lifetime: l,
                    ..
                } && o == operation@ && l == lifetime@,
                lifetime_from(all, 0, operation@, lifetime@) == lifetime_from(
                    cur@,
                    number as nat,
                    operation@,
                    lifetime@,
                ),
            decreases cur@.len(),
        {
            let (token, rest) = match next_token(cur.as_str()) {
                None => return Place { group: None, index: 0 },
                Some(found) => found,
            };
            let found = match token.braced() {
                Some(body) => find_lifetime_in(
                    body.as_str(),
                    operation.as_str(),
                    lifetime.as_str(),
                ),
                None => None,
            };
            match found {
                Some(index) => {
                    return Place { group: Some(number), index };
                },
                None => {},
            }
            let rest_len = rest.as_str().unicode_len();
            if rest_len >= len {
                return Place { group: None, index: 0 };
            }
            number += 1;
            cur = rest;
            len = rest_len;
        }
    }
}

} // verus!
