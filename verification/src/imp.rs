//! Implementation blocks: their structure and their grammar.

use vstd::prelude::*;
use vstd::string::*;
use crate::def::trailing_message;
use crate::error::{
    error_at, inside, make_error, mark_inside, mismatch_message, parsed_view, prepend,
    stalled_message, syntax_error, ParseError, ParseErrorKind, ParseErrorView,
};
use crate::lifetimes::lifetime_bounds;
use crate::naming::{pascal_case, to_pascal_case};
use crate::primitive::{
    split_impl_item, split_inner_attrs, split_outer_attrs, split_signature, split_type,
    split_visibility, split_where_clause, syn_impl_item, syn_inner_attrs, syn_outer_attrs,
    syn_signature, syn_type, syn_visibility, syn_where_clause,
};
use crate::print::{
    attr_texts, braces, generics_text, in_braces, print_attrs, print_generics, print_signature,
    print_where, signature_text, where_text, word_if, Form, Keep,
};
use crate::reader::{
    on_tokens, params_at, parse_generic_params, parse_signature, read_signature, tokenize,
};
use crate::rewrite::{
    accumulate, check_lifetimes, future_body, future_bound, lemma_rewritten_all_error,
    lifetime_error, print_future_body, print_future_bound, print_rewritten_signature,
    print_self_future, rewritten_all, rewritten_signature, rewritten_view, self_future, synthesize,
    synthesized_signature, RewriteError, RewriteErrorView, Rewritten, RewrittenView,
};
use crate::syntax::{
    append_attributes, attributes, lemma_views_empty, lemma_views_push, make_attributes, views,
    Attribute, AttributeView, GenericParam, GenericParamView, Generics, GenericsView, Signature,
    SignatureView,
};
use crate::text::{copy_text, join, join_pieces, push_piece, spaced};
use crate::token::{
    after_token, brace_group, eat_keyword, eat_punct, expected, expected_error, find_flaw, is_brace,
    is_ident, is_keyword, is_lifetime, is_punct, peek_brace, peek_ident, peek_keyword,
    peek_lifetime, peek_punct, readable, refuse_unreadable, rest_after_token, settle, settled, skip,
    skip_token, take_brace_group, take_keyword, take_punct,
};

verus! {

/// An operation of an implementation block.
#[derive(Clone, PartialEq, Eq, Debug)]
pub struct ImplItemMethod {
    pub attrs: Vec<Attribute>,
    pub vis: String,
    pub defaultness: bool,
    pub sig: Signature,
    /// The body, braces included.
    pub block: String,
}

/// The view of `ImplItemMethod`: each text as its sequence of characters.
pub struct ImplItemMethodView {
    pub attrs: Seq<AttributeView>,
    pub vis: Seq<char>,
    pub defaultness: bool,
    pub sig: SignatureView,
    pub block: Seq<char>,
}

impl View for ImplItemMethod {
    type V = ImplItemMethodView;

    open spec fn view(&self) -> ImplItemMethodView {
        ImplItemMethodView {
            attrs: views(self.attrs@),
            vis: self.vis@,
            defaultness: self.defaultness,
            sig: self.sig@,
            block: self.block@,
        }
    }
}

/// A member of an implementation block: an operation, or another member
/// held as its text.
#[derive(Clone, PartialEq, Eq, Debug)]
pub enum ImplItem {
    Method(ImplItemMethod),
    Other(String),
}

/// The view of `ImplItem`: each text as its sequence of characters.
pub enum ImplItemView {
    Method(ImplItemMethodView),
    Other(Seq<char>),
}

impl View for ImplItem {
    type V = ImplItemView;

    open spec fn view(&self) -> ImplItemView {
        match self {
            ImplItem::Method(method) => ImplItemView::Method(method@),
            ImplItem::Other(text) => ImplItemView::Other(text@),
        }
    }
}

/// An implementation block.
#[derive(Clone, PartialEq, Eq, Debug)]
pub struct AsyncItemImpl {
    /// The outer attributes, then the inner ones of the body.
    pub attrs: Vec<Attribute>,
    pub defaultness: bool,
    pub unsafety: bool,
    pub generics: Generics,
    /// The interface that is implemented: whether it is negated, and its
    /// path.
    pub trait_: Option<(bool, String)>,
    pub self_ty: String,
    pub items: Vec<ImplItem>,
}

/// The view of `AsyncItemImpl`: each text as its sequence of characters.
pub struct AsyncItemImplView {
    pub attrs: Seq<AttributeView>,
    pub defaultness: bool,
    pub unsafety: bool,
    pub generics: GenericsView,
    pub trait_: Option<(bool, Seq<char>)>,
    pub self_ty: Seq<char>,
    pub items: Seq<ImplItemView>,
}

/// The interface of a block seen through its view.
pub open spec fn trait_view(t: Option<(bool, String)>) -> Option<(bool, Seq<char>)> {
    match t {
        Some((negative, path)) => Some((negative, path@)),
        None => None,
    }
}

impl View for AsyncItemImpl {
    type V = AsyncItemImplView;

    open spec fn view(&self) -> AsyncItemImplView {
        AsyncItemImplView {
            attrs: views(self.attrs@),
            defaultness: self.defaultness,
            unsafety: self.unsafety,
            generics: self.generics@,
            trait_: trait_view(self.trait_),
            self_ty: self.self_ty@,
            items: views(self.items@),
        }
    }
}

/// The message for an asynchronous operation of an implementation that has
/// no body.
pub open spec fn bodiless_message() -> Seq<char> {
    "an operation of an implementation needs a body"@
}

/// The operation that the text of a member holds, and whether it has a
/// body: outer attributes, a visibility, `default` where it stands, a
/// signature, and what ends the text, which is a body where it is a group in
/// braces. `None` where the text cannot be read back.
pub open spec fn impl_method_of(text: Seq<char>) -> Option<(ImplItemMethodView, bool)> {
    if !readable(text) {
        None
    } else {
        match settled(text, syn_outer_attrs(text)) {
            Err(_) => None,
            Ok((attrs, t1)) => match settled(t1, syn_visibility(t1)) {
                Err(_) => None,
                Ok((vis, t2)) => match settled(
                    eat_keyword(t2, "default"@).1,
                    syn_signature(eat_keyword(t2, "default"@).1),
                ) {
                    Err(_) => None,
                    Ok((sig_text, t4)) => match read_signature(sig_text) {
                        None => None,
                        Some(sig) => Some(
                            (
                                ImplItemMethodView {
                                    attrs: attributes(attrs, false),
                                    vis,
                                    defaultness: eat_keyword(t2, "default"@).0,
                                    sig,
                                    block: t4,
                                },
                                peek_brace(t4) && after_token(t4).len() == 0,
                            ),
                        ),
                    },
                },
            },
        }
    }
}

fn parse_impl_method(text: &str) -> (r: Option<(ImplItemMethod, bool)>)
    ensures
        match r {
            Some((method, whole)) => impl_method_of(text@) == Some((method@, whole)),
            None => impl_method_of(text@) is None,
        },
{
    if find_flaw(text).is_some() {
        return None;
    }
    let (attrs, t1) = match settle(text, split_outer_attrs(text)) {
        Err(_) => return None,
        Ok(found) => found,
    };
    let (vis, t2) = match settle(t1.as_str(), split_visibility(t1.as_str())) {
        Err(_) => return None,
        Ok(found) => found,
    };
    let (defaultness, t3) = take_keyword(t2.as_str(), "default");
    let (sig_text, t4) = match settle(t3.as_str(), split_signature(t3.as_str())) {
        Err(_) => return None,
        Ok(found) => found,
    };
    let sig = match parse_signature(sig_text.as_str()) {
        None => return None,
        Some(sig) => sig,
    };
    let whole = is_brace(t4.as_str()) && rest_after_token(t4.as_str()).as_str().is_empty();
    let attrs = make_attributes(&attrs, false);
    Some((ImplItemMethod { attrs, vis, defaultness, sig, block: t4 }, whole))
}

/// The member of an implementation block at the front of a text, and the
/// text after it. An operation without a body is kept as its text, unless
/// it is asynchronous: that one is refused.
pub open spec fn impl_item_at(text: Seq<char>) -> Result<
    (ImplItemView, Seq<char>),
    ParseErrorView,
> {
    match settled(text, syn_impl_item(text)) {
        Err(e) => Err(e),
        Ok(((item, is_method), rest)) => if is_method {
            match impl_method_of(item) {
                None => Err(error_at(ParseErrorKind::Internal, mismatch_message(), text)),
                Some((method, whole)) => if whole {
                    Ok((ImplItemView::Method(method), rest))
                } else if method.sig.asyncness {
                    Err(error_at(ParseErrorKind::Unsupported, bodiless_message(), text))
                } else {
                    Ok((ImplItemView::Other(item), rest))
                },
            }
        } else {
            Ok((ImplItemView::Other(item), rest))
        },
    }
}

/// Parses the member of an implementation block that stands at the front of
/// `text`.
pub(crate) fn parse_impl_item(text: &str) -> (r: Result<(ImplItem, String), ParseError>)
    requires
        readable(text@),
    ensures
        parsed_view(r) == impl_item_at(text@),
        r matches Ok((_, rest)) ==> readable(rest@),
{
    match settle(text, split_impl_item(text)) {
        Err(e) => Err(e),
        Ok(((item, is_method), rest)) => {
            if is_method {
                match parse_impl_method(item.as_str()) {
                    None => Err(
                        make_error(
                            ParseErrorKind::Internal,
                            "a syntax node could not be read back",
                            text,
                        ),
                    ),
                    Some((method, whole)) => {
                        if whole {
                            Ok((ImplItem::Method(method), rest))
                        } else if method.sig.asyncness {
                            Err(
                                make_error(
                                    ParseErrorKind::Unsupported,
                                    "an operation of an implementation needs a body",
                                    text,
                                ),
                            )
                        } else {
                            Ok((ImplItem::Other(item), rest))
                        }
                    },
                }
            } else {
                Ok((ImplItem::Other(item), rest))
            }
        },
    }
}

/// The members that a text holds, in order, until the text is used up.
pub open spec fn impl_items_of(text: Seq<char>) -> Result<Seq<ImplItemView>, ParseErrorView>
    decreases text.len(),
{
    if text.len() == 0 {
        Ok(Seq::empty())
    } else {
        match impl_item_at(text) {
            Err(e) => Err(e),
            Ok((item, rest)) => if rest.len() < text.len() {
                prepend(seq![item], impl_items_of(rest))
            } else {
                Err(error_at(ParseErrorKind::Internal, stalled_message(), text))
            },
        }
    }
}

/// Parses the members of an implementation block from the content of its
/// body.
pub(crate) fn parse_impl_items(text: &str) -> (r: Result<Vec<ImplItem>, ParseError>)
    requires
        readable(text@),
    ensures
        match r {
            Ok(items) => impl_items_of(text@) == Ok::<_, ParseErrorView>(views(items@)),
            Err(e) => impl_items_of(text@) == Err::<Seq<ImplItemView>, _>(e@),
        },
{
    let mut items: Vec<ImplItem> = Vec::new();
    let mut cur = copy_text(text);
    let mut len = cur.as_str().unicode_len();
    proof {
        lemma_views_empty::<ImplItem>();
        match impl_items_of(text@) {
            Ok(more) => assert(Seq::<ImplItemView>::empty() + more =~= more),
            Err(_) => {},
        }
    }
    while len > 0
        invariant
            len == cur@.len(),
            readable(cur@),
            impl_items_of(text@) == prepend(views(items@), impl_items_of(cur@)),
        decreases cur@.len(),
    {
        match parse_impl_item(cur.as_str()) {
            Err(e) => {
                return Err(e);
            },
            Ok((item, rest)) => {
                let rest_len = rest.as_str().unicode_len();
                if rest_len >= len {
                    return Err(
                        make_error(
                            ParseErrorKind::Internal,
                            "the parser made no progress",
                            cur.as_str(),
                        ),
                    );
                }
                proof {
                    lemma_views_push(items@, item);
                    match impl_items_of(rest@) {
                        Ok(more) => assert(views(items@) + (seq![item@] + more) =~= views(
                            items@,
                        ).push(item@) + more),
                        Err(_) => {},
                    }
                }
                items.push(item);
                cur = rest;
                len = rest_len;
            },
        }
    }
    proof {
        assert(views(items@) + Seq::<ImplItemView>::empty() =~= views(items@));
    }
    Ok(items)
}

/// What stands before the generics of an implementation block.
pub struct ImplFront {
    pub attrs: Vec<String>,
    pub has_visibility: bool,
    pub defaultness: bool,
    pub unsafety: bool,
}

/// The view of `ImplFront`: each text as its sequence of characters.
pub struct ImplFrontView {
    pub attrs: Seq<Seq<char>>,
    pub has_visibility: bool,
    pub defaultness: bool,
    pub unsafety: bool,
}

impl View for ImplFront {
    type V = ImplFrontView;

    open spec fn view(&self) -> ImplFrontView {
        ImplFrontView {
            attrs: views(self.attrs@),
            has_visibility: self.has_visibility,
            defaultness: self.defaultness,
            unsafety: self.unsafety,
        }
    }
}

/// Whether a visibility stands at the front of a text, and the text after
/// it. Where verbatim blocks are not allowed, none is looked for.
pub open spec fn visibility_if(text: Seq<char>, allow_verbatim_impl: bool) -> Result<
    (bool, Seq<char>),
    ParseErrorView,
> {
    if allow_verbatim_impl {
        match settled(text, syn_visibility(text)) {
            Err(e) => Err(e),
            Ok((vis, rest)) => Ok((vis.len() > 0, rest)),
        }
    } else {
        Ok((false, text))
    }
}

/// The front of an implementation block: outer attributes, a visibility
/// where verbatim blocks are allowed, `default` and `unsafe` where they
/// stand, and `impl`.
pub open spec fn impl_front_at(text: Seq<char>, allow_verbatim_impl: bool) -> Result<
    (ImplFrontView, Seq<char>),
    ParseErrorView,
> {
    match settled(text, syn_outer_attrs(text)) {
        Err(e) => Err(e),
        Ok((attrs, t1)) => match visibility_if(t1, allow_verbatim_impl) {
            Err(e) => Err(e),
            Ok((has_visibility, t2)) => {
            let (defaultness, t3) = eat_keyword(t2, "default"@);
            let (unsafety, t4) = eat_keyword(t3, "unsafe"@);
            if !peek_keyword(t4, "impl"@) {
                Err(syntax_error(expected("impl"@), t4))
            } else {
                Ok(
                    (
                        ImplFrontView { attrs, has_visibility, defaultness, unsafety },
                        after_token(t4),
                    ),
                )
            }
            },
        },
    }
}

fn parse_impl_front(text: &str, allow_verbatim_impl: bool) -> (r: Result<
    (ImplFront, String),
    ParseError,
>)
    requires
        readable(text@),
    ensures
        r matches Ok((_, rest)) ==> readable(rest@),
        parsed_view(r) == impl_front_at(text@, allow_verbatim_impl),
{
    let (attrs, t1) = match settle(text, split_outer_attrs(text)) {
        Err(e) => return Err(e),
        Ok(found) => found,
    };
    let (has_visibility, t2) = if allow_verbatim_impl {
        match settle(t1.as_str(), split_visibility(t1.as_str())) {
            Err(e) => return Err(e),
            Ok((vis, rest)) => (!vis.as_str().is_empty(), rest),
        }
    } else {
        (false, t1)
    };
    let (defaultness, t3) = take_keyword(t2.as_str(), "default");
    let (unsafety, t4) = take_keyword(t3.as_str(), "unsafe");
    if !is_keyword(t4.as_str(), "impl") {
        return Err(expected_error("impl", t4.as_str()));
    }
    Ok((ImplFront { attrs, has_visibility, defaultness, unsafety }, rest_after_token(t4.as_str())))
}

/// Whether the second token of a text passes `test`.
pub open spec fn second(text: Seq<char>, test: spec_fn(Seq<char>) -> bool) -> bool {
    match skip(text) {
        Some(rest) => test(rest),
        None => false,
    }
}

/// What the first three tokens after `impl` are.
#[derive(Clone, Copy, PartialEq, Eq, Structural, Debug)]
pub struct GenericsLook {
    /// `<` stands first.
    pub angle: bool,
    /// `>`, `#` or `const` stands second.
    pub close_second: bool,
    pub pound_second: bool,
    pub const_second: bool,
    /// An identifier or a lifetime stands second.
    pub name_second: bool,
    /// `:`, `,`, `>` or `=` stands third.
    pub colon_third: bool,
    pub comma_third: bool,
    pub close_third: bool,
    pub equals_third: bool,
}

/// Whether a generics list starts, and not a type in angle brackets: `<`
/// followed by `>`, by `#`, by `const`, or by an identifier or a lifetime
/// that `:`, `,`, `>` or `=` follows.
pub open spec fn opens_generics(look: GenericsLook) -> bool {
    look.angle && (look.close_second || look.pound_second || (look.name_second && (
    look.colon_third || look.comma_third || look.close_third || look.equals_third))
        || look.const_second)
}

/// Tells whether a generics list starts, from the first three tokens after
/// `impl`.
pub fn starts_generics(look: GenericsLook) -> (r: bool)
    ensures
        r == opens_generics(look),
{
    look.angle && (look.close_second || look.pound_second || (look.name_second && (
    look.colon_third || look.comma_third || look.close_third || look.equals_third))
        || look.const_second)
}

/// Whether the third token of a text passes `test`.
pub open spec fn third(text: Seq<char>, test: spec_fn(Seq<char>) -> bool) -> bool {
    match skip(text) {
        Some(rest) => second(rest, test),
        None => false,
    }
}

/// The first three tokens of a text, as far as a generics list is told by
/// them.
pub open spec fn generics_look(text: Seq<char>) -> GenericsLook {
    GenericsLook {
        angle: peek_punct(text, '<'),
        close_second: second(text, |t: Seq<char>| peek_punct(t, '>')),
        pound_second: second(text, |t: Seq<char>| peek_punct(t, '#')),
        const_second: second(text, |t: Seq<char>| peek_keyword(t, "const"@)),
        name_second: second(text, |t: Seq<char>| peek_ident(t) || peek_lifetime(t)),
        colon_third: third(text, |t: Seq<char>| peek_punct(t, ':')),
        comma_third: third(text, |t: Seq<char>| peek_punct(t, ',')),
        close_third: third(text, |t: Seq<char>| peek_punct(t, '>')),
        equals_third: third(text, |t: Seq<char>| peek_punct(t, '=')),
    }
}

/// Whether a generics list starts the text.
pub open spec fn generics_ahead(text: Seq<char>) -> bool {
    opens_generics(generics_look(text))
}

fn look_for_generics(text: &str) -> (look: GenericsLook)
    ensures
        look == generics_look(text@),
{
    let t2 = skip_token(text);
    let t3 = match &t2 {
        Some(t) => skip_token(t.as_str()),
        None => None,
    };
    let (close_second, pound_second, const_second, name_second) = match &t2 {
        Some(t) => (
            is_punct(t.as_str(), '>'),
            is_punct(t.as_str(), '#'),
            is_keyword(t.as_str(), "const"),
            is_ident(t.as_str()) || is_lifetime(t.as_str()),
        ),
        None => (false, false, false, false),
    };
    let (colon_third, comma_third, close_third, equals_third) = match &t3 {
        Some(t) => (
            is_punct(t.as_str(), ':'),
            is_punct(t.as_str(), ','),
            is_punct(t.as_str(), '>'),
            is_punct(t.as_str(), '='),
        ),
        None => (false, false, false, false),
    };
    GenericsLook {
        angle: is_punct(text, '<'),
        close_second,
        pound_second,
        const_second,
        name_second,
        colon_third,
        comma_third,
        close_third,
        equals_third,
    }
}

fn has_generics(text: &str) -> (r: bool)
    ensures
        r == generics_ahead(text@),
{
    starts_generics(look_for_generics(text))
}

/// The generic parameters of an implementation block: those of the list at
/// the front of the text where one starts there, none otherwise.
pub open spec fn impl_params_at(text: Seq<char>) -> Result<
    (Seq<GenericParamView>, Seq<char>),
    ParseErrorView,
> {
    if generics_ahead(text) {
        params_at(text)
    } else {
        Ok((Seq::empty(), text))
    }
}

/// Whether a const qualifier starts the text: `const`, or `?` and `const`.
pub open spec fn const_ahead(text: Seq<char>) -> bool {
    peek_keyword(text, "const"@) || (peek_punct(text, '?') && second(
        text,
        |t: Seq<char>| peek_keyword(t, "const"@),
    ))
}

/// The const qualifier of a verbatim implementation block, taken off the
/// front of the text where it stands there.
pub open spec fn const_marker_at(text: Seq<char>, allow_verbatim_impl: bool) -> (bool, Seq<char>) {
    if allow_verbatim_impl && const_ahead(text) {
        (true, eat_keyword(eat_punct(text, '?').1, "const"@).1)
    } else {
        (false, text)
    }
}

fn parse_const_marker(text: &str, allow_verbatim_impl: bool) -> (r: (bool, String))
    ensures
        readable(text@) ==> readable(r.1@),
        (r.0, r.1@) == const_marker_at(text@, allow_verbatim_impl),
{
    let ahead = allow_verbatim_impl && (is_keyword(text, "const") || (is_punct(text, '?')
        && match skip_token(text) {
        None => false,
        Some(t) => is_keyword(t.as_str(), "const"),
    }));
    if ahead {
        let (_, t1) = take_punct(text, '?');
        let (_, t2) = take_keyword(t1.as_str(), "const");
        (true, t2)
    } else {
        (false, copy_text(text))
    }
}

/// The negation of an implementation, taken off the front of the text:
/// `!`, unless a brace follows it.
pub open spec fn polarity_at(text: Seq<char>) -> (bool, Seq<char>) {
    if peek_punct(text, '!') && !second(text, |t: Seq<char>| peek_brace(t)) {
        (true, after_token(text))
    } else {
        (false, text)
    }
}

fn parse_polarity(text: &str) -> (r: (bool, String))
    ensures
        readable(text@) ==> readable(r.1@),
        (r.0, r.1@) == polarity_at(text@),
{
    let brace_follows = match skip_token(text) {
        None => false,
        Some(t) => is_brace(t.as_str()),
    };
    if is_punct(text, '!') && !brace_follows {
        (true, rest_after_token(text))
    } else {
        (false, copy_text(text))
    }
}

/// What an implementation block is for.
pub struct Target {
    pub trait_: Option<(bool, String)>,
    pub shape: TargetShape,
    pub self_ty: String,
}

/// The view of `Target`: each text as its sequence of characters.
pub struct TargetView {
    pub trait_: Option<(bool, Seq<char>)>,
    pub shape: TargetShape,
    pub self_ty: Seq<char>,
}

impl View for Target {
    type V = TargetView;

    open spec fn view(&self) -> TargetView {
        TargetView {
            trait_: trait_view(self.trait_),
            shape: self.shape,
            self_ty: self.self_ty@,
        }
    }
}

/// The message for an interface that is no plain path.
pub open spec fn trait_path_message() -> Seq<char> {
    "expected trait path"@
}

/// The message for a negated implementation of no interface.
pub open spec fn negative_inherent_message() -> Seq<char> {
    "a negative implementation needs an interface"@
}

/// What an implementation block turns out to be for.
#[derive(Clone, Copy, PartialEq, Eq, Structural, Debug)]
pub enum TargetShape {
    /// An interface, named by a plain path.
    Interface,
    /// Something that is no plain path, in a verbatim block.
    Unnamed,
    /// The type alone.
    Inherent,
}

/// Why the target of an implementation block is refused.
#[derive(Clone, Copy, PartialEq, Eq, Structural, Debug)]
pub enum TargetError {
    /// What stands before `for` is no plain path.
    NotAPath,
    /// A negation without an interface.
    NegativeInherent,
}

/// The shape of the target of an implementation block. `path` tells of the
/// first type, where it is a path, whether it has a qualified self type.
/// With `for`, the first type names the interface and has to be a plain
/// path, one without a qualified self type, unless verbatim blocks are
/// allowed; without `for`, the block is inherent and
/// cannot be negated.
pub open spec fn target_shape(
    is_impl_for: bool,
    path: Option<bool>,
    negative: bool,
    allow_verbatim_impl: bool,
) -> Result<TargetShape, TargetError> {
    if is_impl_for {
        if path == Some(false) {
            Ok(TargetShape::Interface)
        } else if allow_verbatim_impl {
            Ok(TargetShape::Unnamed)
        } else {
            Err(TargetError::NotAPath)
        }
    } else if negative {
        Err(TargetError::NegativeInherent)
    } else {
        Ok(TargetShape::Inherent)
    }
}

/// Decides the shape of the target of an implementation block.
pub fn decide_target(
    is_impl_for: bool,
    path: Option<bool>,
    negative: bool,
    allow_verbatim_impl: bool,
) -> (r: Result<TargetShape, TargetError>)
    ensures
        r == target_shape(is_impl_for, path, negative, allow_verbatim_impl),
{
    let is_path = match path {
        Some(qualified) => !qualified,
        None => false,
    };
    if is_impl_for {
        if is_path {
            Ok(TargetShape::Interface)
        } else if allow_verbatim_impl {
            Ok(TargetShape::Unnamed)
        } else {
            Err(TargetError::NotAPath)
        }
    } else if negative {
        Err(TargetError::NegativeInherent)
    } else {
        Ok(TargetShape::Inherent)
    }
}

/// Whether a block that has parsed is rewritten: it has no visibility and
/// no const qualifier, and where it is for something, that is an interface.
pub open spec fn applicable(has_visibility: bool, is_const_impl: bool, shape: TargetShape) -> bool {
    !has_visibility && !is_const_impl && shape != TargetShape::Unnamed
}

/// Decides whether a block that has parsed is rewritten.
pub fn is_applicable(has_visibility: bool, is_const_impl: bool, shape: TargetShape) -> (r: bool)
    ensures
        r == applicable(has_visibility, is_const_impl, shape),
{
    !has_visibility && !is_const_impl && match shape {
        TargetShape::Unnamed => false,
        _ => true,
    }
}

/// The target of an implementation block at the front of a text: a type,
/// and after `for` a second one.
pub open spec fn target_at(text: Seq<char>, negative: bool, allow_verbatim_impl: bool) -> Result<
    (TargetView, Seq<char>),
    ParseErrorView,
> {
    match settled(text, syn_type(text)) {
        Err(e) => Err(e),
        Ok(((first_ty, path), t1)) => match target_shape(
            peek_keyword(t1, "for"@),
            path,
            negative,
            allow_verbatim_impl,
        ) {
            Err(TargetError::NotAPath) => Err(syntax_error(trait_path_message(), text)),
            Err(TargetError::NegativeInherent) => Err(
                error_at(ParseErrorKind::Unsupported, negative_inherent_message(), text),
            ),
            Ok(TargetShape::Inherent) => Ok(
                (TargetView { trait_: None, shape: TargetShape::Inherent, self_ty: first_ty }, t1),
            ),
            Ok(shape) => match settled(after_token(t1), syn_type(after_token(t1))) {
                Err(e) => Err(e),
                Ok(((self_ty, _), t2)) => Ok(
                    (
                        TargetView {
                            trait_: if shape == TargetShape::Interface {
                                Some((negative, first_ty))
                            } else {
                                None
                            },
                            shape,
                            self_ty,
                        },
                        t2,
                    ),
                ),
            },
        },
    }
}

fn parse_target(text: &str, negative: bool, allow_verbatim_impl: bool) -> (r: Result<
    (Target, String),
    ParseError,
>)
    requires
        readable(text@),
    ensures
        r matches Ok((_, rest)) ==> readable(rest@),
        parsed_view(r) == target_at(text@, negative, allow_verbatim_impl),
{
    let ((first_ty, path), t1) = match settle(text, split_type(text)) {
        Err(e) => return Err(e),
        Ok(found) => found,
    };
    let is_impl_for = is_keyword(t1.as_str(), "for");
    match decide_target(is_impl_for, path, negative, allow_verbatim_impl) {
        Err(TargetError::NotAPath) => Err(
            make_error(ParseErrorKind::Syntax, "expected trait path", text),
        ),
        Err(TargetError::NegativeInherent) => Err(
            make_error(
                ParseErrorKind::Unsupported,
                "a negative implementation needs an interface",
                text,
            ),
        ),
        Ok(TargetShape::Inherent) => Ok(
            (Target { trait_: None, shape: TargetShape::Inherent, self_ty: first_ty }, t1),
        ),
        Ok(shape) => {
            let after = rest_after_token(t1.as_str());
            match settle(after.as_str(), split_type(after.as_str())) {
                Err(e) => Err(e),
                Ok(((self_ty, _), t2)) => {
                    let trait_ = match shape {
                        TargetShape::Interface => Some((negative, first_ty)),
                        _ => None,
                    };
                    Ok((Target { trait_, shape, self_ty }, t2))
                },
            }
        },
    }
}

/// The body of an implementation block at the front of a text: the inner
/// attributes, the members, and the text after the group in braces.
pub open spec fn impl_body_of(text: Seq<char>) -> Result<
    (Seq<Seq<char>>, Seq<ImplItemView>, Seq<char>),
    ParseErrorView,
> {
    match brace_group(text) {
        None => Err(syntax_error("expected curly braces"@, text)),
        Some((content, after)) => match settled(content, syn_inner_attrs(content)) {
            Err(e) => Err(inside(e, text)),
            Ok((inner, c1)) => match impl_items_of(c1) {
                Err(e) => Err(inside(e, text)),
                Ok(items) => Ok((inner, items, after)),
            },
        },
    }
}

fn parse_impl_body(text: &str) -> (r: Result<(Vec<String>, Vec<ImplItem>, String), ParseError>)
    requires
        readable(text@),
    ensures
        r matches Ok((_, _, rest)) ==> readable(rest@),
        match r {
            Ok((inner, items, rest)) => impl_body_of(text@) == Ok::<_, ParseErrorView>(
                (views(inner@), views(items@), rest@),
            ),
            Err(e) => impl_body_of(text@) == Err::<
                (Seq<Seq<char>>, Seq<ImplItemView>, Seq<char>),
                _,
            >(e@),
        },
{
    let (content, after) = match take_brace_group(text) {
        None => return Err(make_error(ParseErrorKind::Syntax, "expected curly braces", text)),
        Some(found) => found,
    };
    let (inner, c1) = match settle(content.as_str(), split_inner_attrs(content.as_str())) {
        Err(e) => return Err(mark_inside(e, text)),
        Ok(found) => found,
    };
    match parse_impl_items(c1.as_str()) {
        Err(e) => Err(mark_inside(e, text)),
        Ok(items) => Ok((inner, items, after)),
    }
}

/// The implementation block at the front of a text, and the text after it:
/// the front, the generics, a const qualifier, a negation, the target, the
/// where-clause and the body, in this order. The block is `None` where it
/// parses in a shape that is not rewritten: with a visibility, with a const
/// qualifier, or for an interface that is no plain path.
pub open spec fn impl_at(text: Seq<char>, allow_verbatim_impl: bool) -> Result<
    (Option<AsyncItemImplView>, Seq<char>),
    ParseErrorView,
> {
    match impl_front_at(text, allow_verbatim_impl) {
        Err(e) => Err(e),
        Ok((front, t1)) => match impl_params_at(t1) {
            Err(e) => Err(e),
            Ok((params, t2)) => {
                let (is_const_impl, t3) = const_marker_at(t2, allow_verbatim_impl);
                let (negative, t4) = polarity_at(t3);
                match target_at(t4, negative, allow_verbatim_impl) {
                    Err(e) => Err(e),
                    Ok((target, t5)) => match settled(t5, syn_where_clause(t5)) {
                        Err(e) => Err(e),
                        Ok((predicates, t6)) => match impl_body_of(t6) {
                            Err(e) => Err(e),
                            Ok((inner, items, t7)) => if !applicable(
                                front.has_visibility,
                                is_const_impl,
                                target.shape,
                            ) {
                                Ok((None, t7))
                            } else {
                                Ok(
                                    (
                                        Some(
                                            AsyncItemImplView {
                                                attrs: attributes(front.attrs, false) + attributes(
                                                    inner,
                                                    true,
                                                ),
                                                defaultness: front.defaultness,
                                                unsafety: front.unsafety,
                                                generics: GenericsView { params, predicates },
                                                trait_: target.trait_,
                                                self_ty: target.self_ty,
                                                items,
                                            },
                                        ),
                                        t7,
                                    ),
                                )
                            },
                        },
                    },
                }
            },
        },
    }
}

/// The outcome of the parser of blocks seen through views.
pub open spec fn impl_parsed_view(r: Result<(Option<AsyncItemImpl>, String), ParseError>) -> Result<
    (Option<AsyncItemImplView>, Seq<char>),
    ParseErrorView,
> {
    match r {
        Ok((Some(block), rest)) => Ok((Some(block@), rest@)),
        Ok((None, rest)) => Ok((None, rest@)),
        Err(e) => Err(e@),
    }
}

/// Parses the implementation block that stands at the front of `input`, and
/// returns it with the text that follows it. With `allow_verbatim_impl`, a
/// block with a visibility, with a const qualifier or for an interface that
/// is no plain path is read to its end and given as `None`.
/// The text is split into tokens first; where a literal of a form that is
/// not known stands outside an attribute, the text is refused before
/// anything is parsed.
pub fn parse_impl(input: &str, allow_verbatim_impl: bool) -> (r: Result<
    (Option<AsyncItemImpl>, String),
    ParseError,
>)
    ensures
        impl_parsed_view(r) == on_tokens(
            input@,
            |tokens: Seq<char>| impl_at(tokens, allow_verbatim_impl),
        ),
        !allow_verbatim_impl ==> !(r matches Ok((None, _))),
{
    let tokens = match tokenize(input) {
        Err(e) => return Err(e),
        Ok(tokens) => tokens,
    };
    match refuse_unreadable(tokens.as_str()) {
        Some(e) => Err(e),
        None => parse_impl_tokens(tokens.as_str(), allow_verbatim_impl),
    }
}

fn parse_impl_tokens(input: &str, allow_verbatim_impl: bool) -> (r: Result<
    (Option<AsyncItemImpl>, String),
    ParseError,
>)
    requires
        readable(input@),
    ensures
        impl_parsed_view(r) == impl_at(input@, allow_verbatim_impl),
        !allow_verbatim_impl ==> !(r matches Ok((None, _))),
{
    let (front, t1) = match parse_impl_front(input, allow_verbatim_impl) {
        Err(e) => return Err(e),
        Ok(found) => found,
    };
    let (params, t2) = if has_generics(t1.as_str()) {
        match parse_generic_params(t1.as_str()) {
            Err(e) => return Err(e),
            Ok(found) => found,
        }
    } else {
        proof {
            lemma_views_empty::<GenericParam>();
        }
        (Vec::new(), t1)
    };
    let (is_const_impl, t3) = parse_const_marker(t2.as_str(), allow_verbatim_impl);
    let (negative, t4) = parse_polarity(t3.as_str());
    let (target, t5) = match parse_target(t4.as_str(), negative, allow_verbatim_impl) {
        Err(e) => return Err(e),
        Ok(found) => found,
    };
    let (predicates, t6) = match settle(t5.as_str(), split_where_clause(t5.as_str())) {
        Err(e) => return Err(e),
        Ok(found) => found,
    };
    let (inner, items, t7) = match parse_impl_body(t6.as_str()) {
        Err(e) => return Err(e),
        Ok(found) => found,
    };
    if !is_applicable(front.has_visibility, is_const_impl, target.shape) {
        Ok((None, t7))
    } else {
        let mut attrs = make_attributes(&front.attrs, false);
        append_attributes(&mut attrs, make_attributes(&inner, true));
        Ok(
            (
                Some(
                    AsyncItemImpl {
                        attrs,
                        defaultness: front.defaultness,
                        unsafety: front.unsafety,
                        generics: Generics { params, predicates },
                        trait_: target.trait_,
                        self_ty: target.self_ty,
                        items,
                    },
                ),
                t7,
            ),
        )
    }
}

/// The message for a block in a shape that is not rewritten.
pub open spec fn not_applicable_message() -> Seq<char> {
    "the implementation block has a shape that is not rewritten"@
}

/// The implementation block at the front of a text, no verbatim block
/// allowed.
pub open spec fn supported_impl_at(text: Seq<char>) -> Result<
    (AsyncItemImplView, Seq<char>),
    ParseErrorView,
> {
    match on_tokens(text, |tokens: Seq<char>| impl_at(tokens, false)) {
        Err(e) => Err(e),
        Ok((Some(block), rest)) => Ok((block, rest)),
        Ok((None, _)) => Err(error_at(ParseErrorKind::Unsupported, not_applicable_message(), text)),
    }
}

/// The implementation block that a text holds and nothing else.
pub open spec fn impl_of(text: Seq<char>) -> Result<AsyncItemImplView, ParseErrorView> {
    match supported_impl_at(text) {
        Err(e) => Err(e),
        Ok((block, rest)) => if rest.len() == 0 {
            Ok(block)
        } else {
            Err(syntax_error(trailing_message(), rest))
        },
    }
}

impl AsyncItemImpl {
    /// Parses the implementation block that stands at the front of `input`,
    /// and returns it with the text that follows it. A block in a shape
    /// that is not rewritten is an error.
    pub fn parse(input: &str) -> (r: Result<(AsyncItemImpl, String), ParseError>)
        ensures
            parsed_view(r) == supported_impl_at(input@),
    {
        let allow_verbatim_impl = false;
        match parse_impl(input, allow_verbatim_impl) {
            Err(e) => Err(e),
            Ok((Some(block), rest)) => Ok((block, rest)),
            Ok((None, _)) => Err(
                make_error(
                    ParseErrorKind::Unsupported,
                    "the implementation block has a shape that is not rewritten",
                    input,
                ),
            ),
        }
    }

    /// Parses a text that holds one implementation block and nothing after
    /// it.
    pub fn parse_all(input: &str) -> (r: Result<AsyncItemImpl, ParseError>)
        ensures
            match r {
                Ok(block) => impl_of(input@) == Ok::<_, ParseErrorView>(block@),
                Err(e) => impl_of(input@) == Err::<AsyncItemImplView, _>(e@),
            },
    {
        match AsyncItemImpl::parse(input) {
            Err(e) => Err(e),
            Ok((block, rest)) => {
                if rest.as_str().is_empty() {
                    Ok(block)
                } else {
                    Err(make_error(ParseErrorKind::Syntax, "unexpected token", rest.as_str()))
                }
            },
        }
    }
}

/// The member type that an implementation gives to the future of an
/// operation: an opaque future that may live for the lifetimes of the
/// operation and resolves to its return type.
pub open spec fn concrete_future(sig: SignatureView) -> Seq<char> {
    join(
        seq![
            "type"@,
            pascal_case(sig.ident),
            generics_text(sig.generics.params, Form::Bounded),
            "="@,
            "impl"@,
            future_bound(lifetime_bounds(sig.generics.params), sig.output),
            where_text(sig.generics.predicates),
            ";"@,
        ],
    )
}

/// What stands before the signature of an operation of an implementation.
pub open spec fn method_front(m: ImplItemMethodView, keep: Keep) -> Seq<char> {
    join(seq![attr_texts(m.attrs, keep), m.vis, word_if(m.defaultness, "default"@)])
}

fn print_method_front(m: &ImplItemMethod, keep: Keep) -> (out: String)
    ensures
        out@ == method_front(m@, keep),
{
    let defaultness = if m.defaultness {
        String::from_str("default")
    } else {
        String::new()
    };
    let pieces = vec![print_attrs(&m.attrs, keep), m.vis.clone(), defaultness];
    proof {
        assert(views(pieces@) =~= seq![
            attr_texts(m@.attrs, keep),
            m@.vis,
            word_if(m.defaultness, "default"@),
        ]);
    }
    join_pieces(&pieces)
}

/// An asynchronous operation of an implementation, rewritten: the member
/// type of its future, and the operation that returns it. An operation with
/// a second lifetime is refused.
pub open spec fn implemented_async(m: ImplItemMethodView) -> Result<
    RewrittenView,
    RewriteErrorView,
> {
    let sig = synthesized_signature(m.sig);
    match lifetime_error(sig) {
        Some(e) => Err(e),
        None => Ok(
            RewrittenView {
                future: Some(concrete_future(sig)),
                operation: rewritten_signature(
                    method_front(m, Keep::All),
                    sig,
                    self_future(sig),
                    future_body(sig.asyncness, m.block),
                ),
                extra: Seq::empty(),
            },
        ),
    }
}

/// Rewrites an asynchronous operation of an implementation block.
pub fn impl_async_fn(method: &ImplItemMethod) -> (r: Result<Rewritten, RewriteError>)
    ensures
        rewritten_view(r) == implemented_async(method@),
{
    let (sig, bounds, _) = synthesize(&method.sig);
    match check_lifetimes(&sig) {
        Some(e) => {
            return Err(e);
        },
        None => {},
    }
    let bound = print_future_bound(&bounds, sig.output.as_str());
    let pieces = vec![
        String::from_str("type"),
        to_pascal_case(sig.ident.as_str()),
        print_generics(&sig.generics.params, Form::Bounded),
        String::from_str("="),
        String::from_str("impl"),
        bound,
        print_where(&sig.generics.predicates),
        String::from_str(";"),
    ];
    proof {
        assert(views(pieces@) =~= seq![
            "type"@,
            pascal_case(sig@.ident),
            generics_text(sig@.generics.params, Form::Bounded),
            "="@,
            "impl"@,
            future_bound(lifetime_bounds(sig@.generics.params), sig@.output),
            where_text(sig@.generics.predicates),
            ";"@,
        ]);
        lemma_views_empty::<String>();
    }
    let future = join_pieces(&pieces);
    let front = print_method_front(method, Keep::All);
    let return_type = print_self_future(&sig);
    let body = print_future_body(sig.asyncness, method.block.as_str());
    let operation = print_rewritten_signature(
        front.as_str(),
        &sig,
        return_type.as_str(),
        body.as_str(),
    );
    Ok(Rewritten { future: Some(future), operation, extra: Vec::new() })
}

/// A member of an implementation as written.
pub open spec fn impl_item_text(item: ImplItemView) -> Seq<char> {
    match item {
        ImplItemView::Method(m) => join(
            seq![method_front(m, Keep::Outer), signature_text(m.sig), m.block],
        ),
        ImplItemView::Other(text) => text,
    }
}

/// A member of an implementation, rewritten where it is an asynchronous
/// operation and left as it is otherwise.
pub open spec fn implemented(item: ImplItemView) -> Result<RewrittenView, RewriteErrorView> {
    match item {
        ImplItemView::Method(m) => if m.sig.asyncness {
            implemented_async(m)
        } else {
            Ok(
                RewrittenView {
                    future: None,
                    operation: impl_item_text(item),
                    extra: Seq::empty(),
                },
            )
        },
        ImplItemView::Other(_) => Ok(
            RewrittenView { future: None, operation: impl_item_text(item), extra: Seq::empty() },
        ),
    }
}

/// Rewrites a member of an implementation block.
pub fn impl_fn(item: &ImplItem) -> (r: Result<Rewritten, RewriteError>)
    ensures
        rewritten_view(r) == implemented(item@),
{
    proof {
        lemma_views_empty::<String>();
    }
    match item {
        ImplItem::Method(m) => {
            if m.sig.asyncness {
                impl_async_fn(m)
            } else {
                let pieces = vec![
                    print_method_front(m, Keep::Outer),
                    print_signature(&m.sig),
                    m.block.clone(),
                ];
                proof {
                    assert(views(pieces@) =~= seq![
                        method_front(m@, Keep::Outer),
                        signature_text(m@.sig),
                        m@.block,
                    ]);
                }
                Ok(Rewritten { future: None, operation: join_pieces(&pieces), extra: Vec::new() })
            }
        },
        ImplItem::Other(text) => Ok(
            Rewritten { future: None, operation: text.clone(), extra: Vec::new() },
        ),
    }
}

/// The interface that a block implements, as written before the type.
pub open spec fn trait_ref_text(t: Option<(bool, Seq<char>)>) -> Seq<char> {
    match t {
        Some((negative, path)) => join(seq![word_if(negative, "!"@), path, "for"@]),
        None => Seq::empty(),
    }
}

/// An implementation block around the given members.
pub open spec fn impl_text(block: AsyncItemImplView, members: Seq<char>) -> Seq<char> {
    join(
        seq![
            attr_texts(block.attrs, Keep::Outer),
            word_if(block.defaultness, "default"@),
            word_if(block.unsafety, "unsafe"@),
            "impl"@,
            generics_text(block.generics.params, Form::Declared),
            trait_ref_text(block.trait_),
            block.self_ty,
            where_text(block.generics.predicates),
            braces(spaced(attr_texts(block.attrs, Keep::Inner), members)),
        ],
    )
}

/// The rewritten members of an implementation block.
pub open spec fn implemented_all(items: Seq<ImplItemView>) -> Result<
    (Seq<char>, Seq<Seq<char>>),
    RewriteErrorView,
> {
    rewritten_all(items.map_values(|item: ImplItemView| implemented(item)))
}

/// An implementation block with every asynchronous operation rewritten.
pub open spec fn impl_rewritten(block: AsyncItemImplView) -> Result<Seq<char>, RewriteErrorView> {
    match implemented_all(block.items) {
        Err(e) => Err(e),
        Ok((members, _)) => Ok(impl_text(block, members)),
    }
}

impl AsyncItemImpl {
    /// Rewrites every asynchronous operation of the block, and prints the
    /// block with the other members as they are.
    pub fn rewrite(&self) -> (r: Result<String, RewriteError>)
        ensures
            match r {
                Ok(text) => impl_rewritten(self@) == Ok::<_, RewriteErrorView>(text@),
                Err(e) => impl_rewritten(self@) == Err::<Seq<char>, _>(e@),
            },
    {
        let ghost results = views(self.items@).map_values(|item: ImplItemView| implemented(item));
        let mut members = String::new();
        let mut extra: Vec<String> = Vec::new();
        let mut i: usize = 0;
        proof {
            lemma_views_empty::<String>();
            assert(results.subrange(0, 0) =~= Seq::<
                Result<RewrittenView, RewriteErrorView>,
            >::empty());
        }
        while i < self.items.len()
            invariant
                i <= self.items.len(),
                results == views(self.items@).map_values(|item: ImplItemView| implemented(item)),
                rewritten_all(results.subrange(0, i as int)) == Ok::<_, RewriteErrorView>(
                    (members@, views(extra@)),
                ),
            decreases self.items.len() - i,
        {
            proof {
                assert(results.subrange(0, i + 1).drop_last() =~= results.subrange(0, i as int));
                assert(results.subrange(0, i + 1).last() == implemented(self.items@[i as int]@));
            }
            match impl_fn(&self.items[i]) {
                Err(e) => {
                    proof {
                        lemma_rewritten_all_error(results, i + 1);
                    }
                    return Err(e);
                },
                Ok(r) => {
                    accumulate(&mut members, &mut extra, r);
                },
            }
            i += 1;
        }
        assert(results.subrange(0, self.items@.len() as int) =~= results);
        Ok(self.print_around(members.as_str()))
    }

    /// Prints the block around the given members.
    pub fn print_around(&self, members: &str) -> (out: String)
        ensures
            out@ == impl_text(self@, members@),
    {
        let defaultness = if self.defaultness {
            String::from_str("default")
        } else {
            String::new()
        };
        let unsafety = if self.unsafety {
            String::from_str("unsafe")
        } else {
            String::new()
        };
        let trait_ref = match &self.trait_ {
            Some((negative, path)) => {
                let bang = if *negative {
                    String::from_str("!")
                } else {
                    String::new()
                };
                let pieces = vec![bang, path.clone(), String::from_str("for")];
                proof {
                    assert(views(pieces@) =~= seq![word_if(*negative, "!"@), path@, "for"@]);
                }
                join_pieces(&pieces)
            },
            None => String::new(),
        };
        let mut body = print_attrs(&self.attrs, Keep::Inner);
        push_piece(&mut body, members);
        let pieces = vec![
            print_attrs(&self.attrs, Keep::Outer),
            defaultness,
            unsafety,
            String::from_str("impl"),
            print_generics(&self.generics.params, Form::Declared),
            trait_ref,
            self.self_ty.clone(),
            print_where(&self.generics.predicates),
            in_braces(body.as_str()),
        ];
        proof {
            assert(views(pieces@) =~= seq![
                attr_texts(self@.attrs, Keep::Outer),
                word_if(self.defaultness, "default"@),
                word_if(self.unsafety, "unsafe"@),
                "impl"@,
                generics_text(self@.generics.params, Form::Declared),
                trait_ref_text(self@.trait_),
                self@.self_ty,
                where_text(self@.generics.predicates),
                braces(spaced(attr_texts(self@.attrs, Keep::Inner), members@)),
            ]);
        }
        join_pieces(&pieces)
    }
}

} // verus!
