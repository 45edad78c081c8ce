//! Interface declarations: their structure and their grammar.

use vstd::prelude::*;
use vstd::string::*;
use crate::error::{
    error_at, inside, make_error, mark_inside, mismatch_message, parsed_view, prepend,
    stalled_message, syntax_error, ParseError, ParseErrorKind, ParseErrorView,
};
use crate::primitive::{
    next_token, split_abi, split_block, split_bound, split_ident, split_inner_attrs,
    split_outer_attrs, split_signature, split_trait_const, split_trait_macro, split_trait_type,
    split_visibility, split_where_clause, syn_abi, syn_block, syn_bound, syn_ident, syn_inner_attrs,
    syn_outer_attrs, syn_signature, syn_token, syn_trait_const, syn_trait_macro, syn_trait_type,
    syn_visibility, syn_where_clause, Token, TokenView,
};
use crate::print::{
    attr_texts, print_attrs, print_signature, signature_text, text_or_empty, word_if, Keep,
};
use crate::reader::{
    on_tokens, params_at, parse_generic_params, parse_signature, read_signature, tokenize,
    tokens_of,
};
use crate::syntax::{
    append_attributes, attributes, lemma_views_empty, lemma_views_push, make_attributes, views,
    Attribute, AttributeView, Generics, GenericsView, Signature, SignatureView,
};
use crate::text::{copy_text, join, join_pieces, push_piece, spaced};
use crate::token::{
    after_token, brace_group, eat_keyword, eat_punct, expected, expected_error, find_flaw,
    first_token, guarded, is_brace, is_colon2, is_ident, is_keyword, is_punct, is_underscore,
    literal_is_known, literal_known, peek_brace, peek_colon2, peek_ident, peek_keyword, peek_punct,
    peek_underscore, readable, refuse_unreadable, rest_after_token, settle, settled,
    take_brace_group, take_keyword, take_punct,
};

verus! {

/// An operation of an interface: its attributes, its signature, and the
/// default body where it has one.
#[derive(Clone, PartialEq, Eq, Debug)]
pub struct AsyncTraitItemMethod {
    pub attrs: Vec<Attribute>,
    pub sig: Signature,
    /// The default body, braces included.
    pub default: Option<String>,
    pub semi_token: bool,
}

/// The view of `AsyncTraitItemMethod`: each text as its sequence of characters.
pub struct AsyncTraitItemMethodView {
    pub attrs: Seq<AttributeView>,
    pub sig: SignatureView,
    pub default: Option<Seq<char>>,
    pub semi_token: bool,
}

impl View for AsyncTraitItemMethod {
    type V = AsyncTraitItemMethodView;

    open spec fn view(&self) -> AsyncTraitItemMethodView {
        AsyncTraitItemMethodView {
            attrs: views(self.attrs@),
            sig: self.sig@,
            default: match self.default {
                Some(block) => Some(block@),
                None => None,
            },
            semi_token: self.semi_token,
        }
    }
}

/// An associated type of an interface: its name, and its text with its
/// attributes.
#[derive(Clone, PartialEq, Eq, Debug)]
pub struct AssociatedType {
    pub ident: String,
    pub text: String,
}

/// The view of `AssociatedType`: each text as its sequence of characters.
pub struct AssociatedTypeView {
    pub ident: Seq<char>,
    pub text: Seq<char>,
}

impl View for AssociatedType {
    type V = AssociatedTypeView;

    open spec fn view(&self) -> AssociatedTypeView {
        AssociatedTypeView { ident: self.ident@, text: self.text@ }
    }
}

/// A member of an interface. A constant, a macro invocation and a verbatim
/// member are held as their text, attributes included.
#[derive(Clone, PartialEq, Eq, Debug)]
pub enum AsyncTraitItem {
    Const(String),
    Method(AsyncTraitItemMethod),
    Type(AssociatedType),
    Macro(String),
    Verbatim(String),
}

/// The view of `AsyncTraitItem`: each text as its sequence of characters.
pub enum AsyncTraitItemView {
    Const(Seq<char>),
    Method(AsyncTraitItemMethodView),
    Type(AssociatedTypeView),
    Macro(Seq<char>),
    Verbatim(Seq<char>),
}

impl View for AsyncTraitItem {
    type V = AsyncTraitItemView;

    open spec fn view(&self) -> AsyncTraitItemView {
        match self {
            AsyncTraitItem::Const(text) => AsyncTraitItemView::Const(text@),
            AsyncTraitItem::Method(method) => AsyncTraitItemView::Method(method@),
            AsyncTraitItem::Type(ty) => AsyncTraitItemView::Type(ty@),
            AsyncTraitItem::Macro(text) => AsyncTraitItemView::Macro(text@),
            AsyncTraitItem::Verbatim(text) => AsyncTraitItemView::Verbatim(text@),
        }
    }
}

/// An interface declaration.
#[derive(Clone, PartialEq, Eq, Debug)]
pub struct AsyncTraitDef {
    /// The outer attributes, then the inner ones of the body.
    pub attrs: Vec<Attribute>,
    pub vis: String,
    pub unsafety: bool,
    pub auto_token: bool,
    pub ident: String,
    pub generics: Generics,
    pub colon_token: bool,
    pub supertraits: Vec<String>,
    pub items: Vec<AsyncTraitItem>,
}

/// The view of `AsyncTraitDef`: each text as its sequence of characters.
pub struct AsyncTraitDefView {
    pub attrs: Seq<AttributeView>,
    pub vis: Seq<char>,
    pub unsafety: bool,
    pub auto_token: bool,
    pub ident: Seq<char>,
    pub generics: GenericsView,
    pub colon_token: bool,
    pub supertraits: Seq<Seq<char>>,
    pub items: Seq<AsyncTraitItemView>,
}

impl View for AsyncTraitDef {
    type V = AsyncTraitDefView;

    open spec fn view(&self) -> AsyncTraitDefView {
        AsyncTraitDefView {
            attrs: views(self.attrs@),
            vis: self.vis@,
            unsafety: self.unsafety,
            auto_token: self.auto_token,
            ident: self.ident@,
            generics: self.generics@,
            colon_token: self.colon_token,
            supertraits: views(self.supertraits@),
            items: views(self.items@),
        }
    }
}

/// The message for a member with a visibility or with `default`.
pub open spec fn qualified_item_message() -> Seq<char> {
    "visibility and `default` are not supported on the members of an interface"@
}

/// The message for a token that starts no member.
pub open spec fn item_expected_message() -> Seq<char> {
    "expected one of: `fn`, `const`, `type`, identifier, `self`, `super`, `crate`, `::`"@
}

/// The message for a token after `const` that continues no member.
pub open spec fn const_item_expected_message() -> Seq<char> {
    "expected one of: identifier, `_`, `async`, `unsafe`, `extern`, `fn`"@
}

/// The text of a calling convention with a name: `extern` and the literal.
pub open spec fn named_abi(name: Seq<char>) -> Seq<char> {
    "extern"@ + " "@ + name
}

/// Whether a literal that stands after `extern` names the calling
/// convention: the parser of calling conventions takes it.
pub open spec fn names_abi(name: Seq<char>) -> bool {
    readable(named_abi(name)) && (syn_abi(named_abi(name)) matches Ok((_, rest)) && rest.len()
        == 0)
}

/// Whether the qualifiers of a signature stand at the front of the text,
/// followed by `fn`: `const`, `async`, `unsafe` and a calling convention,
/// each optional, in this order. A calling convention is `extern`, and
/// after it the literal that names it, where one stands there. Only that
/// literal is read; where it is of a form that is not known, no signature is
/// ahead.
pub open spec fn signature_ahead(text: Seq<char>) -> bool {
    let a = eat_keyword(text, "const"@).1;
    let b = eat_keyword(a, "async"@).1;
    let c = eat_keyword(b, "unsafe"@).1;
    if !peek_keyword(c, "extern"@) {
        peek_keyword(c, "fn"@)
    } else {
        match first_token(after_token(c)) {
            Some(TokenView::Literal(name)) => literal_known(name) && names_abi(name)
                && peek_keyword(after_token(after_token(c)), "fn"@),
            _ => peek_keyword(after_token(c), "fn"@),
        }
    }
}

/// Looks ahead for the qualifiers of a signature and `fn`, consuming
/// nothing.
pub fn peek_signature(input: &str) -> (r: bool)
    ensures
        r == signature_ahead(input@),
{
    let (_, a) = take_keyword(input, "const");
    let (_, b) = take_keyword(a.as_str(), "async");
    let (_, c) = take_keyword(b.as_str(), "unsafe");
    if !is_keyword(c.as_str(), "extern") {
        return is_keyword(c.as_str(), "fn");
    }
    let d = rest_after_token(c.as_str());
    match next_token(d.as_str()) {
        Some((Token::Literal(name), e)) => {
            if !literal_is_known(name.as_str()) {
                return false;
            }
            let abi = String::from_str("extern").concat(" ").concat(name.as_str());
            if find_flaw(abi.as_str()).is_some() {
                return false;
            }
            match split_abi(abi.as_str()) {
                Ok((_, rest)) => rest.as_str().is_empty() && is_keyword(e.as_str(), "fn"),
                Err(_) => false,
            }
        },
        _ => is_keyword(d.as_str(), "fn"),
    }
}

/// The default body at the front of a text, where a group in braces stands
/// there.
pub open spec fn body_at(text: Seq<char>) -> Result<
    (Option<Seq<char>>, Seq<char>),
    ParseErrorView,
> {
    if peek_brace(text) {
        match settled(text, syn_block(text)) {
            Err(e) => Err(e),
            Ok((block, rest)) => Ok((Some(block), rest)),
        }
    } else {
        Ok((None, text))
    }
}

fn parse_body(text: &str) -> (r: Result<(Option<String>, String), ParseError>)
    requires
        readable(text@),
    ensures
        r matches Ok((_, rest)) ==> readable(rest@),
        match r {
            Ok((Some(block), rest)) => body_at(text@) == Ok::<_, ParseErrorView>(
                (Some(block@), rest@),
            ),
            Ok((None, rest)) => body_at(text@) == Ok::<_, ParseErrorView>(
                (None::<Seq<char>>, rest@),
            ),
            Err(e) => body_at(text@) == Err::<(Option<Seq<char>>, Seq<char>), _>(e@),
        },
{
    if is_brace(text) {
        match settle(text, split_block(text)) {
            Err(e) => Err(e),
            Ok((block, rest)) => Ok((Some(block), rest)),
        }
    } else {
        Ok((None, copy_text(text)))
    }
}

/// The operation at the front of a text, and the text after it: outer
/// attributes, a signature, a default body where a brace follows, and a
/// semicolon where one follows.
pub open spec fn method_at(text: Seq<char>) -> Result<
    (AsyncTraitItemMethodView, Seq<char>),
    ParseErrorView,
> {
    match settled(text, syn_outer_attrs(text)) {
        Err(e) => Err(e),
        Ok((attrs, t1)) => match settled(t1, syn_signature(t1)) {
            Err(e) => Err(e),
            Ok((sig_text, t2)) => match read_signature(sig_text) {
                None => Err(error_at(ParseErrorKind::Internal, mismatch_message(), t1)),
                Some(sig) => match body_at(t2) {
                    Err(e) => Err(e),
                    Ok((default, t3)) => Ok(
                        (
                            AsyncTraitItemMethodView {
                                attrs: attributes(attrs, false),
                                sig,
                                default,
                                semi_token: eat_punct(t3, ';').0,
                            },
                            eat_punct(t3, ';').1,
                        ),
                    ),
                },
            },
        },
    }
}

impl AsyncTraitItemMethod {
    /// Parses the operation that stands at the front of `input`, and
    /// returns it with the text that follows it.
    /// The text is split into tokens first; where a literal of a form that
    /// is not known stands outside an attribute, the text is refused before
    /// anything is parsed.
    pub fn parse(input: &str) -> (r: Result<(AsyncTraitItemMethod, String), ParseError>)
        ensures
            parsed_view(r) == on_tokens(input@, |tokens: Seq<char>| method_at(tokens)),
    {
        let tokens = match tokenize(input) {
            Err(e) => return Err(e),
            Ok(tokens) => tokens,
        };
        match refuse_unreadable(tokens.as_str()) {
            Some(e) => Err(e),
            None => AsyncTraitItemMethod::parse_tokens(tokens.as_str()),
        }
    }

    fn parse_tokens(input: &str) -> (r: Result<(AsyncTraitItemMethod, String), ParseError>)
        requires
            readable(input@),
        ensures
            parsed_view(r) == method_at(input@),
            r matches Ok((_, rest)) ==> readable(rest@),
    {
        let (attrs, t1) = match settle(input, split_outer_attrs(input)) {
            Err(e) => return Err(e),
            Ok(found) => found,
        };
        let (sig_text, t2) = match settle(t1.as_str(), split_signature(t1.as_str())) {
            Err(e) => return Err(e),
            Ok(found) => found,
        };
        let sig = match parse_signature(sig_text.as_str()) {
            None => return Err(
                make_error(
                    ParseErrorKind::Internal,
                    "a syntax node could not be read back",
                    t1.as_str(),
                ),
            ),
            Some(sig) => sig,
        };
        let (default, t3) = match parse_body(t2.as_str()) {
            Err(e) => return Err(e),
            Ok(found) => found,
        };
        let (semi_token, t4) = take_punct(t3.as_str(), ';');
        Ok(
            (
                AsyncTraitItemMethod {
                    attrs: make_attributes(&attrs, false),
                    sig,
                    default,
                    semi_token,
                },
                t4,
            ),
        )
    }
}

/// An operation with the attributes that were read before it put in front
/// of its own.
pub open spec fn with_leading_attrs(
    attrs: Seq<Seq<char>>,
    m: AsyncTraitItemMethodView,
) -> AsyncTraitItemMethodView {
    AsyncTraitItemMethodView {
        attrs: attributes(attrs, false) + m.attrs,
        sig: m.sig,
        default: m.default,
        semi_token: m.semi_token,
    }
}

fn parse_method(attrs: &Vec<String>, text: &str) -> (r: Result<
    (AsyncTraitItem, String),
    ParseError,
>)
    requires
        readable(text@),
    ensures
        r matches Ok((_, rest)) ==> readable(rest@),
        parsed_view(r) == match method_at(text@) {
            Err(e) => Err(e),
            Ok((m, rest)) => Ok(
                (AsyncTraitItemView::Method(with_leading_attrs(views(attrs@), m)), rest),
            ),
        },
{
    match AsyncTraitItemMethod::parse_tokens(text) {
        Err(e) => Err(e),
        Ok((m, rest)) => {
            let mut all = make_attributes(attrs, false);
            append_attributes(&mut all, m.attrs);
            Ok(
                (
                    AsyncTraitItem::Method(
                        AsyncTraitItemMethod {
                            attrs: all,
                            sig: m.sig,
                            default: m.default,
                            semi_token: m.semi_token,
                        },
                    ),
                    rest,
                ),
            )
        },
    }
}

/// The name of an associated type: the identifier after `type`.
pub open spec fn associated_type_name(text: Seq<char>) -> Seq<char> {
    match syn_token(after_token(text)) {
        Some((TokenView::Ident(name), _)) => name,
        _ => Seq::empty(),
    }
}

fn read_associated_type_name(text: &str) -> (name: String)
    ensures
        name@ == associated_type_name(text@),
{
    let rest = rest_after_token(text);
    match next_token(rest.as_str()) {
        Some((Token::Ident(name), _)) => name,
        _ => String::new(),
    }
}

/// A member held as text: the attributes read before it, then the member.
pub open spec fn with_attrs(attrs: Seq<Seq<char>>, item: Seq<char>) -> Seq<char> {
    spaced(join(attrs), item)
}

fn text_with_attrs(attrs: &Vec<String>, item: &str) -> (out: String)
    ensures
        out@ == with_attrs(views(attrs@), item@),
{
    let mut out = join_pieces(attrs);
    push_piece(&mut out, item);
    out
}

/// What the first tokens of a member are.
#[derive(Clone, Copy, PartialEq, Eq, Structural, Debug)]
pub struct MemberLook {
    /// `fn` stands first.
    pub fn_ahead: bool,
    /// The qualifiers of a signature stand first, followed by `fn`.
    pub signature_ahead: bool,
    /// `const` stands first.
    pub const_ahead: bool,
    /// An identifier or an underscore stands second.
    pub name_second: bool,
    /// `async`, `unsafe`, `extern` or `fn` stands second.
    pub qualifier_second: bool,
    /// `type` stands first.
    pub type_ahead: bool,
    /// A path starts: an identifier, `self`, `super`, `crate` or `::`
    /// stands first.
    pub path_ahead: bool,
}

/// The kinds of members that are parsed.
#[derive(Clone, Copy, PartialEq, Eq, Structural, Debug)]
pub enum MemberKind {
    Method,
    Const,
    Type,
    Macro,
}

/// Where no member starts.
#[derive(Clone, Copy, PartialEq, Eq, Structural, Debug)]
pub enum Unexpected {
    /// The first token starts no member.
    First,
    /// The token after `const` continues no member.
    AfterConst,
}

/// The kind of member that the first tokens announce: an operation on `fn`
/// or on the qualifiers of a signature; after `const`, a constant on an
/// identifier or an underscore and an operation on a further qualifier; an
/// associated type on `type`; a macro invocation on the start of a path.
pub open spec fn member_kind(look: MemberLook) -> Result<MemberKind, Unexpected> {
    if look.fn_ahead || look.signature_ahead {
        Ok(MemberKind::Method)
    } else if look.const_ahead {
        if look.name_second {
            Ok(MemberKind::Const)
        } else if look.qualifier_second {
            Ok(MemberKind::Method)
        } else {
            Err(Unexpected::AfterConst)
        }
    } else if look.type_ahead {
        Ok(MemberKind::Type)
    } else if look.path_ahead {
        Ok(MemberKind::Macro)
    } else {
        Err(Unexpected::First)
    }
}

/// Chooses the kind of member that the first tokens announce.
pub fn choose_member(look: MemberLook) -> (r: Result<MemberKind, Unexpected>)
    ensures
        r == member_kind(look),
{
    if look.fn_ahead || look.signature_ahead {
        Ok(MemberKind::Method)
    } else if look.const_ahead {
        if look.name_second {
            Ok(MemberKind::Const)
        } else if look.qualifier_second {
            Ok(MemberKind::Method)
        } else {
            Err(Unexpected::AfterConst)
        }
    } else if look.type_ahead {
        Ok(MemberKind::Type)
    } else if look.path_ahead {
        Ok(MemberKind::Macro)
    } else {
        Err(Unexpected::First)
    }
}

/// The first tokens of the member that starts at `text`.
pub open spec fn member_look(text: Seq<char>) -> MemberLook {
    MemberLook {
        fn_ahead: peek_keyword(text, "fn"@),
        signature_ahead: signature_ahead(text),
        const_ahead: peek_keyword(text, "const"@),
        name_second: peek_ident(after_token(text)) || peek_underscore(after_token(text)),
        qualifier_second: peek_keyword(after_token(text), "async"@) || peek_keyword(
            after_token(text),
            "unsafe"@,
        ) || peek_keyword(after_token(text), "extern"@) || peek_keyword(after_token(text), "fn"@),
        type_ahead: peek_keyword(text, "type"@),
        path_ahead: peek_ident(text) || peek_keyword(text, "self"@) || peek_keyword(
            text,
            "super"@,
        ) || peek_keyword(text, "crate"@) || peek_colon2(text),
    }
}

/// Looks at the first tokens of a member, consuming nothing.
fn look_at_member(text: &str) -> (look: MemberLook)
    requires
        readable(text@),
    ensures
        look == member_look(text@),
{
    let ahead = rest_after_token(text);
    MemberLook {
        fn_ahead: is_keyword(text, "fn"),
        signature_ahead: peek_signature(text),
        const_ahead: is_keyword(text, "const"),
        name_second: is_ident(ahead.as_str()) || is_underscore(ahead.as_str()),
        qualifier_second: is_keyword(ahead.as_str(), "async") || is_keyword(
            ahead.as_str(),
            "unsafe",
        ) || is_keyword(ahead.as_str(), "extern") || is_keyword(ahead.as_str(), "fn"),
        type_ahead: is_keyword(text, "type"),
        path_ahead: is_ident(text) || is_keyword(text, "self") || is_keyword(text, "super")
            || is_keyword(text, "crate") || is_colon2(text),
    }
}

/// The member that starts at `text`, of the kind that its first tokens
/// announce. `attrs` are the attributes read before the text.
pub open spec fn member_at(attrs: Seq<Seq<char>>, text: Seq<char>) -> Result<
    (AsyncTraitItemView, Seq<char>),
    ParseErrorView,
> {
    match member_kind(member_look(text)) {
        Ok(MemberKind::Method) => match method_at(text) {
            Err(e) => Err(e),
            Ok((m, rest)) => Ok((AsyncTraitItemView::Method(with_leading_attrs(attrs, m)), rest)),
        },
        Ok(MemberKind::Const) => match settled(text, syn_trait_const(text)) {
            Err(e) => Err(e),
            Ok((item, rest)) => Ok((AsyncTraitItemView::Const(with_attrs(attrs, item)), rest)),
        },
        Ok(MemberKind::Type) => match settled(text, syn_trait_type(text)) {
            Err(e) => Err(e),
            Ok((item, rest)) => Ok(
                (
                    AsyncTraitItemView::Type(
                        AssociatedTypeView {
                            ident: associated_type_name(item),
                            text: with_attrs(attrs, item),
                        },
                    ),
                    rest,
                ),
            ),
        },
        Ok(MemberKind::Macro) => match settled(text, syn_trait_macro(text)) {
            Err(e) => Err(e),
            Ok((item, rest)) => Ok((AsyncTraitItemView::Macro(with_attrs(attrs, item)), rest)),
        },
        Err(Unexpected::AfterConst) => Err(
            syntax_error(const_item_expected_message(), after_token(text)),
        ),
        Err(Unexpected::First) => Err(syntax_error(item_expected_message(), text)),
    }
}

fn parse_member(attrs: &Vec<String>, text: &str) -> (r: Result<
    (AsyncTraitItem, String),
    ParseError,
>)
    requires
        readable(text@),
    ensures
        r matches Ok((_, rest)) ==> readable(rest@),
        parsed_view(r) == member_at(views(attrs@), text@),
{
    match choose_member(look_at_member(text)) {
        Ok(MemberKind::Method) => parse_method(attrs, text),
        Ok(MemberKind::Const) => match settle(text, split_trait_const(text)) {
            Err(e) => Err(e),
            Ok((item, rest)) => Ok(
                (AsyncTraitItem::Const(text_with_attrs(attrs, item.as_str())), rest),
            ),
        },
        Ok(MemberKind::Type) => match settle(text, split_trait_type(text)) {
            Err(e) => Err(e),
            Ok((item, rest)) => {
                let ident = read_associated_type_name(item.as_str());
                let text = text_with_attrs(attrs, item.as_str());
                Ok((AsyncTraitItem::Type(AssociatedType { ident, text }), rest))
            },
        },
        Ok(MemberKind::Macro) => match settle(text, split_trait_macro(text)) {
            Err(e) => Err(e),
            Ok((item, rest)) => Ok(
                (AsyncTraitItem::Macro(text_with_attrs(attrs, item.as_str())), rest),
            ),
        },
        Err(Unexpected::AfterConst) => Err(
            make_error(
                ParseErrorKind::Syntax,
                "expected one of: identifier, `_`, `async`, `unsafe`, `extern`, `fn`",
                rest_after_token(text).as_str(),
            ),
        ),
        Err(Unexpected::First) => Err(
            make_error(
                ParseErrorKind::Syntax,
                "expected one of: `fn`, `const`, `type`, identifier, `self`, `super`, `crate`, `::`",
                text,
            ),
        ),
    }
}

/// The member at the front of a text and the text after it: outer
/// attributes, a visibility and `default`, then the member itself. A member
/// that parses with a visibility or with `default` is unsupported.
pub open spec fn item_at(text: Seq<char>) -> Result<
    (AsyncTraitItemView, Seq<char>),
    ParseErrorView,
> {
    match settled(text, syn_outer_attrs(text)) {
        Err(e) => Err(e),
        Ok((attrs, t1)) => match settled(t1, syn_visibility(t1)) {
            Err(e) => Err(e),
            Ok((vis, t2)) => match member_at(attrs, eat_keyword(t2, "default"@).1) {
                Err(e) => Err(e),
                Ok(found) => if vis.len() > 0 || eat_keyword(t2, "default"@).0 {
                    Err(error_at(ParseErrorKind::Unsupported, qualified_item_message(), t1))
                } else {
                    Ok(found)
                },
            },
        },
    }
}

impl AsyncTraitItem {
    /// Parses the member of an interface that stands at the front of
    /// `input`, and returns it with the text that follows it.
    /// The text is split into tokens first; where a literal of a form that
    /// is not known stands outside an attribute, the text is refused before
    /// anything is parsed.
    pub fn parse(input: &str) -> (r: Result<(AsyncTraitItem, String), ParseError>)
        ensures
            parsed_view(r) == on_tokens(input@, |tokens: Seq<char>| item_at(tokens)),
    {
        let tokens = match tokenize(input) {
            Err(e) => return Err(e),
            Ok(tokens) => tokens,
        };
        match refuse_unreadable(tokens.as_str()) {
            Some(e) => Err(e),
            None => AsyncTraitItem::parse_tokens(tokens.as_str()),
        }
    }

    fn parse_tokens(input: &str) -> (r: Result<(AsyncTraitItem, String), ParseError>)
        requires
            readable(input@),
        ensures
            parsed_view(r) == item_at(input@),
            r matches Ok((_, rest)) ==> readable(rest@),
    {
        let (attrs, t1) = match settle(input, split_outer_attrs(input)) {
            Err(e) => return Err(e),
            Ok(found) => found,
        };
        let (vis, t2) = match settle(t1.as_str(), split_visibility(t1.as_str())) {
            Err(e) => return Err(e),
            Ok(found) => found,
        };
        let (defaultness, t3) = take_keyword(t2.as_str(), "default");
        let found = match parse_member(&attrs, t3.as_str()) {
            Err(e) => return Err(e),
            Ok(found) => found,
        };
        if !vis.as_str().is_empty() || defaultness {
            Err(
                make_error(
                    ParseErrorKind::Unsupported,
                    "visibility and `default` are not supported on the members of an interface",
                    t1.as_str(),
                ),
            )
        } else {
            Ok(found)
        }
    }
}

/// The members that a text holds, in order: one after the other until the
/// text is used up. The first error ends the reading.
pub open spec fn items_of(text: Seq<char>) -> Result<Seq<AsyncTraitItemView>, ParseErrorView>
    decreases text.len(),
{
    if text.len() == 0 {
        Ok(Seq::empty())
    } else {
        match item_at(text) {
            Err(e) => Err(e),
            Ok((item, rest)) => if rest.len() < text.len() {
                prepend(seq![item], items_of(rest))
            } else {
                Err(error_at(ParseErrorKind::Internal, stalled_message(), text))
            },
        }
    }
}

/// Parses the members of an interface from the content of its body.
fn parse_items(text: &str) -> (r: Result<Vec<AsyncTraitItem>, ParseError>)
    requires
        readable(text@),
    ensures
        match r {
            Ok(items) => items_of(text@) == Ok::<_, ParseErrorView>(views(items@)),
            Err(e) => items_of(text@) == Err::<Seq<AsyncTraitItemView>, _>(e@),
        },
{
    let mut items: Vec<AsyncTraitItem> = Vec::new();
    let mut cur = copy_text(text);
    let mut len = cur.as_str().unicode_len();
    proof {
        lemma_views_empty::<AsyncTraitItem>();
        assert(Seq::<AsyncTraitItemView>::empty() + Seq::<AsyncTraitItemView>::empty()
            =~= Seq::<AsyncTraitItemView>::empty());
        match items_of(text@) {
            Ok(more) => assert(Seq::<AsyncTraitItemView>::empty() + more =~= more),
            Err(_) => {},
        }
    }
    while len > 0
        invariant
            len == cur@.len(),
            readable(cur@),
            items_of(text@) == prepend(views(items@), items_of(cur@)),
        decreases cur@.len(),
    {
        match AsyncTraitItem::parse_tokens(cur.as_str()) {
            Err(e) => {
                return Err(e);
            },
            Ok((item, rest)) => {
                let rest_len = rest.as_str().unicode_len();
                if rest_len >= len {
                    return Err(
                        make_error(
                            ParseErrorKind::Internal,
                            "the parser made no progress",
                            cur.as_str(),
                        ),
                    );
                }
                proof {
                    lemma_views_push(items@, item);
                    match items_of(rest@) {
                        Ok(more) => assert(views(items@) + (seq![item@] + more) =~= views(
                            items@,
                        ).push(item@) + more),
                        Err(_) => {},
                    }
                }
                items.push(item);
                cur = rest;
                len = rest_len;
            },
        }
    }
    proof {
        assert(views(items@) + Seq::<AsyncTraitItemView>::empty() =~= views(items@));
    }
    Ok(items)
}

/// A list result with further pieces put in front.
pub open spec fn prepend_list(before: Seq<Seq<char>>, r: Result<
    (Seq<Seq<char>>, Seq<char>),
    ParseErrorView,
>) -> Result<(Seq<Seq<char>>, Seq<char>), ParseErrorView> {
    match r {
        Ok((more, rest)) => Ok((before + more, rest)),
        Err(e) => Err(e),
    }
}

/// The supertrait bounds at the front of a text, separated by `+`, up to
/// `where` or the opening brace; a `+` may stand before that end.
pub open spec fn supertraits_at(text: Seq<char>) -> Result<
    (Seq<Seq<char>>, Seq<char>),
    ParseErrorView,
>
    decreases text.len(),
{
    if peek_keyword(text, "where"@) || peek_brace(text) {
        Ok((Seq::empty(), text))
    } else {
        match settled(text, syn_bound(text)) {
            Err(e) => Err(e),
            Ok((bound, t1)) => if peek_keyword(t1, "where"@) || peek_brace(t1) {
                Ok((seq![bound], t1))
            } else if !peek_punct(t1, '+') {
                Err(syntax_error(expected("+"@), t1))
            } else if after_token(t1).len() < text.len() {
                prepend_list(seq![bound], supertraits_at(after_token(t1)))
            } else {
                Err(error_at(ParseErrorKind::Internal, stalled_message(), text))
            },
        }
    }
}

fn parse_supertraits(text: &str) -> (r: Result<(Vec<String>, String), ParseError>)
    requires
        readable(text@),
    ensures
        r matches Ok((_, rest)) ==> readable(rest@),
        match r {
            Ok((bounds, rest)) => supertraits_at(text@) == Ok::<_, ParseErrorView>(
                (views(bounds@), rest@),
            ),
            Err(e) => supertraits_at(text@) == Err::<(Seq<Seq<char>>, Seq<char>), _>(e@),
        },
{
    let mut bounds: Vec<String> = Vec::new();
    let mut cur = copy_text(text);
    proof {
        lemma_views_empty::<String>();
        match supertraits_at(text@) {
            Ok((more, _)) => assert(Seq::<Seq<char>>::empty() + more =~= more),
            Err(_) => {},
        }
    }
    loop
        invariant
            readable(cur@),
            supertraits_at(text@) == prepend_list(views(bounds@), supertraits_at(cur@)),
        decreases cur@.len(),
    {
        if is_keyword(cur.as_str(), "where") || is_brace(cur.as_str()) {
            proof {
                assert(views(bounds@) + Seq::<Seq<char>>::empty() =~= views(bounds@));
            }
            return Ok((bounds, cur));
        }
        let (bound, t1) = match settle(cur.as_str(), split_bound(cur.as_str())) {
            Err(e) => return Err(e),
            Ok(found) => found,
        };
        if is_keyword(t1.as_str(), "where") || is_brace(t1.as_str()) {
            proof {
                lemma_views_push(bounds@, bound);
                assert(views(bounds@) + seq![bound@] =~= views(bounds@).push(bound@));
            }
            bounds.push(bound);
            return Ok((bounds, t1));
        }
        if !is_punct(t1.as_str(), '+') {
            return Err(expected_error("+", t1.as_str()));
        }
        let t2 = rest_after_token(t1.as_str());
        if t2.as_str().unicode_len() >= cur.as_str().unicode_len() {
            return Err(
                make_error(ParseErrorKind::Internal, "the parser made no progress", cur.as_str()),
            );
        }
        proof {
            lemma_views_push(bounds@, bound);
            match supertraits_at(t2@) {
                Ok((more, _)) => assert(views(bounds@) + (seq![bound@] + more) =~= views(
                    bounds@,
                ).push(bound@) + more),
                Err(_) => {},
            }
        }
        bounds.push(bound);
        cur = t2;
    }
}

/// What stands before the generics of an interface declaration.
pub struct TraitHead {
    pub attrs: Vec<String>,
    pub vis: String,
    pub unsafety: bool,
    pub auto_token: bool,
    pub ident: String,
}

/// The view of `TraitHead`: each text as its sequence of characters.
pub struct TraitHeadView {
    pub attrs: Seq<Seq<char>>,
    pub vis: Seq<char>,
    pub unsafety: bool,
    pub auto_token: bool,
    pub ident: Seq<char>,
}

impl View for TraitHead {
    type V = TraitHeadView;

    open spec fn view(&self) -> TraitHeadView {
        TraitHeadView {
            attrs: views(self.attrs@),
            vis: self.vis@,
            unsafety: self.unsafety,
            auto_token: self.auto_token,
            ident: self.ident@,
        }
    }
}

/// The front of an interface declaration: outer attributes, a visibility,
/// `unsafe` and `auto` where they stand, `trait`, and the name.
pub open spec fn head_at(text: Seq<char>) -> Result<(TraitHeadView, Seq<char>), ParseErrorView> {
    match settled(text, syn_outer_attrs(text)) {
        Err(e) => Err(e),
        Ok((attrs, t1)) => match settled(t1, syn_visibility(t1)) {
            Err(e) => Err(e),
            Ok((vis, t2)) => {
                let (unsafety, t3) = eat_keyword(t2, "unsafe"@);
                let (auto_token, t4) = eat_keyword(t3, "auto"@);
                if !peek_keyword(t4, "trait"@) {
                    Err(syntax_error(expected("trait"@), t4))
                } else {
                    match settled(after_token(t4), syn_ident(after_token(t4))) {
                        Err(e) => Err(e),
                        Ok((ident, t5)) => Ok(
                            (TraitHeadView { attrs, vis, unsafety, auto_token, ident }, t5),
                        ),
                    }
                }
            },
        },
    }
}

fn parse_head(text: &str) -> (r: Result<(TraitHead, String), ParseError>)
    requires
        readable(text@),
    ensures
        r matches Ok((_, rest)) ==> readable(rest@),
        parsed_view(r) == head_at(text@),
{
    let (attrs, t1) = match settle(text, split_outer_attrs(text)) {
        Err(e) => return Err(e),
        Ok(found) => found,
    };
    let (vis, t2) = match settle(t1.as_str(), split_visibility(t1.as_str())) {
        Err(e) => return Err(e),
        Ok(found) => found,
    };
    let (unsafety, t3) = take_keyword(t2.as_str(), "unsafe");
    let (auto_token, t4) = take_keyword(t3.as_str(), "auto");
    if !is_keyword(t4.as_str(), "trait") {
        return Err(expected_error("trait", t4.as_str()));
    }
    let after = rest_after_token(t4.as_str());
    match settle(after.as_str(), split_ident(after.as_str())) {
        Err(e) => Err(e),
        Ok((ident, t5)) => Ok((TraitHead { attrs, vis, unsafety, auto_token, ident }, t5)),
    }
}

/// The supertrait clause at the front of a text: a colon and the bounds
/// after it, or nothing where no colon stands there.
pub open spec fn bounds_at(text: Seq<char>) -> Result<
    (bool, Seq<Seq<char>>, Seq<char>),
    ParseErrorView,
> {
    if eat_punct(text, ':').0 {
        match supertraits_at(eat_punct(text, ':').1) {
            Err(e) => Err(e),
            Ok((bounds, rest)) => Ok((true, bounds, rest)),
        }
    } else {
        Ok((false, Seq::empty(), text))
    }
}

fn parse_bounds(text: &str) -> (r: Result<(bool, Vec<String>, String), ParseError>)
    requires
        readable(text@),
    ensures
        r matches Ok((_, _, rest)) ==> readable(rest@),
        match r {
            Ok((colon, bounds, rest)) => bounds_at(text@) == Ok::<_, ParseErrorView>(
                (colon, views(bounds@), rest@),
            ),
            Err(e) => bounds_at(text@) == Err::<(bool, Seq<Seq<char>>, Seq<char>), _>(e@),
        },
{
    let (colon, t1) = take_punct(text, ':');
    if colon {
        match parse_supertraits(t1.as_str()) {
            Err(e) => Err(e),
            Ok((bounds, rest)) => Ok((true, bounds, rest)),
        }
    } else {
        proof {
            lemma_views_empty::<String>();
        }
        Ok((false, Vec::new(), t1))
    }
}

/// The body of an interface at the front of a text: a group in braces that
/// holds inner attributes and then members. Gives the inner attributes, the
/// members, and the text after the group.
pub open spec fn body_of(text: Seq<char>) -> Result<
    (Seq<Seq<char>>, Seq<AsyncTraitItemView>, Seq<char>),
    ParseErrorView,
> {
    match brace_group(text) {
        None => Err(syntax_error("expected curly braces"@, text)),
        Some((content, after)) => match settled(content, syn_inner_attrs(content)) {
            Err(e) => Err(inside(e, text)),
            Ok((inner, c1)) => match items_of(c1) {
                Err(e) => Err(inside(e, text)),
                Ok(items) => Ok((inner, items, after)),
            },
        },
    }
}

fn parse_trait_body(text: &str) -> (r: Result<
    (Vec<String>, Vec<AsyncTraitItem>, String),
    ParseError,
>)
    requires
        readable(text@),
    ensures
        r matches Ok((_, _, rest)) ==> readable(rest@),
        match r {
            Ok((inner, items, rest)) => body_of(text@) == Ok::<_, ParseErrorView>(
                (views(inner@), views(items@), rest@),
            ),
            Err(e) => body_of(text@) == Err::<
                (Seq<Seq<char>>, Seq<AsyncTraitItemView>, Seq<char>),
                _,
            >(e@),
        },
{
    let (content, after) = match take_brace_group(text) {
        None => return Err(make_error(ParseErrorKind::Syntax, "expected curly braces", text)),
        Some(found) => found,
    };
    let (inner, c1) = match settle(content.as_str(), split_inner_attrs(content.as_str())) {
        Err(e) => return Err(mark_inside(e, text)),
        Ok(found) => found,
    };
    match parse_items(c1.as_str()) {
        Err(e) => Err(mark_inside(e, text)),
        Ok(items) => Ok((inner, items, after)),
    }
}

/// The interface declaration at the front of a text, and the text after it:
/// the front, the generics, the supertrait clause, the where-clause and the
/// body, in this order.
pub open spec fn def_at(text: Seq<char>) -> Result<(AsyncTraitDefView, Seq<char>), ParseErrorView> {
    match head_at(text) {
        Err(e) => Err(e),
        Ok((head, t1)) => match params_at(t1) {
            Err(e) => Err(e),
            Ok((params, t2)) => match bounds_at(t2) {
                Err(e) => Err(e),
                Ok((colon_token, supertraits, t3)) => match settled(t3, syn_where_clause(t3)) {
                    Err(e) => Err(e),
                    Ok((predicates, t4)) => match body_of(t4) {
                        Err(e) => Err(e),
                        Ok((inner, items, t5)) => Ok(
                            (
                                AsyncTraitDefView {
                                    attrs: attributes(head.attrs, false) + attributes(inner, true),
                                    vis: head.vis,
                                    unsafety: head.unsafety,
                                    auto_token: head.auto_token,
                                    ident: head.ident,
                                    generics: GenericsView { params, predicates },
                                    colon_token,
                                    supertraits,
                                    items,
                                },
                                t5,
                            ),
                        ),
                    },
                },
            },
        },
    }
}

/// The message for tokens after the declaration.
pub open spec fn trailing_message() -> Seq<char> {
    "unexpected token"@
}

/// The interface declaration that a text holds and nothing else.
pub open spec fn def_of(text: Seq<char>) -> Result<AsyncTraitDefView, ParseErrorView> {
    match tokens_of(text) {
        Err(e) => Err(e),
        Ok(tokens) => guarded(
            tokens,
            match def_at(tokens) {
                Err(e) => Err(e),
                Ok((def, rest)) => if rest.len() == 0 {
                    Ok(def)
                } else {
                    Err(syntax_error(trailing_message(), rest))
                },
            },
        ),
    }
}

impl AsyncTraitDef {
    /// Parses the interface declaration that stands at the front of
    /// `input`, and returns it with the text that follows it.
    /// The text is split into tokens first; where a literal of a form that
    /// is not known stands outside an attribute, the text is refused before
    /// anything is parsed.
    pub fn parse(input: &str) -> (r: Result<(AsyncTraitDef, String), ParseError>)
        ensures
            parsed_view(r) == on_tokens(input@, |tokens: Seq<char>| def_at(tokens)),
    {
        let tokens = match tokenize(input) {
            Err(e) => return Err(e),
            Ok(tokens) => tokens,
        };
        match refuse_unreadable(tokens.as_str()) {
            Some(e) => Err(e),
            None => AsyncTraitDef::parse_tokens(tokens.as_str()),
        }
    }

    fn parse_tokens(input: &str) -> (r: Result<(AsyncTraitDef, String), ParseError>)
        requires
            readable(input@),
        ensures
            parsed_view(r) == def_at(input@),
            r matches Ok((_, rest)) ==> readable(rest@),
    {
        let (head, t1) = match parse_head(input) {
            Err(e) => return Err(e),
            Ok(found) => found,
        };
        let (params, t2) = match parse_generic_params(t1.as_str()) {
            Err(e) => return Err(e),
            Ok(found) => found,
        };
        let (colon_token, supertraits, t3) = match parse_bounds(t2.as_str()) {
            Err(e) => return Err(e),
            Ok(found) => found,
        };
        let (predicates, t4) = match settle(t3.as_str(), split_where_clause(t3.as_str())) {
            Err(e) => return Err(e),
            Ok(found) => found,
        };
        let (inner, items, t5) = match parse_trait_body(t4.as_str()) {
            Err(e) => return Err(e),
            Ok(found) => found,
        };
        let mut attrs = make_attributes(&head.attrs, false);
        append_attributes(&mut attrs, make_attributes(&inner, true));
        Ok(
            (
                AsyncTraitDef {
                    attrs,
                    vis: head.vis,
                    unsafety: head.unsafety,
                    auto_token: head.auto_token,
                    ident: head.ident,
                    generics: Generics { params, predicates },
                    colon_token,
                    supertraits,
                    items,
                },
                t5,
            ),
        )
    }

    /// Parses a text that holds one interface declaration and nothing
    /// after it.
    pub fn parse_all(input: &str) -> (r: Result<AsyncTraitDef, ParseError>)
        ensures
            match r {
                Ok(def) => def_of(input@) == Ok::<_, ParseErrorView>(def@),
                Err(e) => def_of(input@) == Err::<AsyncTraitDefView, _>(e@),
            },
    {
        let tokens = match tokenize(input) {
            Err(e) => return Err(e),
            Ok(tokens) => tokens,
        };
        match refuse_unreadable(tokens.as_str()) {
            Some(e) => {
                return Err(e);
            },
            None => {},
        }
        match AsyncTraitDef::parse_tokens(tokens.as_str()) {
            Err(e) => Err(e),
            Ok((def, rest)) => {
                if rest.as_str().is_empty() {
                    Ok(def)
                } else {
                    Err(make_error(ParseErrorKind::Syntax, "unexpected token", rest.as_str()))
                }
            },
        }
    }
}

/// An operation as written: its outer attributes, its signature, its
/// default body and its semicolon.
pub open spec fn method_text(m: AsyncTraitItemMethodView) -> Seq<char> {
    join(
        seq![
            attr_texts(m.attrs, Keep::Outer),
            signature_text(m.sig),
            text_or_empty(m.default),
            word_if(m.semi_token, ";"@),
        ],
    )
}

/// A member of an interface as written.
pub open spec fn item_text(item: AsyncTraitItemView) -> Seq<char> {
    match item {
        AsyncTraitItemView::Const(text) => text,
        AsyncTraitItemView::Method(m) => method_text(m),
        AsyncTraitItemView::Type(ty) => ty.text,
        AsyncTraitItemView::Macro(text) => text,
        AsyncTraitItemView::Verbatim(text) => text,
    }
}

impl AsyncTraitItemMethod {
    /// Appends the operation to `tokens` as it was written. Inner
    /// attributes are left out.
    pub fn to_tokens(&self, tokens: &mut String)
        ensures
            final(tokens)@ == spaced(old(tokens)@, method_text(self@)),
    {
        let default = match &self.default {
            Some(block) => block.clone(),
            None => String::new(),
        };
        let semi = if self.semi_token {
            String::from_str(";")
        } else {
            String::new()
        };
        let pieces = vec![
            print_attrs(&self.attrs, Keep::Outer),
            print_signature(&self.sig),
            default,
            semi,
        ];
        proof {
            assert(views(pieces@) =~= seq![
                attr_texts(self@.attrs, Keep::Outer),
                signature_text(self@.sig),
                text_or_empty(self@.default),
                word_if(self.semi_token, ";"@),
            ]);
        }
        let text = join_pieces(&pieces);
        push_piece(tokens, text.as_str());
    }
}

impl AsyncTraitItem {
    /// Appends the member to `tokens` as it was written.
    pub fn to_tokens(&self, tokens: &mut String)
        ensures
            final(tokens)@ == spaced(old(tokens)@, item_text(self@)),
    {
        match self {
            AsyncTraitItem::Const(x) => push_piece(tokens, x.as_str()),
            AsyncTraitItem::Macro(x) => push_piece(tokens, x.as_str()),
            AsyncTraitItem::Method(x) => x.to_tokens(tokens),
            AsyncTraitItem::Type(x) => push_piece(tokens, x.text.as_str()),
            AsyncTraitItem::Verbatim(x) => push_piece(tokens, x.as_str()),
        }
    }
}

} // verus!
