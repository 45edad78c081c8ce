//! The primitive grammar: what the token and syntax-tree libraries decide.
//!
//! Every function here hands a text to `proc_macro2` and `syn` and brings
//! back texts. None of them is verified: each contract names the outcome of
//! the call, and the parsers of this crate are proved against those names.
//!
//! A function that splits a node off the front of a text runs the parser of
//! the node on the tokens of the text and then takes the tokens that are
//! left; both come back printed, with single spaces between the tokens.
//! Where the parser refuses the text, its message comes back with the tokens
//! that were left when it stopped.
//!
//! The parsers of the syntax-tree library do not return on a literal that
//! they do not know. A function that may look at a literal therefore asks
//! for a text that can be read (`readable`): outside the groups of
//! attributes, which those parsers take as they are, every literal is of a
//! known form. The callers test it.
//!
//! The two libraries are built without their bridge to the compiler (no
//! default features in the manifest), so a text has the same tokens, and a
//! node the same printed form, wherever the crate runs.

use vstd::prelude::*;
use proc_macro2::TokenStream;
use proc_macro2::TokenTree;
use quote::ToTokens;
use syn::parse::ParseStream;
use syn::parse::Parser;
use crate::token::readable;
use crate::syntax::{
    views, FnArg, FnArgView, GenericParam, GenericParamView, ParamKind, PatType, Receiver,
};

verus! {

/// Where a parser stopped: its message, and the text that it left.
pub type Stop = (Seq<char>, Seq<char>);

/// A successful split gives the text of the node and the text that follows
/// it; a failed one tells where the parser stopped.
pub type Split = Result<(Seq<char>, Seq<char>), Stop>;

/// As `Split`, for a node that is a list of pieces.
pub type ListSplit = Result<(Seq<Seq<char>>, Seq<char>), Stop>;

/// As `Split`, for a type: with the type comes, where it is a path, whether
/// the path has a qualified self type.
pub type TypeSplit = Result<((Seq<char>, Option<bool>), Seq<char>), Stop>;

/// As `Split`, for a member of an implementation block: with the member
/// comes whether it is an operation.
pub type MemberSplit = Result<((Seq<char>, bool), Seq<char>), Stop>;

/// A split seen through views.
pub open spec fn split_view(r: Result<(String, String), (String, String)>) -> Split {
    match r {
        Ok((node, rest)) => Ok((node@, rest@)),
        Err((message, left)) => Err((message@, left@)),
    }
}

/// A split of a list seen through views.
pub open spec fn list_split_view(r: Result<(Vec<String>, String), (String, String)>) -> ListSplit {
    match r {
        Ok((nodes, rest)) => Ok((views(nodes@), rest@)),
        Err((message, left)) => Err((message@, left@)),
    }
}

/// A split of a type seen through views.
pub open spec fn type_split_view(
    r: Result<((String, Option<bool>), String), (String, String)>,
) -> TypeSplit {
    match r {
        Ok(((node, path), rest)) => Ok(((node@, path), rest@)),
        Err((message, left)) => Err((message@, left@)),
    }
}

/// A split of a member seen through views.
pub open spec fn member_split_view(
    r: Result<((String, bool), String), (String, String)>,
) -> MemberSplit {
    match r {
        Ok(((node, method), rest)) => Ok(((node@, method), rest@)),
        Err((message, left)) => Err((message@, left@)),
    }
}

/// An optional node seen through its view.
pub open spec fn option_view<T: View>(r: Option<T>) -> Option<T::V> {
    match r {
        Some(t) => Some(t@),
        None => None,
    }
}

/// The tokens of a text, printed with single spaces between them.
pub uninterp spec fn syn_canonical(text: Seq<char>) -> Result<Seq<char>, Seq<char>>;

/// Splits `text` into tokens and prints them.
///
/// Trusted: `proc_macro2::TokenStream::from_str`, and the `to_string` of the
/// stream it returns. The contract names what comes back: the printed
/// stream, or the message of the lexer where the text is no token stream.
#[verifier::external_body]
pub(crate) fn canonical(text: &str) -> (r: Result<String, String>)
    ensures
        match r {
            Ok(printed) => syn_canonical(text@) == Ok::<Seq<char>, Seq<char>>(printed@),
            Err(message) => syn_canonical(text@) == Err::<Seq<char>, Seq<char>>(message@),
        },
{
    match text.parse::<TokenStream>() {
        Ok(stream) => Ok(stream.to_string()),
        Err(e) => Err(e.to_string()),
    }
}

/// One token tree, as the lexer classifies it.
#[derive(Clone, PartialEq, Eq, Debug)]
pub enum Token {
    Ident(String),
    /// A punctuation character, and whether the next one is joined to it.
    Punct(char, bool),
    Literal(String),
    /// A delimited group: the group as printed, and what it encloses.
    Group(String, String),
}

/// The view of `Token`: each text as its sequence of characters.
pub enum TokenView {
    Ident(Seq<char>),
    Punct(char, bool),
    Literal(Seq<char>),
    Group(Seq<char>, Seq<char>),
}

impl View for Token {
    type V = TokenView;

    open spec fn view(&self) -> TokenView {
        match self {
            Token::Ident(s) => TokenView::Ident(s@),
            Token::Punct(c, joint) => TokenView::Punct(*c, *joint),
            Token::Literal(s) => TokenView::Literal(s@),
            Token::Group(whole, inner) => TokenView::Group(whole@, inner@),
        }
    }
}

/// A token and the text after it seen through views.
pub open spec fn token_split_view(r: Option<(Token, String)>) -> Option<(TokenView, Seq<char>)> {
    match r {
        Some((token, rest)) => Some((token@, rest@)),
        None => None,
    }
}

/// The first token tree of a text and the text after it; `None` where the
/// text holds no token.
pub uninterp spec fn syn_token(text: Seq<char>) -> Option<(TokenView, Seq<char>)>;

/// Takes the first token tree off `text`.
///
/// Trusted: `<proc_macro2::TokenTree as Parse>::parse`, run on the tokens of
/// `text`, and the tokens that it leaves. The contract names what comes
/// back: the tree with what it holds, and the rest printed. A group comes
/// back printed whole and as what it encloses; a punctuation character with
/// its spacing.
#[verifier::external_body]
pub(crate) fn next_token(text: &str) -> (r: Option<(Token, String)>)
    ensures
        token_split_view(r) == syn_token(text@),
{
    let run = |input: ParseStream| -> syn::Result<(TokenTree, TokenStream)> {
        Ok((input.parse()?, input.parse()?))
    };
    let (tree, rest) = run.parse_str(text).ok()?;
    let token = match tree {
        TokenTree::Ident(i) => Token::Ident(i.to_string()),
        TokenTree::Literal(l) => Token::Literal(l.to_string()),
        TokenTree::Group(g) => Token::Group(g.to_string(), g.stream().to_string()),
        TokenTree::Punct(p) => match p.spacing() {
            proc_macro2::Spacing::Joint => Token::Punct(p.as_char(), true),
            proc_macro2::Spacing::Alone => Token::Punct(p.as_char(), false),
        },
    };
    Some((token, rest.to_string()))
}

/// The outer attributes at the front of a text.
pub uninterp spec fn syn_outer_attrs(text: Seq<char>) -> ListSplit;

/// Splits the outer attributes off the front of `text`.
///
/// Trusted: `syn::Attribute::parse_outer`, run on the tokens of `text`, and
/// the tokens that it leaves. The contract names what comes back: the node
/// and the rest, both printed; or, where the parser refuses the text, its
/// message and the tokens that were left when it stopped, printed. It takes
/// attributes while the next token is `#`, so the list may be empty. It reads
/// no literal.
#[verifier::external_body]
pub(crate) fn split_outer_attrs(text: &str) -> (r: Result<(Vec<String>, String), (String, String)>)
    ensures
        list_split_view(r) == syn_outer_attrs(text@),
{
    let mut left = String::new();
    let run = |input: ParseStream| -> syn::Result<Vec<syn::Attribute>> {
        let node = input.call(syn::Attribute::parse_outer);
        left = input.parse::<TokenStream>()?.to_string();
        node
    };
    match run.parse_str(text) {
        Ok(node) => Ok((node.iter().map(|n| n.to_token_stream().to_string()).collect(), left)),
        Err(e) => Err((e.to_string(), left)),
    }
}

/// The inner attributes at the front of a text.
pub uninterp spec fn syn_inner_attrs(text: Seq<char>) -> ListSplit;

/// Splits the inner attributes off the front of `text`.
///
/// Trusted: `syn::Attribute::parse_inner`, run on the tokens of `text`, and
/// the tokens that it leaves. The contract names what comes back: the node
/// and the rest, both printed; or, where the parser refuses the text, its
/// message and the tokens that were left when it stopped, printed. It takes
/// attributes while the next tokens are `#` and `!`, so the list may be
/// empty. It reads no literal.
#[verifier::external_body]
pub(crate) fn split_inner_attrs(text: &str) -> (r: Result<(Vec<String>, String), (String, String)>)
    ensures
        list_split_view(r) == syn_inner_attrs(text@),
{
    let mut left = String::new();
    let run = |input: ParseStream| -> syn::Result<Vec<syn::Attribute>> {
        let node = input.call(syn::Attribute::parse_inner);
        left = input.parse::<TokenStream>()?.to_string();
        node
    };
    match run.parse_str(text) {
        Ok(node) => Ok((node.iter().map(|n| n.to_token_stream().to_string()).collect(), left)),
        Err(e) => Err((e.to_string(), left)),
    }
}

/// The visibility qualifier at the front of a text; its text is empty where
/// none is written.
pub uninterp spec fn syn_visibility(text: Seq<char>) -> Split;

/// Splits a visibility qualifier off the front of `text`.
///
/// Trusted: `<syn::Visibility as Parse>::parse`, run on the tokens of `text`,
/// and the tokens that it leaves. The contract names what comes back: the
/// node and the rest, both printed; or, where the parser refuses the text,
/// its message and the tokens that were left when it stopped, printed. Where
/// no qualifier stands there, the node is empty and the rest is the whole
/// text. It reads no literal.
#[verifier::external_body]
pub(crate) fn split_visibility(text: &str) -> (r: Result<(String, String), (String, String)>)
    ensures
        split_view(r) == syn_visibility(text@),
{
    let mut left = String::new();
    let run = |input: ParseStream| -> syn::Result<syn::Visibility> {
        let node = input.parse();
        left = input.parse::<TokenStream>()?.to_string();
        node
    };
    match run.parse_str(text) {
        Ok(node) => Ok((node.to_token_stream().to_string(), left)),
        Err(e) => Err((e.to_string(), left)),
    }
}

/// The identifier at the front of a text; a keyword is none.
pub uninterp spec fn syn_ident(text: Seq<char>) -> Split;

/// Splits an identifier off the front of `text`.
///
/// Trusted: `<syn::Ident as Parse>::parse`, run on the tokens of `text`, and
/// the tokens that it leaves. The contract names what comes back: the node
/// and the rest, both printed; or, where the parser refuses the text, its
/// message and the tokens that were left when it stopped, printed. It refuses
/// a keyword, and reads no literal.
#[verifier::external_body]
pub(crate) fn split_ident(text: &str) -> (r: Result<(String, String), (String, String)>)
    ensures
        split_view(r) == syn_ident(text@),
{
    let mut left = String::new();
    let run = |input: ParseStream| -> syn::Result<syn::Ident> {
        let node = input.parse();
        left = input.parse::<TokenStream>()?.to_string();
        node
    };
    match run.parse_str(text) {
        Ok(node) => Ok((node.to_string(), left)),
        Err(e) => Err((e.to_string(), left)),
    }
}

/// The parameters of the generics list at the front of a text; none where
/// the text does not start with `<`.
pub uninterp spec fn syn_generics(text: Seq<char>) -> ListSplit;

/// Splits a generics list off the front of `text`.
///
/// Trusted: `<syn::Generics as Parse>::parse`, run on the tokens of `text`,
/// and the tokens that it leaves. The contract names what comes back: the
/// node and the rest, both printed; or, where the parser refuses the text,
/// its message and the tokens that were left when it stopped, printed. It
/// reads a list in angle brackets and no where-clause; where the text does
/// not start with `<`, the list is empty. The node comes back as its
/// parameters, in the order written.
#[verifier::external_body]
pub(crate) fn split_generics(text: &str) -> (r: Result<(Vec<String>, String), (String, String)>)
    requires
        readable(text@),
    ensures
        list_split_view(r) == syn_generics(text@),
{
    let mut left = String::new();
    let run = |input: ParseStream| -> syn::Result<syn::Generics> {
        let node = input.parse();
        left = input.parse::<TokenStream>()?.to_string();
        node
    };
    match run.parse_str(text) {
        Ok(node) => Ok((
            node.params.iter().map(|n| n.to_token_stream().to_string()).collect(),
            left,
        )),
        Err(e) => Err((e.to_string(), left)),
    }
}

/// The type-parameter bound at the front of a text.
pub uninterp spec fn syn_bound(text: Seq<char>) -> Split;

/// Splits one bound of a type parameter off the front of `text`.
///
/// Trusted: `<syn::TypeParamBound as Parse>::parse`, run on the tokens of
/// `text`, and the tokens that it leaves. The contract names what comes back:
/// the node and the rest, both printed; or, where the parser refuses the
/// text, its message and the tokens that were left when it stopped, printed.
#[verifier::external_body]
pub(crate) fn split_bound(text: &str) -> (r: Result<(String, String), (String, String)>)
    requires
        readable(text@),
    ensures
        split_view(r) == syn_bound(text@),
{
    let mut left = String::new();
    let run = |input: ParseStream| -> syn::Result<syn::TypeParamBound> {
        let node = input.parse();
        left = input.parse::<TokenStream>()?.to_string();
        node
    };
    match run.parse_str(text) {
        Ok(node) => Ok((node.to_token_stream().to_string(), left)),
        Err(e) => Err((e.to_string(), left)),
    }
}

/// The predicates of the where-clause at the front of a text; none where the
/// text does not start with `where`.
pub uninterp spec fn syn_where_clause(text: Seq<char>) -> ListSplit;

/// Splits a where-clause off the front of `text`.
///
/// Trusted: `<Option<syn::WhereClause> as Parse>::parse`, run on the tokens
/// of `text`, and the tokens that it leaves. The contract names what comes
/// back: the node and the rest, both printed; or, where the parser refuses
/// the text, its message and the tokens that were left when it stopped,
/// printed. Where the text does not start with `where`, nothing is taken. The
/// node comes back as its predicates, in the order written.
#[verifier::external_body]
pub(crate) fn split_where_clause(text: &str) -> (r: Result<(Vec<String>, String), (String, String)>)
    requires
        readable(text@),
    ensures
        list_split_view(r) == syn_where_clause(text@),
{
    let mut left = String::new();
    let run = |input: ParseStream| -> syn::Result<Option<syn::WhereClause>> {
        let node = input.parse();
        left = input.parse::<TokenStream>()?.to_string();
        node
    };
    match run.parse_str(text) {
        Ok(node) => Ok((
            node.iter().flat_map(|w| &w.predicates).map(
                |n| n.to_token_stream().to_string(),
            ).collect(),
            left,
        )),
        Err(e) => Err((e.to_string(), left)),
    }
}

/// The calling convention at the front of a text; its text is empty where
/// the text does not start with `extern`.
pub uninterp spec fn syn_abi(text: Seq<char>) -> Split;

/// Splits a calling convention off the front of `text`.
///
/// Trusted: `<Option<syn::Abi> as Parse>::parse`, run on the tokens of
/// `text`, and the tokens that it leaves. The contract names what comes back:
/// the node and the rest, both printed; or, where the parser refuses the
/// text, its message and the tokens that were left when it stopped, printed.
/// Where the text does not start with `extern`, the node is empty.
#[verifier::external_body]
pub(crate) fn split_abi(text: &str) -> (r: Result<(String, String), (String, String)>)
    requires
        readable(text@),
    ensures
        split_view(r) == syn_abi(text@),
{
    let mut left = String::new();
    let run = |input: ParseStream| -> syn::Result<Option<syn::Abi>> {
        let node = input.parse();
        left = input.parse::<TokenStream>()?.to_string();
        node
    };
    match run.parse_str(text) {
        Ok(node) => Ok((node.to_token_stream().to_string(), left)),
        Err(e) => Err((e.to_string(), left)),
    }
}

/// The operation signature at the front of a text.
pub uninterp spec fn syn_signature(text: Seq<char>) -> Split;

/// Splits the signature of an operation off the front of `text`.
///
/// Trusted: `<syn::Signature as Parse>::parse`, run on the tokens of `text`,
/// and the tokens that it leaves. The contract names what comes back: the
/// node and the rest, both printed; or, where the parser refuses the text,
/// its message and the tokens that were left when it stopped, printed.
#[verifier::external_body]
pub(crate) fn split_signature(text: &str) -> (r: Result<(String, String), (String, String)>)
    requires
        readable(text@),
    ensures
        split_view(r) == syn_signature(text@),
{
    let mut left = String::new();
    let run = |input: ParseStream| -> syn::Result<syn::Signature> {
        let node = input.parse();
        left = input.parse::<TokenStream>()?.to_string();
        node
    };
    match run.parse_str(text) {
        Ok(node) => Ok((node.to_token_stream().to_string(), left)),
        Err(e) => Err((e.to_string(), left)),
    }
}

/// The block at the front of a text, braces included.
pub uninterp spec fn syn_block(text: Seq<char>) -> Split;

/// Splits a block in braces off the front of `text`.
///
/// Trusted: `<syn::Block as Parse>::parse`, run on the tokens of `text`, and
/// the tokens that it leaves. The contract names what comes back: the node
/// and the rest, both printed; or, where the parser refuses the text, its
/// message and the tokens that were left when it stopped, printed.
#[verifier::external_body]
pub(crate) fn split_block(text: &str) -> (r: Result<(String, String), (String, String)>)
    requires
        readable(text@),
    ensures
        split_view(r) == syn_block(text@),
{
    let mut left = String::new();
    let run = |input: ParseStream| -> syn::Result<syn::Block> {
        let node = input.parse();
        left = input.parse::<TokenStream>()?.to_string();
        node
    };
    match run.parse_str(text) {
        Ok(node) => Ok((node.to_token_stream().to_string(), left)),
        Err(e) => Err((e.to_string(), left)),
    }
}

/// The associated constant at the front of a text.
pub uninterp spec fn syn_trait_const(text: Seq<char>) -> Split;

/// Splits an associated constant off the front of `text`.
///
/// Trusted: `<syn::TraitItemConst as Parse>::parse`, run on the tokens of
/// `text`, and the tokens that it leaves. The contract names what comes back:
/// the node and the rest, both printed; or, where the parser refuses the
/// text, its message and the tokens that were left when it stopped, printed.
#[verifier::external_body]
pub(crate) fn split_trait_const(text: &str) -> (r: Result<(String, String), (String, String)>)
    requires
        readable(text@),
    ensures
        split_view(r) == syn_trait_const(text@),
{
    let mut left = String::new();
    let run = |input: ParseStream| -> syn::Result<syn::TraitItemConst> {
        let node = input.parse();
        left = input.parse::<TokenStream>()?.to_string();
        node
    };
    match run.parse_str(text) {
        Ok(node) => Ok((node.to_token_stream().to_string(), left)),
        Err(e) => Err((e.to_string(), left)),
    }
}

/// The associated type at the front of a text.
pub uninterp spec fn syn_trait_type(text: Seq<char>) -> Split;

/// Splits an associated type off the front of `text`.
///
/// Trusted: `<syn::TraitItemType as Parse>::parse`, run on the tokens of
/// `text`, and the tokens that it leaves. The contract names what comes back:
/// the node and the rest, both printed; or, where the parser refuses the
/// text, its message and the tokens that were left when it stopped, printed.
#[verifier::external_body]
pub(crate) fn split_trait_type(text: &str) -> (r: Result<(String, String), (String, String)>)
    requires
        readable(text@),
    ensures
        split_view(r) == syn_trait_type(text@),
{
    let mut left = String::new();
    let run = |input: ParseStream| -> syn::Result<syn::TraitItemType> {
        let node = input.parse();
        left = input.parse::<TokenStream>()?.to_string();
        node
    };
    match run.parse_str(text) {
        Ok(node) => Ok((node.to_token_stream().to_string(), left)),
        Err(e) => Err((e.to_string(), left)),
    }
}

/// The macro invocation at the front of a text, as a member of an
/// interface.
pub uninterp spec fn syn_trait_macro(text: Seq<char>) -> Split;

/// Splits a macro invocation that is a member of an interface off the front
/// of `text`.
///
/// Trusted: `<syn::TraitItemMacro as Parse>::parse`, run on the tokens of
/// `text`, and the tokens that it leaves. The contract names what comes back:
/// the node and the rest, both printed; or, where the parser refuses the
/// text, its message and the tokens that were left when it stopped, printed.
/// It reads no literal: the tokens of the invocation are taken as they are.
#[verifier::external_body]
pub(crate) fn split_trait_macro(text: &str) -> (r: Result<(String, String), (String, String)>)
    ensures
        split_view(r) == syn_trait_macro(text@),
{
    let mut left = String::new();
    let run = |input: ParseStream| -> syn::Result<syn::TraitItemMacro> {
        let node = input.parse();
        left = input.parse::<TokenStream>()?.to_string();
        node
    };
    match run.parse_str(text) {
        Ok(node) => Ok((node.to_token_stream().to_string(), left)),
        Err(e) => Err((e.to_string(), left)),
    }
}

/// The type at the front of a text, with whether it is a path and whether
/// that path has a qualified self type.
pub uninterp spec fn syn_type(text: Seq<char>) -> TypeSplit;

/// Splits a type off the front of `text`.
///
/// Trusted: `<syn::Type as Parse>::parse`, run on the tokens of `text`, and
/// the tokens that it leaves. The contract names what comes back: the node
/// and the rest, both printed; or, where the parser refuses the text, its
/// message and the tokens that were left when it stopped, printed. With the
/// node comes `None` for a type that is not of the variant `Type::Path`, and
/// for a path whether its `qself` is present.
#[verifier::external_body]
pub(crate) fn split_type(text: &str) -> (r: Result<
    ((String, Option<bool>), String),
    (String, String),
>)
    requires
        readable(text@),
    ensures
        type_split_view(r) == syn_type(text@),
{
    let mut left = String::new();
    let run = |input: ParseStream| -> syn::Result<syn::Type> {
        let node = input.parse();
        left = input.parse::<TokenStream>()?.to_string();
        node
    };
    match run.parse_str(text) {
        Ok(node) => Ok(((node.to_token_stream().to_string(), match &node {
            syn::Type::Path(p) => Some(p.qself.is_some()),
            _ => None,
        }), left)),
        Err(e) => Err((e.to_string(), left)),
    }
}

/// The member of an implementation block at the front of a text, and
/// whether it is an operation.
pub uninterp spec fn syn_impl_item(text: Seq<char>) -> MemberSplit;

/// Splits a member of an implementation block off the front of `text`.
///
/// Trusted: `<syn::ImplItem as Parse>::parse`, run on the tokens of `text`,
/// and the tokens that it leaves. The contract names what comes back: the
/// node and the rest, both printed; or, where the parser refuses the text,
/// its message and the tokens that were left when it stopped, printed. With
/// the node comes whether its variant is `ImplItem::Method`.
#[verifier::external_body]
pub(crate) fn split_impl_item(text: &str) -> (r: Result<((String, bool), String), (String, String)>)
    requires
        readable(text@),
    ensures
        member_split_view(r) == syn_impl_item(text@),
{
    let mut left = String::new();
    let run = |input: ParseStream| -> syn::Result<syn::ImplItem> {
        let node = input.parse();
        left = input.parse::<TokenStream>()?.to_string();
        node
    };
    match run.parse_str(text) {
        Ok(node) => Ok((
            (node.to_token_stream().to_string(), matches!(node, syn::ImplItem::Method(_))),
            left,
        )),
        Err(e) => Err((e.to_string(), left)),
    }
}

/// The parts of a generic parameter written alone in a text, its attributes
/// left out.
pub uninterp spec fn syn_generic_param(text: Seq<char>) -> Option<GenericParamView>;

/// Trusted: `syn::parse_str::<syn::GenericParam>`, and the fields of the
/// parameter it returns, each printed as tokens, but for the attributes,
/// which are left empty. `None` where the text is no generic parameter.
#[verifier::external_body]
pub(crate) fn generic_param_parts(text: &str) -> (r: Option<GenericParam>)
    requires
        readable(text@),
    ensures
        option_view(r) == syn_generic_param(text@),
{
    let print = |n: &dyn ToTokens| n.to_token_stream().to_string();
    let (kind, name, bounds, default) = match syn::parse_str::<syn::GenericParam>(text).ok()? {
        syn::GenericParam::Lifetime(p) => {
            (ParamKind::Lifetime, p.lifetime.to_string(), print(&p.bounds), String::new())
        },
        syn::GenericParam::Type(p) => {
            (ParamKind::Type, p.ident.to_string(), print(&p.bounds), print(&p.default))
        },
        syn::GenericParam::Const(p) => {
            (ParamKind::Const, p.ident.to_string(), print(&p.ty), print(&p.default))
        },
    };
    Some(GenericParam { kind, attrs: String::new(), name, bounds, default })
}

/// The parts of a parameter of an operation written alone in a text, its
/// attributes left out.
pub uninterp spec fn syn_fn_arg(text: Seq<char>) -> Option<FnArgView>;

/// Trusted: `syn::parse_str::<syn::FnArg>`, and the fields of the parameter
/// it returns, each printed as tokens, but for the attributes, which are
/// left empty. `None` where the text is no parameter.
#[verifier::external_body]
pub(crate) fn fn_arg_parts(text: &str) -> (r: Option<FnArg>)
    requires
        readable(text@),
    ensures
        option_view(r) == syn_fn_arg(text@),
{
    let print = |n: &dyn ToTokens| n.to_token_stream().to_string();
    Some(match syn::parse_str::<syn::FnArg>(text).ok()? {
        syn::FnArg::Receiver(r) => FnArg::Receiver(Receiver {
            attrs: String::new(),
            reference: r.reference.is_some(),
            lifetime: r.reference.map(|(_, lifetime)| print(&lifetime)).unwrap_or_default(),
            mutability: r.mutability.is_some(),
        }),
        syn::FnArg::Typed(t) => FnArg::Typed(PatType {
            attrs: String::new(),
            pat: print(&t.pat),
            ty: print(&t.ty),
        }),
    })
}

/// The parts of a signature after its qualifiers, each printed alone.
pub struct SignatureParts {
    pub ident: String,
    pub params: Vec<String>,
    pub predicates: Vec<String>,
    pub inputs: Vec<String>,
    pub variadic: String,
    /// The arrow and the return type; empty where none is written.
    pub output: String,
}

/// The view of `SignatureParts`: each text as its sequence of characters.
pub struct SignaturePartsView {
    pub ident: Seq<char>,
    pub params: Seq<Seq<char>>,
    pub predicates: Seq<Seq<char>>,
    pub inputs: Seq<Seq<char>>,
    pub variadic: Seq<char>,
    pub output: Seq<char>,
}

impl View for SignatureParts {
    type V = SignaturePartsView;

    open spec fn view(&self) -> SignaturePartsView {
        SignaturePartsView {
            ident: self.ident@,
            params: views(self.params@),
            predicates: views(self.predicates@),
            inputs: views(self.inputs@),
            variadic: self.variadic@,
            output: self.output@,
        }
    }
}

/// The parts of a signature written alone in a text.
pub uninterp spec fn syn_signature_parts(text: Seq<char>) -> Option<SignaturePartsView>;

/// Trusted: `syn::parse_str::<syn::Signature>`, and fields of the signature
/// it returns: the name, the variadic marker and the return type with its
/// arrow printed as tokens; the generic parameters, the where-predicates and
/// the parameters in the order written, each printed as tokens. `None` where
/// the text is no signature.
#[verifier::external_body]
pub(crate) fn signature_parts(text: &str) -> (r: Option<SignatureParts>)
    requires
        readable(text@),
    ensures
        option_view(r) == syn_signature_parts(text@),
{
    let sig = syn::parse_str::<syn::Signature>(text).ok()?;
    let print = |n: &dyn ToTokens| n.to_token_stream().to_string();
    Some(SignatureParts {
        ident: sig.ident.to_string(),
        params: sig.generics.params.iter().map(|n| print(n)).collect(),
        predicates: sig.generics.where_clause.iter().flat_map(|w| &w.predicates).map(
            |n| print(n),
        ).collect(),
        inputs: sig.inputs.iter().map(|n| print(n)).collect(),
        variadic: print(&sig.variadic),
        output: print(&sig.output),
    })
}

} // verus!
