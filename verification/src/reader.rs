//! Reading a syntax node back from its text into the structure that the
//! rewriting works on. A text with a literal of a form that the syntax-tree
//! library does not know is not read.

use vstd::prelude::*;
use crate::error::{
    error_at, make_error, mismatch_message, ParseError, ParseErrorKind, ParseErrorView,
};
use crate::primitive::{
    canonical, fn_arg_parts, generic_param_parts, signature_parts, split_abi, split_generics,
    split_outer_attrs, syn_abi, syn_canonical, syn_fn_arg, syn_generic_param, syn_generics,
    syn_outer_attrs, syn_signature_parts,
};
use crate::syntax::{
    lemma_views_empty, lemma_views_push, views, FnArg, FnArgView, GenericParam, GenericParamView,
    Generics, GenericsView, PatType, PatTypeView, Receiver, ReceiverView, Signature, SignatureView,
};
use crate::text::{join, join_pieces};
use crate::token::{
    after_token, eat_keyword, find_flaw, guarded, lemma_readable_after, readable, rest_after_token,
    settle, settled, take_keyword,
};

verus! {

/// The values of a list of optional values, where none is missing.
pub open spec fn all_some<T>(items: Seq<Option<T>>) -> Option<Seq<T>>
    decreases items.len(),
{
    if items.len() == 0 {
        Some(Seq::empty())
    } else {
        match (all_some(items.drop_last()), items.last()) {
            (Some(before), Some(last)) => Some(before.push(last)),
            _ => None,
        }
    }
}

/// A list with a value missing among its first `n` has a value missing.
pub proof fn lemma_all_some_prefix<T>(items: Seq<Option<T>>, n: int)
    requires
        0 <= n <= items.len(),
        all_some(items.subrange(0, n)) is None,
    ensures
        all_some(items) is None,
    decreases items.len() - n,
{
    if n < items.len() {
        assert(items.subrange(0, n + 1).drop_last() =~= items.subrange(0, n));
        lemma_all_some_prefix(items, n + 1);
    } else {
        assert(items.subrange(0, n) =~= items);
    }
}

/// The outer attributes at the front of a text, as one text.
pub open spec fn leading_attrs(text: Seq<char>) -> Option<Seq<char>> {
    match syn_outer_attrs(text) {
        Ok((attrs, _)) => Some(join(attrs)),
        Err(_) => None,
    }
}

fn read_leading_attrs(text: &str) -> (r: Option<String>)
    ensures
        option_text(r) == leading_attrs(text@),
{
    match split_outer_attrs(text) {
        Ok((attrs, _)) => Some(join_pieces(&attrs)),
        Err(_) => None,
    }
}

/// An optional text seen through its view.
pub open spec fn option_text(r: Option<String>) -> Option<Seq<char>> {
    match r {
        Some(t) => Some(t@),
        None => None,
    }
}

/// The generic parameter that a text holds. The text is split into tokens first.
pub open spec fn read_param(text: Seq<char>) -> Option<GenericParamView> {
    match tokens_of(text) {
        Ok(tokens) => param_in(tokens),
        Err(_) => None,
    }
}

/// The generic parameter that a text holds. The text has to be printed as its tokens.
pub open spec fn param_in(text: Seq<char>) -> Option<GenericParamView> {
    match (readable(text), leading_attrs(text), syn_generic_param(text)) {
        (true, Some(attrs), Some(p)) => Some(
            GenericParamView {
                kind: p.kind,
                attrs,
                name: p.name,
                bounds: p.bounds,
                default: p.default,
            },
        ),
        _ => None,
    }
}

/// Reads a generic parameter back from its text.
pub fn parse_param(text: &str) -> (r: Option<GenericParam>)
    ensures
        match r {
            Some(p) => read_param(text@) == Some(p@),
            None => read_param(text@) is None,
        },
{
    let tokens = match tokenize(text) {
        Ok(tokens) => tokens,
        Err(_) => return None,
    };
    let text = tokens.as_str();
    if find_flaw(text).is_some() {
        return None;
    }
    let attrs = read_leading_attrs(text);
    let parts = generic_param_parts(text);
    match (attrs, parts) {
        (Some(attrs), Some(p)) => Some(
            GenericParam {
                kind: p.kind,
                attrs,
                name: p.name,
                bounds: p.bounds,
                default: p.default,
            },
        ),
        _ => None,
    }
}

/// The generic parameters that a list of texts holds.
pub open spec fn read_params(texts: Seq<Seq<char>>) -> Option<Seq<GenericParamView>> {
    all_some(texts.map_values(|t: Seq<char>| read_param(t)))
}

/// Reads generic parameters back from their texts; `None` where one of them
/// cannot be read.
pub fn parse_params(texts: &Vec<String>) -> (r: Option<Vec<GenericParam>>)
    ensures
        match r {
            Some(params) => read_params(views(texts@)) == Some(views(params@)),
            None => read_params(views(texts@)) is None,
        },
{
    let ghost all = views(texts@).map_values(|t: Seq<char>| read_param(t));
    let mut out: Vec<GenericParam> = Vec::new();
    let mut i: usize = 0;
    proof {
        lemma_views_empty::<GenericParam>();
        assert(all.subrange(0, 0) =~= Seq::<Option<GenericParamView>>::empty());
    }
    while i < texts.len()
        invariant
            i <= texts.len(),
            all == views(texts@).map_values(|t: Seq<char>| read_param(t)),
            all_some(all.subrange(0, i as int)) == Some(views(out@)),
        decreases texts.len() - i,
    {
        proof {
            assert(all.subrange(0, i + 1).drop_last() =~= all.subrange(0, i as int));
            assert(all.subrange(0, i + 1).last() == read_param(texts@[i as int]@));
        }
        match parse_param(texts[i].as_str()) {
            Some(p) => {
                proof {
                    lemma_views_push(out@, p);
                }
                out.push(p);
            },
            None => {
                proof {
                    lemma_all_some_prefix(all, i + 1);
                }
                return None;
            },
        }
        i += 1;
    }
    assert(all.subrange(0, texts@.len() as int) =~= all);
    Some(out)
}

/// The parameter of an operation that a text holds. The text is split into tokens first.
pub open spec fn read_arg(text: Seq<char>) -> Option<FnArgView> {
    match tokens_of(text) {
        Ok(tokens) => arg_in(tokens),
        Err(_) => None,
    }
}

/// The parameter of an operation that a text holds. The text has to be printed as its tokens.
pub open spec fn arg_in(text: Seq<char>) -> Option<FnArgView> {
    match (readable(text), leading_attrs(text), syn_fn_arg(text)) {
        (true, Some(attrs), Some(FnArgView::Receiver(r))) => Some(
            FnArgView::Receiver(
                ReceiverView {
                    attrs,
                    reference: r.reference,
                    lifetime: r.lifetime,
                    mutability: r.mutability,
                },
            ),
        ),
        (true, Some(attrs), Some(FnArgView::Typed(t))) => Some(
            FnArgView::Typed(PatTypeView { attrs, pat: t.pat, ty: t.ty }),
        ),
        _ => None,
    }
}

/// Reads a parameter of an operation back from its text.
pub fn parse_arg(text: &str) -> (r: Option<FnArg>)
    ensures
        match r {
            Some(a) => read_arg(text@) == Some(a@),
            None => read_arg(text@) is None,
        },
{
    let tokens = match tokenize(text) {
        Ok(tokens) => tokens,
        Err(_) => return None,
    };
    let text = tokens.as_str();
    if find_flaw(text).is_some() {
        return None;
    }
    let attrs = read_leading_attrs(text);
    let parts = fn_arg_parts(text);
    match (attrs, parts) {
        (Some(attrs), Some(FnArg::Receiver(r))) => Some(
            FnArg::Receiver(
                Receiver {
                    attrs,
                    reference: r.reference,
                    lifetime: r.lifetime,
                    mutability: r.mutability,
                },
            ),
        ),
        (Some(attrs), Some(FnArg::Typed(t))) => Some(
            FnArg::Typed(PatType { attrs, pat: t.pat, ty: t.ty }),
        ),
        _ => None,
    }
}

/// The parameters of an operation that a list of texts holds.
pub open spec fn read_args(texts: Seq<Seq<char>>) -> Option<Seq<FnArgView>> {
    all_some(texts.map_values(|t: Seq<char>| read_arg(t)))
}

/// Reads the parameters of an operation back from their texts; `None` where one
/// of them cannot be read.
pub fn parse_args(texts: &Vec<String>) -> (r: Option<Vec<FnArg>>)
    ensures
        match r {
            Some(args) => read_args(views(texts@)) == Some(views(args@)),
            None => read_args(views(texts@)) is None,
        },
{
    let ghost all = views(texts@).map_values(|t: Seq<char>| read_arg(t));
    let mut out: Vec<FnArg> = Vec::new();
    let mut i: usize = 0;
    proof {
        lemma_views_empty::<FnArg>();
        assert(all.subrange(0, 0) =~= Seq::<Option<FnArgView>>::empty());
    }
    while i < texts.len()
        invariant
            i <= texts.len(),
            all == views(texts@).map_values(|t: Seq<char>| read_arg(t)),
            all_some(all.subrange(0, i as int)) == Some(views(out@)),
        decreases texts.len() - i,
    {
        proof {
            assert(all.subrange(0, i + 1).drop_last() =~= all.subrange(0, i as int));
            assert(all.subrange(0, i + 1).last() == read_arg(texts@[i as int]@));
        }
        match parse_arg(texts[i].as_str()) {
            Some(a) => {
                proof {
                    lemma_views_push(out@, a);
                }
                out.push(a);
            },
            None => {
                proof {
                    lemma_all_some_prefix(all, i + 1);
                }
                return None;
            },
        }
        i += 1;
    }
    assert(all.subrange(0, texts@.len() as int) =~= all);
    Some(out)
}

/// The qualifiers at the front of a signature: whether `const`, `async` and
/// `unsafe` stand there, in this order, and the calling convention.
pub open spec fn qualifiers_of(text: Seq<char>) -> Option<(bool, bool, bool, Seq<char>)> {
    let (constness, t1) = eat_keyword(text, "const"@);
    let (asyncness, t2) = eat_keyword(t1, "async"@);
    let (unsafety, t3) = eat_keyword(t2, "unsafe"@);
    match syn_abi(t3) {
        Ok((abi, _)) => Some((constness, asyncness, unsafety, abi)),
        Err(_) => None,
    }
}

fn read_qualifiers(text: &str) -> (r: Option<(bool, bool, bool, String)>)
    requires
        readable(text@),
    ensures
        match r {
            Some((c, a, u, abi)) => qualifiers_of(text@) == Some((c, a, u, abi@)),
            None => qualifiers_of(text@) is None,
        },
{
    let (constness, t1) = take_keyword(text, "const");
    let (asyncness, t2) = take_keyword(t1.as_str(), "async");
    let (unsafety, t3) = take_keyword(t2.as_str(), "unsafe");
    proof {
        lemma_readable_after(text@);
        lemma_readable_after(t1@);
        lemma_readable_after(t2@);
    }
    match split_abi(t3.as_str()) {
        Ok((abi, _)) => Some((constness, asyncness, unsafety, abi)),
        Err(_) => None,
    }
}

/// A return type without the arrow before it.
pub open spec fn after_arrow(output: Seq<char>) -> Seq<char> {
    after_token(after_token(output))
}

/// The signature that a text holds. The text is split into tokens first.
pub open spec fn read_signature(text: Seq<char>) -> Option<SignatureView> {
    match tokens_of(text) {
        Ok(tokens) => signature_in(tokens),
        Err(_) => None,
    }
}

/// The signature that a text holds. The text has to be printed as its tokens.
pub open spec fn signature_in(text: Seq<char>) -> Option<SignatureView> {
    match (readable(text), qualifiers_of(text), syn_signature_parts(text)) {
        (true, Some(q), Some(parts)) => match (read_params(parts.params), read_args(parts.inputs)) {
            (Some(params), Some(inputs)) => Some(
                SignatureView {
                    constness: q.0,
                    asyncness: q.1,
                    unsafety: q.2,
                    abi: q.3,
                    ident: parts.ident,
                    generics: GenericsView { params, predicates: parts.predicates },
                    inputs,
                    variadic: parts.variadic,
                    output: after_arrow(parts.output),
                },
            ),
            _ => None,
        },
        _ => None,
    }
}

/// Reads a signature back from its text.
pub fn parse_signature(text: &str) -> (r: Option<Signature>)
    ensures
        match r {
            Some(sig) => read_signature(text@) == Some(sig@),
            None => read_signature(text@) is None,
        },
{
    let tokens = match tokenize(text) {
        Ok(tokens) => tokens,
        Err(_) => return None,
    };
    let text = tokens.as_str();
    if find_flaw(text).is_some() {
        return None;
    }
    let qualifiers = read_qualifiers(text);
    let parts = signature_parts(text);
    match (qualifiers, parts) {
        (Some((constness, asyncness, unsafety, abi)), Some(parts)) => {
            let params = parse_params(&parts.params);
            let inputs = parse_args(&parts.inputs);
            match (params, inputs) {
                (Some(params), Some(inputs)) => {
                    let arrow = rest_after_token(parts.output.as_str());
                    Some(
                        Signature {
                            constness,
                            asyncness,
                            unsafety,
                            abi,
                            ident: parts.ident,
                            generics: Generics { params, predicates: parts.predicates },
                            inputs,
                            variadic: parts.variadic,
                            output: rest_after_token(arrow.as_str()),
                        },
                    )
                },
                _ => None,
            }
        },
        _ => None,
    }
}

/// The generic parameters at the front of a text, and the text after them.
pub open spec fn params_at(text: Seq<char>) -> Result<
    (Seq<GenericParamView>, Seq<char>),
    ParseErrorView,
> {
    match settled(text, syn_generics(text)) {
        Err(e) => Err(e),
        Ok((texts, rest)) => match read_params(texts) {
            None => Err(error_at(ParseErrorKind::Internal, mismatch_message(), text)),
            Some(params) => Ok((params, rest)),
        },
    }
}

/// Parses the generics list at the front of `text`, where there is one.
pub(crate) fn parse_generic_params(text: &str) -> (r: Result<
    (Vec<GenericParam>, String),
    ParseError,
>)
    requires
        readable(text@),
    ensures
        r matches Ok((_, rest)) ==> readable(rest@),
        match r {
            Ok((params, rest)) => params_at(text@) == Ok::<_, ParseErrorView>(
                (views(params@), rest@),
            ),
            Err(e) => params_at(text@) == Err::<(Seq<GenericParamView>, Seq<char>), _>(e@),
        },
{
    match settle(text, split_generics(text)) {
        Err(e) => Err(e),
        Ok((texts, rest)) => match parse_params(&texts) {
            None => Err(
                make_error(ParseErrorKind::Internal, "a syntax node could not be read back", text),
            ),
            Some(params) => Ok((params, rest)),
        },
    }
}

/// The tokens of a text, separated by single spaces.
pub open spec fn tokens_of(text: Seq<char>) -> Result<Seq<char>, ParseErrorView> {
    match syn_canonical(text) {
        Ok(printed) => Ok(printed),
        Err(m) => Err(error_at(ParseErrorKind::Lex, m, text)),
    }
}

/// Splits a text into tokens and prints them with single spaces between
/// them: the form in which the parsers of this crate hand texts on.
pub fn tokenize(text: &str) -> (r: Result<String, ParseError>)
    ensures
        match r {
            Ok(printed) => tokens_of(text@) == Ok::<_, ParseErrorView>(printed@),
            Err(e) => tokens_of(text@) == Err::<Seq<char>, _>(e@),
        },
{
    match canonical(text) {
        Ok(printed) => Ok(printed),
        Err(m) => Err(make_error(ParseErrorKind::Lex, m.as_str(), text)),
    }
}

/// The outcome of a parser on the tokens of a text: the text is split into
/// tokens, which are printed with single spaces between them; the parser
/// runs on that text where it can be read.
pub open spec fn on_tokens<T>(
    input: Seq<char>,
    parse: spec_fn(Seq<char>) -> Result<T, ParseErrorView>,
) -> Result<T, ParseErrorView> {
    match tokens_of(input) {
        Err(e) => Err(e),
        Ok(tokens) => guarded(tokens, parse(tokens)),
    }
}

} // verus!
