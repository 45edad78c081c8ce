//! Printing syntax nodes as text: the tokens of each node, separated by
//! single spaces.

use vstd::prelude::*;
use vstd::string::*;
use crate::syntax::{
    lemma_views_empty, lemma_views_push, views, Attribute, AttributeView, FnArg, FnArgView,
    GenericParam, GenericParamView, ParamKind, Signature, SignatureView,
};
use crate::text::{copy_text, join, join_pieces, push_piece, spaced};

verus! {

/// The pieces of a list with a separator between each two of them.
pub open spec fn separated(pieces: Seq<Seq<char>>, separator: Seq<char>) -> Seq<char>
    decreases pieces.len(),
{
    if pieces.len() == 0 {
        Seq::empty()
    } else if pieces.len() == 1 {
        pieces[0]
    } else {
        spaced(spaced(separated(pieces.drop_last(), separator), separator), pieces.last())
    }
}

/// Joins the pieces of a list with a separator.
pub fn join_separated(pieces: &Vec<String>, separator: &str) -> (out: String)
    ensures
        out@ == separated(views(pieces@), separator@),
{
    let mut out = String::new();
    let mut i: usize = 0;
    assert(views(pieces@).subrange(0, 0) =~= Seq::<Seq<char>>::empty());
    while i < pieces.len()
        invariant
            i <= pieces.len(),
            out@ == separated(views(pieces@).subrange(0, i as int), separator@),
        decreases pieces.len() - i,
    {
        let ghost before = views(pieces@).subrange(0, i as int);
        let ghost after = views(pieces@).subrange(0, i + 1);
        assert(after.drop_last() =~= before);
        assert(after.last() == pieces@[i as int]@);
        if i == 0 {
            assert(after[0] == pieces@[0]@);
            out = copy_text(pieces[i].as_str());
        } else {
            push_piece(&mut out, separator);
            push_piece(&mut out, pieces[i].as_str());
        }
        i += 1;
    }
    assert(views(pieces@).subrange(0, pieces@.len() as int) =~= views(pieces@));
    out
}

/// A group in parentheses.
pub open spec fn parens(inner: Seq<char>) -> Seq<char> {
    "("@ + inner + ")"@
}

/// Puts a text in parentheses.
pub fn in_parens(inner: &str) -> (out: String)
    ensures
        out@ == parens(inner@),
{
    String::from_str("(").concat(inner).concat(")")
}

/// A group in braces.
pub open spec fn braces(inner: Seq<char>) -> Seq<char> {
    spaced(spaced("{"@, inner), "}"@)
}

/// Puts a text in braces.
pub fn in_braces(inner: &str) -> (out: String)
    ensures
        out@ == braces(inner@),
{
    let mut out = String::from_str("{");
    proof {
        assert(spaced(Seq::empty(), "{"@) =~= "{"@);
    }
    push_piece(&mut out, inner);
    push_piece(&mut out, "}");
    out
}

/// A list in angle brackets; nothing where the list is empty.
pub open spec fn angles(pieces: Seq<Seq<char>>) -> Seq<char> {
    if pieces.len() == 0 {
        Seq::empty()
    } else {
        spaced(spaced("<"@, separated(pieces, ","@)), ">"@)
    }
}

/// Prints a list in angle brackets.
pub fn in_angles(pieces: &Vec<String>) -> (out: String)
    ensures
        out@ == angles(views(pieces@)),
{
    if pieces.len() == 0 {
        String::new()
    } else {
        let mut out = String::from_str("<");
        let inner = join_separated(pieces, ",");
        push_piece(&mut out, inner.as_str());
        push_piece(&mut out, ">");
        out
    }
}

/// A word that is printed where a flag is set.
pub open spec fn word_if(flag: bool, word: Seq<char>) -> Seq<char> {
    if flag {
        word
    } else {
        Seq::empty()
    }
}

/// Appends a word to `out` where the flag is set.
pub fn push_word_if(out: &mut String, flag: bool, word: &str)
    ensures
        final(out)@ == spaced(old(out)@, word_if(flag, word@)),
{
    if flag {
        push_piece(out, word);
    } else {
        assert(spaced(out@, Seq::empty()) =~= out@);
    }
}

/// A piece with a sign before it; nothing where the piece is empty.
pub open spec fn prefixed(sign: Seq<char>, piece: Seq<char>) -> Seq<char> {
    if piece.len() == 0 {
        Seq::empty()
    } else {
        spaced(sign, piece)
    }
}

/// Prints a piece with a sign before it.
pub fn with_prefix(sign: &str, piece: &str) -> (out: String)
    ensures
        out@ == prefixed(sign@, piece@),
{
    if piece.is_empty() {
        String::new()
    } else {
        let mut out = copy_text(sign);
        push_piece(&mut out, piece);
        out
    }
}

/// Which attributes of a list are meant.
#[derive(Clone, Copy, PartialEq, Eq, Structural, Debug)]
pub enum Keep {
    All,
    Outer,
    Inner,
}

/// Whether an attribute is among those that are meant.
pub open spec fn kept(attr: AttributeView, keep: Keep) -> bool {
    match keep {
        Keep::All => true,
        Keep::Outer => !attr.inner,
        Keep::Inner => attr.inner,
    }
}

/// The texts of the attributes of a list that are meant, in order.
pub open spec fn attr_texts(attrs: Seq<AttributeView>, keep: Keep) -> Seq<char>
    decreases attrs.len(),
{
    if attrs.len() == 0 {
        Seq::empty()
    } else if kept(attrs.last(), keep) {
        spaced(attr_texts(attrs.drop_last(), keep), attrs.last().text)
    } else {
        attr_texts(attrs.drop_last(), keep)
    }
}

/// Prints the attributes of a list that are meant.
pub fn print_attrs(attrs: &Vec<Attribute>, keep: Keep) -> (out: String)
    ensures
        out@ == attr_texts(views(attrs@), keep),
{
    let mut out = String::new();
    let mut i: usize = 0;
    assert(views(attrs@).subrange(0, 0) =~= Seq::<AttributeView>::empty());
    while i < attrs.len()
        invariant
            i <= attrs.len(),
            out@ == attr_texts(views(attrs@).subrange(0, i as int), keep),
        decreases attrs.len() - i,
    {
        let ghost before = views(attrs@).subrange(0, i as int);
        let ghost after = views(attrs@).subrange(0, i + 1);
        assert(after.drop_last() =~= before);
        assert(after.last() == attrs@[i as int]@);
        let wanted = match keep {
            Keep::All => true,
            Keep::Outer => !attrs[i].inner,
            Keep::Inner => attrs[i].inner,
        };
        if wanted {
            push_piece(&mut out, attrs[i].text.as_str());
        }
        i += 1;
    }
    assert(views(attrs@).subrange(0, attrs@.len() as int) =~= views(attrs@));
    out
}

/// How a generic parameter is printed.
///
/// The forms are those of `syn::Generics`: as it prints itself, and as the
/// two halves of `split_for_impl` print it. They are printed here because
/// the parameters are held as texts once they are read. Lifetime synthesis
/// and default extraction make lists of parameters that no syntax tree
/// holds, and a list handed back to the library for printing would come out
/// as a named result, of which the rewriting could state no text.
#[derive(Clone, Copy, PartialEq, Eq, Structural, Debug)]
pub enum Form {
    /// As declared, with its bounds and its default.
    Declared,
    /// As on an implementation: with its bounds, without its default.
    Bounded,
    /// As an argument: its name.
    Named,
}

/// A generic parameter with its bounds and without its default.
pub open spec fn bounded_param(p: GenericParamView) -> Seq<char> {
    match p.kind {
        ParamKind::Const => spaced(
            spaced(spaced(p.attrs, "const"@), p.name),
            prefixed(":"@, p.bounds),
        ),
        _ => spaced(spaced(p.attrs, p.name), prefixed(":"@, p.bounds)),
    }
}

/// A generic parameter in the given form.
pub open spec fn param_text(p: GenericParamView, form: Form) -> Seq<char> {
    match form {
        Form::Named => p.name,
        Form::Bounded => bounded_param(p),
        Form::Declared => spaced(bounded_param(p), prefixed("="@, p.default)),
    }
}

/// Prints a generic parameter in the given form.
pub fn print_param(p: &GenericParam, form: Form) -> (out: String)
    ensures
        out@ == param_text(p@, form),
{
    match form {
        Form::Named => copy_text(p.name.as_str()),
        _ => {
            let mut out = copy_text(p.attrs.as_str());
            match p.kind {
                ParamKind::Const => {
                    push_piece(&mut out, "const");
                },
                _ => {},
            }
            push_piece(&mut out, p.name.as_str());
            let bounds = with_prefix(":", p.bounds.as_str());
            push_piece(&mut out, bounds.as_str());
            match form {
                Form::Declared => {
                    let default = with_prefix("=", p.default.as_str());
                    push_piece(&mut out, default.as_str());
                },
                _ => {},
            }
            out
        },
    }
}

/// The parameters of one sort, each in the given form and in the order
/// written: the lifetimes, or the others.
pub open spec fn params_of_sort(params: Seq<GenericParamView>, form: Form, lifetimes: bool) -> Seq<
    Seq<char>,
>
    decreases params.len(),
{
    if params.len() == 0 {
        Seq::empty()
    } else if (params.last().kind == ParamKind::Lifetime) == lifetimes {
        params_of_sort(params.drop_last(), form, lifetimes).push(param_text(params.last(), form))
    } else {
        params_of_sort(params.drop_last(), form, lifetimes)
    }
}

/// Appends the parameters of one sort to a list of texts.
pub fn push_params_of_sort(
    out: &mut Vec<String>,
    params: &Vec<GenericParam>,
    form: Form,
    lifetimes: bool,
)
    ensures
        views(final(out)@) == views(old(out)@) + params_of_sort(views(params@), form, lifetimes),
{
    let mut i: usize = 0;
    assert(views(params@).subrange(0, 0) =~= Seq::<GenericParamView>::empty());
    assert(views(out@) + Seq::<Seq<char>>::empty() =~= views(out@));
    while i < params.len()
        invariant
            i <= params.len(),
            views(out@) == views(old(out)@) + params_of_sort(
                views(params@).subrange(0, i as int),
                form,
                lifetimes,
            ),
        decreases params.len() - i,
    {
        let ghost before = views(params@).subrange(0, i as int);
        let ghost after = views(params@).subrange(0, i + 1);
        assert(after.drop_last() =~= before);
        assert(after.last() == params@[i as int]@);
        let is_lifetime = match params[i].kind {
            ParamKind::Lifetime => true,
            _ => false,
        };
        if is_lifetime == lifetimes {
            let text = print_param(&params[i], form);
            proof {
                lemma_views_push(out@, text);
                assert((views(old(out)@) + params_of_sort(before, form, lifetimes)).push(text@)
                    =~= views(old(out)@) + params_of_sort(before, form, lifetimes).push(text@));
            }
            out.push(text);
        }
        i += 1;
    }
    assert(views(params@).subrange(0, params@.len() as int) =~= views(params@));
}

/// The parameters of a generics list in the given form: the lifetimes
/// first, then the others.
pub open spec fn param_texts(params: Seq<GenericParamView>, form: Form) -> Seq<Seq<char>> {
    params_of_sort(params, form, true) + params_of_sort(params, form, false)
}

/// Prints the parameters of a generics list, the lifetimes first.
pub fn print_params(params: &Vec<GenericParam>, form: Form) -> (out: Vec<String>)
    ensures
        views(out@) == param_texts(views(params@), form),
{
    let mut out: Vec<String> = Vec::new();
    proof {
        lemma_views_empty::<String>();
    }
    push_params_of_sort(&mut out, params, form, true);
    push_params_of_sort(&mut out, params, form, false);
    assert(views(out@) =~= param_texts(views(params@), form));
    out
}

/// A generics list in angle brackets, in the given form; nothing where it
/// has no parameter.
pub open spec fn generics_text(params: Seq<GenericParamView>, form: Form) -> Seq<char> {
    angles(param_texts(params, form))
}

/// Prints a generics list in angle brackets.
pub fn print_generics(params: &Vec<GenericParam>, form: Form) -> (out: String)
    ensures
        out@ == generics_text(views(params@), form),
{
    let texts = print_params(params, form);
    in_angles(&texts)
}

/// A where-clause; nothing where it has no predicate.
pub open spec fn where_text(predicates: Seq<Seq<char>>) -> Seq<char> {
    prefixed("where"@, separated(predicates, ","@))
}

/// Prints a where-clause.
pub fn print_where(predicates: &Vec<String>) -> (out: String)
    ensures
        out@ == where_text(views(predicates@)),
{
    let list = join_separated(predicates, ",");
    with_prefix("where", list.as_str())
}

/// A parameter of an operation.
pub open spec fn arg_text(arg: FnArgView) -> Seq<char> {
    match arg {
        FnArgView::Receiver(r) => spaced(
            spaced(
                spaced(spaced(r.attrs, word_if(r.reference, "&"@)), r.lifetime),
                word_if(r.mutability, "mut"@),
            ),
            "self"@,
        ),
        FnArgView::Typed(t) => spaced(spaced(spaced(t.attrs, t.pat), ":"@), t.ty),
    }
}

/// Prints a parameter of an operation.
pub fn print_arg(arg: &FnArg) -> (out: String)
    ensures
        out@ == arg_text(arg@),
{
    match arg {
        FnArg::Receiver(r) => {
            let mut out = copy_text(r.attrs.as_str());
            push_word_if(&mut out, r.reference, "&");
            push_piece(&mut out, r.lifetime.as_str());
            push_word_if(&mut out, r.mutability, "mut");
            push_piece(&mut out, "self");
            out
        },
        FnArg::Typed(t) => {
            let mut out = copy_text(t.attrs.as_str());
            push_piece(&mut out, t.pat.as_str());
            push_piece(&mut out, ":");
            push_piece(&mut out, t.ty.as_str());
            out
        },
    }
}

/// The parameters of an operation, each printed alone.
pub open spec fn arg_texts(inputs: Seq<FnArgView>) -> Seq<Seq<char>> {
    inputs.map_values(|arg: FnArgView| arg_text(arg))
}

/// Prints the parameters of an operation, each alone.
pub fn print_args(inputs: &Vec<FnArg>) -> (out: Vec<String>)
    ensures
        views(out@) == arg_texts(views(inputs@)),
{
    let mut out: Vec<String> = Vec::new();
    let mut i: usize = 0;
    while i < inputs.len()
        invariant
            i <= inputs.len(),
            views(out@) =~= arg_texts(views(inputs@)).subrange(0, i as int),
        decreases inputs.len() - i,
    {
        let text = print_arg(&inputs[i]);
        proof {
            lemma_views_push(out@, text);
        }
        out.push(text);
        i += 1;
    }
    assert(arg_texts(views(inputs@)).subrange(0, inputs@.len() as int) =~= arg_texts(
        views(inputs@),
    ));
    out
}

/// The parameter list of an operation, in parentheses: the parameters with
/// commas between them, and the variadic marker where there is one.
pub open spec fn inputs_text(inputs: Seq<FnArgView>, variadic: Seq<char>) -> Seq<char> {
    parens(
        spaced(
            separated(arg_texts(inputs), ","@),
            if inputs.len() == 0 {
                variadic
            } else {
                prefixed(","@, variadic)
            },
        ),
    )
}

/// Prints the parameter list of an operation.
pub fn print_inputs(inputs: &Vec<FnArg>, variadic: &str) -> (out: String)
    ensures
        out@ == inputs_text(views(inputs@), variadic@),
{
    let texts = print_args(inputs);
    let mut inner = join_separated(&texts, ",");
    if inputs.len() == 0 {
        push_piece(&mut inner, variadic);
    } else {
        let tail = with_prefix(",", variadic);
        push_piece(&mut inner, tail.as_str());
    }
    in_parens(inner.as_str())
}

/// The text of an optional piece.
pub open spec fn text_or_empty(piece: Option<Seq<char>>) -> Seq<char> {
    match piece {
        Some(text) => text,
        None => Seq::empty(),
    }
}

/// A signature as written: every qualifier, the generics with their
/// defaults, and the return type where one is written.
pub open spec fn signature_text(sig: SignatureView) -> Seq<char> {
    join(
        seq![
            word_if(sig.constness, "const"@),
            word_if(sig.asyncness, "async"@),
            word_if(sig.unsafety, "unsafe"@),
            sig.abi,
            "fn"@,
            sig.ident,
            generics_text(sig.generics.params, Form::Declared),
            inputs_text(sig.inputs, sig.variadic),
            prefixed("->"@, sig.output),
            where_text(sig.generics.predicates),
        ],
    )
}

/// Prints a signature as written.
pub fn print_signature(sig: &Signature) -> (out: String)
    ensures
        out@ == signature_text(sig@),
{
    let constness = if sig.constness {
        String::from_str("const")
    } else {
        String::new()
    };
    let asyncness = if sig.asyncness {
        String::from_str("async")
    } else {
        String::new()
    };
    let unsafety = if sig.unsafety {
        String::from_str("unsafe")
    } else {
        String::new()
    };
    let pieces = vec![
        constness,
        asyncness,
        unsafety,
        sig.abi.clone(),
        String::from_str("fn"),
        sig.ident.clone(),
        print_generics(&sig.generics.params, Form::Declared),
        print_inputs(&sig.inputs, sig.variadic.as_str()),
        with_prefix("->", sig.output.as_str()),
        print_where(&sig.generics.predicates),
    ];
    proof {
        assert(views(pieces@) =~= seq![
            word_if(sig.constness, "const"@),
            word_if(sig.asyncness, "async"@),
            word_if(sig.unsafety, "unsafe"@),
            sig@.abi,
            "fn"@,
            sig@.ident,
            generics_text(sig@.generics.params, Form::Declared),
            inputs_text(sig@.inputs, sig@.variadic),
            prefixed("->"@, sig@.output),
            where_text(sig@.generics.predicates),
        ]);
    }
    join_pieces(&pieces)
}

} // verus!
