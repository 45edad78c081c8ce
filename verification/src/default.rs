//! Default extraction: the default body of an asynchronous operation
//! becomes a callable type of its own, generic over the implementer, and
//! the member type of the operation resolves to what that callable returns.
//!
//! For the operation `nth(&mut self, n: usize)` of an interface `Stream`,
//! six items follow the declaration:
//!
//! ```text
//! struct StreamNthDefault<'__self__, This: ?Sized + '__self__ + Stream>(PhantomData<This>, ..);
//! mod StreamNth_sealed {
//!     pub trait Sealed {}
//!     pub fn new<..>() -> StreamNthDefault<..> { StreamNthDefault(PhantomData, ..) }
//! }
//! trait StreamNthExt<..>: StreamNth_sealed::Sealed {
//!     type Item;
//!     type OutputFuture: Future;
//!     fn call_once(self, args: (&'__self__ mut This, usize,)) -> Self::OutputFuture;
//! }
//! impl<..> StreamNthExt<..> for StreamNthDefault<..> {
//!     type Item = <This as Stream>::Item;
//!     type OutputFuture = impl '__self__ + Future<Output = ..>;
//!     fn call_once(self, (this, n,): (&'__self__ mut This, usize,)) -> Self::OutputFuture {
//!         return async move { .. }
//!     }
//! }
//! impl<..> StreamNth_sealed::Sealed for StreamNthDefault<..> {}
//! impl<..> ::fast_async_trait::FnOnceHelper for StreamNthDefault<..> { .. }
//! ```
//!
//! The default body is moved into `call_once`. There the callable binds the
//! receiver to the name `this`, and every `self` of the body is written
//! `this`, so that the body means what it meant in the interface. The
//! operation keeps a body that makes the callable and
//! calls it once. Generic parameters are carried over with their bounds
//! only: the where-clauses of the interface and of the operation are not
//! repeated on the six items.

use vstd::prelude::*;
use vstd::string::*;
use crate::lifetimes::{collect_lifetime_bounds, lifetime_bounds};
use crate::naming::{pascal_case, to_pascal_case};
use crate::print::{
    braces, generics_text, in_braces, in_parens, params_of_sort, parens, prefixed, print_generics,
    push_params_of_sort, with_prefix, word_if, Form,
};
use crate::rewrite::{future_body, future_bound, print_future_body, print_future_bound};
use crate::syntax::{
    lemma_views_empty, lemma_views_push, views, FnArg, FnArgView, GenericParam, GenericParamView,
    ParamKind, Signature, SignatureView,
};
use crate::primitive::{next_token, syn_token, Token, TokenView};
use crate::text::{copy_text, join, join_pieces, push_char, push_piece, spaced, str_eq};

use crate::print::{join_separated, print_where, separated, where_text};

verus! {

/// What default extraction needs to know of the interface.
#[derive(Clone, PartialEq, Eq, Debug)]
pub struct Interface {
    pub vis: String,
    pub ident: String,
    pub params: Vec<GenericParam>,
    /// The names of the associated types of the interface, in order.
    pub associated: Vec<String>,
}

/// The view of `Interface`: each text as its sequence of characters.
pub struct InterfaceView {
    pub vis: Seq<char>,
    pub ident: Seq<char>,
    pub params: Seq<GenericParamView>,
    pub associated: Seq<Seq<char>>,
}

impl View for Interface {
    type V = InterfaceView;

    open spec fn view(&self) -> InterfaceView {
        InterfaceView {
            vis: self.vis@,
            ident: self.ident@,
            params: views(self.params@),
            associated: views(self.associated@),
        }
    }
}

/// The pieces of a list, each followed by a sign.
pub open spec fn terminated(pieces: Seq<Seq<char>>, sign: Seq<char>) -> Seq<char>
    decreases pieces.len(),
{
    if pieces.len() == 0 {
        Seq::empty()
    } else {
        spaced(spaced(terminated(pieces.drop_last(), sign), pieces.last()), sign)
    }
}

/// Joins the pieces of a list, each followed by a sign.
pub fn join_terminated(pieces: &Vec<String>, sign: &str) -> (out: String)
    ensures
        out@ == terminated(views(pieces@), sign@),
{
    let mut out = String::new();
    let mut i: usize = 0;
    assert(views(pieces@).subrange(0, 0) =~= Seq::<Seq<char>>::empty());
    while i < pieces.len()
        invariant
            i <= pieces.len(),
            out@ == terminated(views(pieces@).subrange(0, i as int), sign@),
        decreases pieces.len() - i,
    {
        let ghost before = views(pieces@).subrange(0, i as int);
        let ghost after = views(pieces@).subrange(0, i + 1);
        assert(after.drop_last() =~= before);
        assert(after.last() == pieces@[i as int]@);
        push_piece(&mut out, pieces[i].as_str());
        push_piece(&mut out, sign);
        i += 1;
    }
    assert(views(pieces@).subrange(0, pieces@.len() as int) =~= views(pieces@));
    out
}

/// A tuple of the given pieces: each is followed by a comma, so that a
/// single piece is a tuple too.
pub open spec fn tuple_text(pieces: Seq<Seq<char>>) -> Seq<char> {
    parens(terminated(pieces, ","@))
}

/// Prints a tuple of the given pieces.
pub fn print_tuple(pieces: &Vec<String>) -> (out: String)
    ensures
        out@ == tuple_text(views(pieces@)),
{
    let inner = join_terminated(pieces, ",");
    in_parens(inner.as_str())
}

/// The name of the callable type of a default: the name of the interface,
/// the name of the future, and `Default`.
pub open spec fn struct_name(interface: Seq<char>, future: Seq<char>) -> Seq<char> {
    interface + future + "Default"@
}

/// The name of the module that seals the callable type.
pub open spec fn sealed_name(interface: Seq<char>, future: Seq<char>) -> Seq<char> {
    interface + future + "_sealed"@
}

/// The name of the extension contract of the callable type.
pub open spec fn ext_name(interface: Seq<char>, future: Seq<char>) -> Seq<char> {
    interface + future + "Ext"@
}

/// Puts a name together from the name of the interface, the name of the future
/// and a suffix.
pub fn make_name(interface: &str, future: &str, suffix: &str) -> (out: String)
    ensures
        out@ == interface@ + future@ + suffix@,
{
    String::from_str(interface).concat(future).concat(suffix)
}

/// The relaxation that lets a type parameter be unsized.
pub open spec fn unsized_bound() -> Seq<char> {
    "? :: core :: marker :: Sized"@
}

/// A parameter of the callable type that comes from the interface or from
/// the operation: a type parameter may be unsized, and no parameter keeps a
/// default.
pub open spec fn relaxed(p: GenericParamView) -> GenericParamView {
    GenericParamView {
        kind: p.kind,
        attrs: p.attrs,
        name: p.name,
        bounds: if p.kind == ParamKind::Type {
            spaced(unsized_bound(), prefixed("+"@, p.bounds))
        } else {
            p.bounds
        },
        default: Seq::empty(),
    }
}

fn relax(p: &GenericParam) -> (out: GenericParam)
    ensures
        out@ == relaxed(p@),
{
    let bounds = match p.kind {
        ParamKind::Type => {
            let mut bounds = String::from_str("? :: core :: marker :: Sized");
            let more = with_prefix("+", p.bounds.as_str());
            push_piece(&mut bounds, more.as_str());
            bounds
        },
        _ => p.bounds.clone(),
    };
    GenericParam {
        kind: p.kind,
        attrs: p.attrs.clone(),
        name: p.name.clone(),
        bounds,
        default: String::new(),
    }
}

/// The leading type parameter of the callable type: the implementer of the
/// interface. Where the operation borrows its receiver, the implementer may
/// be unsized and outlives the lifetimes of the operation.
pub open spec fn implementer(
    name: Seq<char>,
    interface: InterfaceView,
    sig: SignatureView,
    borrowed: bool,
) -> GenericParamView {
    GenericParamView {
        kind: ParamKind::Type,
        attrs: Seq::empty(),
        name,
        bounds: join(
            seq![
                word_if(borrowed, unsized_bound() + " +"@),
                terminated(
                    params_of_sort(sig.generics.params, Form::Named, true),
                    "+"@,
                ),
                interface.ident,
                generics_text(interface.params, Form::Named),
            ],
        ),
        default: Seq::empty(),
    }
}

fn make_implementer(name: &str, interface: &Interface, sig: &Signature, borrowed: bool) -> (out:
    GenericParam)
    ensures
        out@ == implementer(name@, interface@, sig@, borrowed),
{
    let relaxation = if borrowed {
        String::from_str("? :: core :: marker :: Sized").concat(" +")
    } else {
        String::new()
    };
    let mut lifetimes: Vec<String> = Vec::new();
    proof {
        lemma_views_empty::<String>();
    }
    push_params_of_sort(&mut lifetimes, &sig.generics.params, Form::Named, true);
    assert(views(lifetimes@) =~= params_of_sort(sig@.generics.params, Form::Named, true));
    let pieces = vec![
        relaxation,
        join_terminated(&lifetimes, "+"),
        interface.ident.clone(),
        print_generics(&interface.params, Form::Named),
    ];
    proof {
        assert(views(pieces@) =~= seq![
            word_if(borrowed, unsized_bound() + " +"@),
            terminated(params_of_sort(sig@.generics.params, Form::Named, true), "+"@),
            interface@.ident,
            generics_text(interface@.params, Form::Named),
        ]);
    }
    GenericParam {
        kind: ParamKind::Type,
        attrs: String::new(),
        name: copy_text(name),
        bounds: join_pieces(&pieces),
        default: String::new(),
    }
}

/// The generic parameters of the callable type, with the implementer under
/// the given name: the implementer, then the parameters of the interface,
/// then those of the operation.
pub open spec fn callable_params(
    name: Seq<char>,
    interface: InterfaceView,
    sig: SignatureView,
    borrowed: bool,
) -> Seq<GenericParamView> {
    seq![implementer(name, interface, sig, borrowed)] + interface.params.map_values(
        |p: GenericParamView| relaxed(p),
    ) + sig.generics.params.map_values(|p: GenericParamView| relaxed(p))
}

fn push_relaxed(out: &mut Vec<GenericParam>, params: &Vec<GenericParam>)
    ensures
        views(final(out)@) == views(old(out)@) + views(params@).map_values(
            |p: GenericParamView| relaxed(p),
        ),
{
    let ghost all = views(params@).map_values(|p: GenericParamView| relaxed(p));
    let mut i: usize = 0;
    while i < params.len()
        invariant
            i <= params.len(),
            all == views(params@).map_values(|p: GenericParamView| relaxed(p)),
            views(out@) =~= views(old(out)@) + all.subrange(0, i as int),
        decreases params.len() - i,
    {
        let p = relax(&params[i]);
        proof {
            lemma_views_push(out@, p);
        }
        out.push(p);
        i += 1;
    }
    assert(all.subrange(0, params@.len() as int) =~= all);
}

/// Builds the generic parameters of the callable type, with the implementer
/// under the given name.
pub fn make_callable_params(
    name: &str,
    interface: &Interface,
    sig: &Signature,
    borrowed: bool,
) -> (out: Vec<GenericParam>)
    ensures
        views(out@) == callable_params(name@, interface@, sig@, borrowed),
{
    let mut out: Vec<GenericParam> = Vec::new();
    let first = make_implementer(name, interface, sig, borrowed);
    proof {
        lemma_views_empty::<GenericParam>();
        lemma_views_push(out@, first);
    }
    out.push(first);
    assert(views(out@) =~= seq![implementer(name@, interface@, sig@, borrowed)]);
    push_relaxed(&mut out, &interface.params);
    push_relaxed(&mut out, &sig.generics.params);
    out
}

/// The type under which the callable takes a parameter of the operation:
/// the receiver as the implementer, by value or borrowed as written; any
/// other parameter under its declared type.
pub open spec fn field_type(arg: FnArgView) -> Seq<char> {
    match arg {
        FnArgView::Receiver(r) => join(
            seq![
                word_if(r.reference, "&"@),
                r.lifetime,
                word_if(r.reference && r.mutability, "mut"@),
                "This"@,
            ],
        ),
        FnArgView::Typed(t) => t.ty,
    }
}

/// The pattern under which the default body sees a parameter of the
/// operation: the receiver as `this`, any other parameter as written.
pub open spec fn field_pattern(arg: FnArgView) -> Seq<char> {
    match arg {
        FnArgView::Receiver(r) => join(
            seq![word_if(!r.reference && r.mutability, "mut"@), "this"@],
        ),
        FnArgView::Typed(t) => t.pat,
    }
}

/// What the operation hands to the callable for a parameter.
pub open spec fn forwarded(arg: FnArgView) -> Seq<char> {
    match arg {
        FnArgView::Receiver(_) => "self"@,
        FnArgView::Typed(t) => t.pat,
    }
}

/// Which text of a parameter is meant.
#[derive(Clone, Copy, PartialEq, Eq, Structural, Debug)]
pub enum Facet {
    Type,
    Pattern,
    Forwarded,
}

/// The text of a parameter that is meant.
pub open spec fn facet_text(arg: FnArgView, facet: Facet) -> Seq<char> {
    match facet {
        Facet::Type => field_type(arg),
        Facet::Pattern => field_pattern(arg),
        Facet::Forwarded => forwarded(arg),
    }
}

fn print_facet(arg: &FnArg, facet: Facet) -> (out: String)
    ensures
        out@ == facet_text(arg@, facet),
{
    match arg {
        FnArg::Receiver(r) => match facet {
            Facet::Type => {
                let reference = if r.reference {
                    String::from_str("&")
                } else {
                    String::new()
                };
                let mutability = if r.reference && r.mutability {
                    String::from_str("mut")
                } else {
                    String::new()
                };
                let pieces = vec![
                    reference,
                    r.lifetime.clone(),
                    mutability,
                    String::from_str("This"),
                ];
                proof {
                    assert(views(pieces@) =~= seq![
                        word_if(r.reference, "&"@),
                        r.lifetime@,
                        word_if(r.reference && r.mutability, "mut"@),
                        "This"@,
                    ]);
                }
                join_pieces(&pieces)
            },
            Facet::Pattern => {
                let mutability = if !r.reference && r.mutability {
                    String::from_str("mut")
                } else {
                    String::new()
                };
                let pieces = vec![mutability, String::from_str("this")];
                proof {
                    assert(views(pieces@) =~= seq![
                        word_if(!r.reference && r.mutability, "mut"@),
                        "this"@,
                    ]);
                }
                join_pieces(&pieces)
            },
            Facet::Forwarded => String::from_str("self"),
        },
        FnArg::Typed(t) => match facet {
            Facet::Type => t.ty.clone(),
            _ => t.pat.clone(),
        },
    }
}

/// One text of every parameter of an operation, as a tuple.
pub open spec fn facets(inputs: Seq<FnArgView>, facet: Facet) -> Seq<char> {
    tuple_text(inputs.map_values(|arg: FnArgView| facet_text(arg, facet)))
}

/// Prints one text of every parameter of an operation, as a tuple.
pub fn print_facets(inputs: &Vec<FnArg>, facet: Facet) -> (out: String)
    ensures
        out@ == facets(views(inputs@), facet),
{
    let ghost all = views(inputs@).map_values(|arg: FnArgView| facet_text(arg, facet));
    let mut texts: Vec<String> = Vec::new();
    let mut i: usize = 0;
    while i < inputs.len()
        invariant
            i <= inputs.len(),
            all == views(inputs@).map_values(|arg: FnArgView| facet_text(arg, facet)),
            views(texts@) =~= all.subrange(0, i as int),
        decreases inputs.len() - i,
    {
        let text = print_facet(&inputs[i], facet);
        proof {
            lemma_views_push(texts@, text);
        }
        texts.push(text);
        i += 1;
    }
    assert(all.subrange(0, inputs@.len() as int) =~= all);
    print_tuple(&texts)
}

/// The phantom markers of the callable type, one for each lifetime and for
/// each type parameter, as types or as values.
pub open spec fn markers(params: Seq<GenericParamView>, as_types: bool) -> Seq<Seq<char>>
    decreases params.len(),
{
    if params.len() == 0 {
        Seq::empty()
    } else {
        let before = markers(params.drop_last(), as_types);
        match params.last().kind {
            ParamKind::Const => before,
            ParamKind::Lifetime => before.push(
                if as_types {
                    join(
                        seq![
                            ":: core :: marker :: PhantomData < &"@,
                            params.last().name,
                            "() >"@,
                        ],
                    )
                } else {
                    ":: core :: marker :: PhantomData"@
                },
            ),
            ParamKind::Type => before.push(
                if as_types {
                    join(seq![":: core :: marker :: PhantomData <"@, params.last().name, ">"@])
                } else {
                    ":: core :: marker :: PhantomData"@
                },
            ),
        }
    }
}

/// Prints the phantom markers of the callable type, as types or as values.
pub fn print_markers(params: &Vec<GenericParam>, as_types: bool) -> (out: Vec<String>)
    ensures
        views(out@) == markers(views(params@), as_types),
{
    let mut out: Vec<String> = Vec::new();
    let mut i: usize = 0;
    proof {
        lemma_views_empty::<String>();
        assert(views(params@).subrange(0, 0) =~= Seq::<GenericParamView>::empty());
    }
    while i < params.len()
        invariant
            i <= params.len(),
            views(out@) == markers(views(params@).subrange(0, i as int), as_types),
        decreases params.len() - i,
    {
        let ghost before = views(params@).subrange(0, i as int);
        let ghost after = views(params@).subrange(0, i + 1);
        assert(after.drop_last() =~= before);
        assert(after.last() == params@[i as int]@);
        match params[i].kind {
            ParamKind::Const => {},
            ParamKind::Lifetime => {
                let text = if as_types {
                    let pieces = vec![
                        String::from_str(":: core :: marker :: PhantomData < &"),
                        params[i].name.clone(),
                        String::from_str("() >"),
                    ];
                    proof {
                        assert(views(pieces@) =~= seq![
                            ":: core :: marker :: PhantomData < &"@,
                            params@[i as int]@.name,
                            "() >"@,
                        ]);
                    }
                    join_pieces(&pieces)
                } else {
                    String::from_str(":: core :: marker :: PhantomData")
                };
                proof {
                    lemma_views_push(out@, text);
                }
                out.push(text);
            },
            ParamKind::Type => {
                let text = if as_types {
                    let pieces = vec![
                        String::from_str(":: core :: marker :: PhantomData <"),
                        params[i].name.clone(),
                        String::from_str(">"),
                    ];
                    proof {
                        assert(views(pieces@) =~= seq![
                            ":: core :: marker :: PhantomData <"@,
                            params@[i as int]@.name,
                            ">"@,
                        ]);
                    }
                    join_pieces(&pieces)
                } else {
                    String::from_str(":: core :: marker :: PhantomData")
                };
                proof {
                    lemma_views_push(out@, text);
                }
                out.push(text);
            },
        }
        i += 1;
    }
    assert(views(params@).subrange(0, params@.len() as int) =~= views(params@));
    out
}

/// A text with a further token put after it: a space stands between them,
/// unless the text is empty or ends in a punctuation character that is
/// joined to what follows.
pub open spec fn attached(out: Seq<char>, joint: bool, piece: Seq<char>) -> Seq<char> {
    if out.len() == 0 || joint {
        out + piece
    } else {
        out + seq![' '] + piece
    }
}

/// The tokens of `text`, put after `out`, with every `self` written as
/// `this`, in groups too. `joint` tells whether `out` ends in a punctuation
/// character that is joined to what follows. A text that cannot be walked is
/// put after `out` as it is.
pub open spec fn renamed_after(text: Seq<char>, out: Seq<char>, joint: bool) -> Seq<char>
    decreases text.len(),
{
    match syn_token(text) {
        None => out,
        Some((token, rest)) => if rest.len() < text.len() {
            match token {
                TokenView::Ident(name) => renamed_after(
                    rest,
                    attached(
                        out,
                        joint,
                        if name == "self"@ {
                            "this"@
                        } else {
                            name
                        },
                    ),
                    false,
                ),
                TokenView::Punct(c, joined) => renamed_after(
                    rest,
                    attached(out, joint, seq![c]),
                    joined,
                ),
                TokenView::Literal(repr) => renamed_after(rest, attached(out, joint, repr), false),
                TokenView::Group(whole, inner) => renamed_after(
                    rest,
                    attached(
                        out,
                        joint,
                        if 0 < whole.len() && inner.len() < text.len() {
                            regrouped(whole[0], renamed_after(inner, Seq::empty(), false))
                        } else {
                            whole
                        },
                    ),
                    false,
                ),
            }
        } else {
            attached(out, joint, text)
        },
    }
}

/// A group around the given content, told by the character that opens it.
pub open spec fn regrouped(open: char, content: Seq<char>) -> Seq<char> {
    if open == '{' {
        braces(content)
    } else if open == '[' {
        "["@ + content + "]"@
    } else {
        parens(content)
    }
}

/// A default body as the callable holds it: the receiver, which the body
/// calls `self`, is written `this`, the name under which the callable binds
/// it.
pub open spec fn renamed(body: Seq<char>) -> Seq<char> {
    renamed_after(body, Seq::empty(), false)
}

fn attach(out: &mut String, joint: bool, piece: &str)
    ensures
        final(out)@ == attached(old(out)@, joint, piece@),
{
    if !(out.as_str().is_empty() || joint) {
        push_char(out, ' ');
    }
    out.append(piece);
}

/// Writes the receiver of a default body as `this`.
pub fn rename_receiver(body: &str) -> (out: String)
    ensures
        out@ == renamed(body@),
    decreases body@.len(),
{
    let mut out = String::new();
    let mut joint = false;
    let mut cur = copy_text(body);
    loop
        invariant
            renamed(body@) == renamed_after(cur@, out@, joint),
            cur@.len() <= body@.len(),
        decreases cur@.len(),
    {
        match next_token(cur.as_str()) {
            None => {
                return out;
            },
            Some((token, rest)) => {
                let n = cur.as_str().unicode_len();
                if rest.as_str().unicode_len() >= n {
                    attach(&mut out, joint, cur.as_str());
                    return out;
                }
                match token {
                    Token::Ident(name) => {
                        if str_eq(name.as_str(), "self") {
                            attach(&mut out, joint, "this");
                        } else {
                            attach(&mut out, joint, name.as_str());
                        }
                        joint = false;
                    },
                    Token::Punct(c, joined) => {
                        let mut sign = String::new();
                        push_char(&mut sign, c);
                        assert(sign@ =~= seq![c]);
                        attach(&mut out, joint, sign.as_str());
                        joint = joined;
                    },
                    Token::Literal(repr) => {
                        attach(&mut out, joint, repr.as_str());
                        joint = false;
                    },
                    Token::Group(whole, inner) => {
                        if !whole.as_str().is_empty() && inner.as_str().unicode_len() < n {
                            let content = rename_receiver(inner.as_str());
                            let open = whole.as_str().get_char(0);
                            let group = if open == '{' {
                                in_braces(content.as_str())
                            } else if open == '[' {
                                String::from_str("[").concat(content.as_str()).concat("]")
                            } else {
                                in_parens(content.as_str())
                            };
                            attach(&mut out, joint, group.as_str());
                        } else {
                            attach(&mut out, joint, whole.as_str());
                        }
                        joint = false;
                    },
                }
                cur = rest;
            },
        }
    }
}

/// The declarations that repeat the associated types of the interface.
pub open spec fn associated_decls(names: Seq<Seq<char>>) -> Seq<char>
    decreases names.len(),
{
    if names.len() == 0 {
        Seq::empty()
    } else {
        spaced(associated_decls(names.drop_last()), join(seq!["type"@, names.last(), ";"@]))
    }
}

/// The definitions that forward the associated types of the interface from
/// the implementer; `source` is the implementer seen as the interface.
pub open spec fn associated_forwards(names: Seq<Seq<char>>, source: Seq<char>) -> Seq<char>
    decreases names.len(),
{
    if names.len() == 0 {
        Seq::empty()
    } else {
        spaced(
            associated_forwards(names.drop_last(), source),
            join(seq!["type"@, names.last(), "="@, source, "::"@, names.last(), ";"@]),
        )
    }
}

/// The implementer seen as the interface: `< This as Interface < .. > >`.
pub open spec fn implementer_as(interface: InterfaceView) -> Seq<char> {
    join(
        seq![
            "< This as"@,
            interface.ident,
            generics_text(interface.params, Form::Named),
            ">"@,
        ],
    )
}

fn print_associated(names: &Vec<String>, source: &str, forward: bool) -> (out: String)
    ensures
        out@ == if forward {
            associated_forwards(views(names@), source@)
        } else {
            associated_decls(views(names@))
        },
{
    let mut out = String::new();
    let mut i: usize = 0;
    assert(views(names@).subrange(0, 0) =~= Seq::<Seq<char>>::empty());
    while i < names.len()
        invariant
            i <= names.len(),
            out@ == if forward {
                associated_forwards(views(names@).subrange(0, i as int), source@)
            } else {
                associated_decls(views(names@).subrange(0, i as int))
            },
        decreases names.len() - i,
    {
        let ghost before = views(names@).subrange(0, i as int);
        let ghost after = views(names@).subrange(0, i + 1);
        assert(after.drop_last() =~= before);
        assert(after.last() == names@[i as int]@);
        let item = if forward {
            let pieces = vec![
                String::from_str("type"),
                names[i].clone(),
                String::from_str("="),
                copy_text(source),
                String::from_str("::"),
                names[i].clone(),
                String::from_str(";"),
            ];
            proof {
                assert(views(pieces@) =~= seq![
                    "type"@,
                    names@[i as int]@,
                    "="@,
                    source@,
                    "::"@,
                    names@[i as int]@,
                    ";"@,
                ]);
            }
            join_pieces(&pieces)
        } else {
            let pieces = vec![String::from_str("type"), names[i].clone(), String::from_str(";")];
            proof {
                assert(views(pieces@) =~= seq!["type"@, names@[i as int]@, ";"@]);
            }
            join_pieces(&pieces)
        };
        push_piece(&mut out, item.as_str());
        i += 1;
    }
    assert(views(names@).subrange(0, names@.len() as int) =~= views(names@));
    out
}

/// The default body of an operation with what is needed to turn it into a
/// callable type: the interface, the signature after lifetime synthesis,
/// and whether the receiver is borrowed.
pub struct DeferredDefault<'a> {
    pub interface: &'a Interface,
    pub sig: &'a Signature,
    pub block: &'a str,
    pub borrowed: bool,
}

/// The view of `DeferredDefault`: each text as its sequence of characters.
pub struct DeferredDefaultView {
    pub interface: InterfaceView,
    pub sig: SignatureView,
    pub block: Seq<char>,
    pub borrowed: bool,
}

impl<'a> View for DeferredDefault<'a> {
    type V = DeferredDefaultView;

    open spec fn view(&self) -> DeferredDefaultView {
        DeferredDefaultView {
            interface: self.interface@,
            sig: self.sig@,
            block: self.block@,
            borrowed: self.borrowed,
        }
    }
}

/// The texts that the items of a default are put together from.
pub struct Pieces {
    pub vis: String,
    pub future: String,
    pub struct_name: String,
    pub sealed_name: String,
    pub ext_name: String,
    /// The generics of the callable type, with bounds.
    pub bounded: String,
    /// The generics of the callable type, as arguments.
    pub named: String,
    /// The same arguments, with `Self` as the implementer.
    pub named_for_self: String,
    pub marker_types: String,
    pub marker_values: String,
    pub types: String,
    pub patterns: String,
    pub forwarded: String,
    pub decls: String,
    pub forwards: String,
    pub bound: String,
    pub body: String,
    /// The generics of the operation, with bounds.
    pub generics: String,
    pub where_clause: String,
}

/// The view of `Pieces`: each text as its sequence of characters.
pub struct PiecesView {
    pub vis: Seq<char>,
    pub future: Seq<char>,
    pub struct_name: Seq<char>,
    pub sealed_name: Seq<char>,
    pub ext_name: Seq<char>,
    pub bounded: Seq<char>,
    pub named: Seq<char>,
    pub named_for_self: Seq<char>,
    pub marker_types: Seq<char>,
    pub marker_values: Seq<char>,
    pub types: Seq<char>,
    pub patterns: Seq<char>,
    pub forwarded: Seq<char>,
    pub decls: Seq<char>,
    pub forwards: Seq<char>,
    pub bound: Seq<char>,
    pub body: Seq<char>,
    pub generics: Seq<char>,
    pub where_clause: Seq<char>,
}

impl View for Pieces {
    type V = PiecesView;

    open spec fn view(&self) -> PiecesView {
        PiecesView {
            vis: self.vis@,
            future: self.future@,
            struct_name: self.struct_name@,
            sealed_name: self.sealed_name@,
            ext_name: self.ext_name@,
            bounded: self.bounded@,
            named: self.named@,
            named_for_self: self.named_for_self@,
            marker_types: self.marker_types@,
            marker_values: self.marker_values@,
            types: self.types@,
            patterns: self.patterns@,
            forwarded: self.forwarded@,
            decls: self.decls@,
            forwards: self.forwards@,
            bound: self.bound@,
            body: self.body@,
            generics: self.generics@,
            where_clause: self.where_clause@,
        }
    }
}

/// The pieces of a default.
pub open spec fn pieces_of(d: DeferredDefaultView) -> PiecesView {
    let future = pascal_case(d.sig.ident);
    let params = callable_params("This"@, d.interface, d.sig, d.borrowed);
    PiecesView {
        vis: d.interface.vis,
        future,
        struct_name: struct_name(d.interface.ident, future),
        sealed_name: sealed_name(d.interface.ident, future),
        ext_name: ext_name(d.interface.ident, future),
        bounded: generics_text(params, Form::Bounded),
        named: generics_text(params, Form::Named),
        named_for_self: generics_text(
            callable_params("Self"@, d.interface, d.sig, d.borrowed),
            Form::Named,
        ),
        marker_types: parens(separated(markers(params, true), ","@)),
        marker_values: parens(separated(markers(params, false), ","@)),
        types: facets(d.sig.inputs, Facet::Type),
        patterns: facets(d.sig.inputs, Facet::Pattern),
        forwarded: facets(d.sig.inputs, Facet::Forwarded),
        decls: associated_decls(d.interface.associated),
        forwards: associated_forwards(d.interface.associated, implementer_as(d.interface)),
        bound: future_bound(lifetime_bounds(d.sig.generics.params), d.sig.output),
        body: future_body(d.sig.asyncness, renamed(d.block)),
        generics: generics_text(d.sig.generics.params, Form::Bounded),
        where_clause: where_text(d.sig.generics.predicates),
    }
}

impl<'a> DeferredDefault<'a> {
    /// Computes the pieces of the default.
    pub fn pieces(&self) -> (out: Pieces)
        ensures
            out@ == pieces_of(self@),
    {
        let future = to_pascal_case(self.sig.ident.as_str());
        let params = make_callable_params("This", self.interface, self.sig, self.borrowed);
        let for_self = make_callable_params("Self", self.interface, self.sig, self.borrowed);
        let marker_types = print_markers(&params, true);
        let marker_values = print_markers(&params, false);
        let source = {
            let pieces = vec![
                String::from_str("< This as"),
                self.interface.ident.clone(),
                print_generics(&self.interface.params, Form::Named),
                String::from_str(">"),
            ];
            proof {
                assert(views(pieces@) =~= seq![
                    "< This as"@,
                    self.interface@.ident,
                    generics_text(self.interface@.params, Form::Named),
                    ">"@,
                ]);
            }
            join_pieces(&pieces)
        };
        let bounds = collect_lifetime_bounds(&self.sig.generics.params);
        Pieces {
            vis: self.interface.vis.clone(),
            struct_name: make_name(self.interface.ident.as_str(), future.as_str(), "Default"),
            sealed_name: make_name(self.interface.ident.as_str(), future.as_str(), "_sealed"),
            ext_name: make_name(self.interface.ident.as_str(), future.as_str(), "Ext"),
            future,
            bounded: print_generics(&params, Form::Bounded),
            named: print_generics(&params, Form::Named),
            named_for_self: print_generics(&for_self, Form::Named),
            marker_types: in_parens(
                join_separated(&marker_types, ",").as_str(),
            ),
            marker_values: in_parens(
                join_separated(&marker_values, ",").as_str(),
            ),
            types: print_facets(&self.sig.inputs, Facet::Type),
            patterns: print_facets(&self.sig.inputs, Facet::Pattern),
            forwarded: print_facets(&self.sig.inputs, Facet::Forwarded),
            decls: print_associated(&self.interface.associated, "", false),
            forwards: print_associated(&self.interface.associated, source.as_str(), true),
            bound: print_future_bound(&bounds, self.sig.output.as_str()),
            body: print_future_body(
                self.sig.asyncness,
                rename_receiver(self.block).as_str(),
            ),
            generics: print_generics(&self.sig.generics.params, Form::Bounded),
            where_clause: print_where(&self.sig.generics.predicates),
        }
    }
}

/// The callable type: a struct without data, with one phantom marker for
/// each of its lifetimes and type parameters.
pub open spec fn callable_struct(p: PiecesView) -> Seq<char> {
    join(
        seq![
            "# [doc (hidden)] # [allow (non_camel_case_types)]"@,
            p.vis,
            "struct"@,
            p.struct_name,
            p.bounded,
            p.marker_types,
            ";"@,
        ],
    )
}

/// The constructor of the callable type: it takes nothing and fills every
/// marker.
pub open spec fn constructor(p: PiecesView) -> Seq<char> {
    join(
        seq![
            "# [inline] pub fn new"@,
            p.bounded,
            "() ->"@,
            p.struct_name,
            p.named,
            braces(join(seq![p.struct_name, p.marker_values])),
        ],
    )
}

/// The private module that seals the extension contract. It holds the
/// marker contract, which has no member, and the constructor of the
/// callable type.
pub open spec fn sealed_module(p: PiecesView) -> Seq<char> {
    join(
        seq![
            "# [doc (hidden)] # [allow (non_snake_case)]"@,
            "mod"@,
            p.sealed_name,
            braces(join(seq!["use super :: * ;"@, "pub trait Sealed { }"@, constructor(p)])),
        ],
    )
}

/// The extension contract: the associated types of the interface, the type
/// of the future, and the one operation that consumes the callable and its
/// arguments and returns the future.
pub open spec fn ext_contract(p: PiecesView) -> Seq<char> {
    join(
        seq![
            "# [doc (hidden)] # [allow (non_camel_case_types)]"@,
            p.vis,
            "trait"@,
            p.ext_name,
            p.bounded,
            ":"@,
            p.sealed_name,
            ":: Sealed"@,
            braces(
                join(
                    seq![
                        p.decls,
                        "type OutputFuture : :: core :: future :: Future ;"@,
                        "fn call_once"@,
                        parens(join(seq!["self , args :"@, p.types])),
                        "-> Self :: OutputFuture ;"@,
                    ],
                ),
            ),
        ],
    )
}

/// The implementation of the extension contract for the callable type: the
/// associated types come from the implementer, the future is opaque, and
/// the operation evaluates the default body with the arguments bound to the
/// patterns of the parameters as written. The receiver is bound to `this`,
/// and the body (`p.body`) holds `this` wherever it was written with `self`.
pub open spec fn ext_implementation(p: PiecesView) -> Seq<char> {
    join(
        seq![
            "impl"@,
            p.bounded,
            p.ext_name,
            p.named,
            "for"@,
            p.struct_name,
            p.named,
            braces(
                join(
                    seq![
                        p.forwards,
                        "type OutputFuture = impl"@,
                        p.bound,
                        ";"@,
                        "# [inline] fn call_once"@,
                        parens(join(seq!["self ,"@, p.patterns, ":"@, p.types])),
                        "-> Self :: OutputFuture"@,
                        p.body,
                    ],
                ),
            ),
        ],
    )
}

/// The implementation of the marker contract for the callable type.
pub open spec fn sealed_implementation(p: PiecesView) -> Seq<char> {
    join(
        seq![
            "impl"@,
            p.bounded,
            p.sealed_name,
            ":: Sealed for"@,
            p.struct_name,
            p.named,
            "{ }"@,
        ],
    )
}

/// The callable type seen as the extension contract.
pub open spec fn as_ext(p: PiecesView) -> Seq<char> {
    join(seq!["< Self as"@, p.ext_name, p.named, ">"@])
}

/// The implementation of the callable protocol for the callable type: its
/// output is the future that the extension contract names, and its
/// operation forwards to the one of the extension contract.
pub open spec fn callable_implementation(p: PiecesView) -> Seq<char> {
    join(
        seq![
            "impl"@,
            p.bounded,
            ":: fast_async_trait :: FnOnceHelper for"@,
            p.struct_name,
            p.named,
            braces(
                join(
                    seq![
                        "type Args ="@,
                        p.types,
                        ";"@,
                        "type Output ="@,
                        as_ext(p),
                        ":: OutputFuture ;"@,
                        "# [inline] fn call_once (self , args : Self :: Args) -> Self :: Output"@,
                        braces(join(seq![as_ext(p), ":: call_once (self , args)"@])),
                    ],
                ),
            ),
        ],
    )
}

/// The items that a default adds after the declaration of the interface.
pub open spec fn extracted(p: PiecesView) -> Seq<Seq<char>> {
    seq![
        callable_struct(p),
        sealed_module(p),
        ext_contract(p),
        ext_implementation(p),
        sealed_implementation(p),
        callable_implementation(p),
    ]
}

/// The callable type of the implementing type, seen as the callable
/// protocol.
pub open spec fn as_callable(p: PiecesView) -> Seq<char> {
    join(seq!["<"@, p.struct_name, p.named_for_self, "as :: fast_async_trait :: FnOnceHelper >"@])
}

/// The member type of an operation with a default: bounded like that of any
/// operation, and by default the output of the callable type of the
/// implementing type.
pub open spec fn default_future(p: PiecesView) -> Seq<char> {
    join(
        seq![
            "type"@,
            p.future,
            p.generics,
            ":"@,
            p.bound,
            "="@,
            as_callable(p),
            ":: Output"@,
            p.where_clause,
            ";"@,
        ],
    )
}

/// The body that an operation with a default keeps: it makes the callable
/// and calls it once with the parameters of the operation.
pub open spec fn default_body(p: PiecesView) -> Seq<char> {
    braces(
        join(
            seq![
                as_callable(p),
                ":: call_once"@,
                parens(join(seq![p.sealed_name, ":: new () ,"@, p.forwarded])),
            ],
        ),
    )
}

impl Pieces {
    fn print_struct(&self) -> (out: String)
        ensures
            out@ == callable_struct(self@),
    {
        let pieces = vec![
            String::from_str("# [doc (hidden)] # [allow (non_camel_case_types)]"),
            self.vis.clone(),
            String::from_str("struct"),
            self.struct_name.clone(),
            self.bounded.clone(),
            self.marker_types.clone(),
            String::from_str(";"),
        ];
        proof {
            assert(views(pieces@) =~= seq![
                "# [doc (hidden)] # [allow (non_camel_case_types)]"@,
                self@.vis,
                "struct"@,
                self@.struct_name,
                self@.bounded,
                self@.marker_types,
                ";"@,
            ]);
        }
        join_pieces(&pieces)
    }

    fn print_constructor(&self) -> (out: String)
        ensures
            out@ == constructor(self@),
    {
        let value = vec![self.struct_name.clone(), self.marker_values.clone()];
        proof {
            assert(views(value@) =~= seq![self@.struct_name, self@.marker_values]);
        }
        let pieces = vec![
            String::from_str("# [inline] pub fn new"),
            self.bounded.clone(),
            String::from_str("() ->"),
            self.struct_name.clone(),
            self.named.clone(),
            in_braces(join_pieces(&value).as_str()),
        ];
        proof {
            assert(views(pieces@) =~= seq![
                "# [inline] pub fn new"@,
                self@.bounded,
                "() ->"@,
                self@.struct_name,
                self@.named,
                braces(join(seq![self@.struct_name, self@.marker_values])),
            ]);
        }
        join_pieces(&pieces)
    }

    fn print_sealed_module(&self) -> (out: String)
        ensures
            out@ == sealed_module(self@),
    {
        let inner = vec![
            String::from_str("use super :: * ;"),
            String::from_str("pub trait Sealed { }"),
            self.print_constructor(),
        ];
        proof {
            assert(views(inner@) =~= seq![
                "use super :: * ;"@,
                "pub trait Sealed { }"@,
                constructor(self@),
            ]);
        }
        let pieces = vec![
            String::from_str("# [doc (hidden)] # [allow (non_snake_case)]"),
            String::from_str("mod"),
            self.sealed_name.clone(),
            in_braces(join_pieces(&inner).as_str()),
        ];
        proof {
            assert(views(pieces@) =~= seq![
                "# [doc (hidden)] # [allow (non_snake_case)]"@,
                "mod"@,
                self@.sealed_name,
                braces(
                    join(seq!["use super :: * ;"@, "pub trait Sealed { }"@, constructor(self@)]),
                ),
            ]);
        }
        join_pieces(&pieces)
    }

    fn print_ext_contract(&self) -> (out: String)
        ensures
            out@ == ext_contract(self@),
    {
        let args = vec![String::from_str("self , args :"), self.types.clone()];
        proof {
            assert(views(args@) =~= seq!["self , args :"@, self@.types]);
        }
        let inner = vec![
            self.decls.clone(),
            String::from_str("type OutputFuture : :: core :: future :: Future ;"),
            String::from_str("fn call_once"),
            in_parens(join_pieces(&args).as_str()),
            String::from_str("-> Self :: OutputFuture ;"),
        ];
        proof {
            assert(views(inner@) =~= seq![
                self@.decls,
                "type OutputFuture : :: core :: future :: Future ;"@,
                "fn call_once"@,
                parens(join(seq!["self , args :"@, self@.types])),
                "-> Self :: OutputFuture ;"@,
            ]);
        }
        let body = in_braces(join_pieces(&inner).as_str());
        let pieces = vec![
            String::from_str("# [doc (hidden)] # [allow (non_camel_case_types)]"),
            self.vis.clone(),
            String::from_str("trait"),
            self.ext_name.clone(),
            self.bounded.clone(),
            String::from_str(":"),
            self.sealed_name.clone(),
            String::from_str(":: Sealed"),
            body,
        ];
        proof {
            assert(views(pieces@) =~= seq![
                "# [doc (hidden)] # [allow (non_camel_case_types)]"@,
                self@.vis,
                "trait"@,
                self@.ext_name,
                self@.bounded,
                ":"@,
                self@.sealed_name,
                ":: Sealed"@,
                body@,
            ]);
        }
        join_pieces(&pieces)
    }

    fn print_ext_implementation(&self) -> (out: String)
        ensures
            out@ == ext_implementation(self@),
    {
        let args = vec![
            String::from_str("self ,"),
            self.patterns.clone(),
            String::from_str(":"),
            self.types.clone(),
        ];
        proof {
            assert(views(args@) =~= seq!["self ,"@, self@.patterns, ":"@, self@.types]);
        }
        let inner = vec![
            self.forwards.clone(),
            String::from_str("type OutputFuture = impl"),
            self.bound.clone(),
            String::from_str(";"),
            String::from_str("# [inline] fn call_once"),
            in_parens(join_pieces(&args).as_str()),
            String::from_str("-> Self :: OutputFuture"),
            self.body.clone(),
        ];
        proof {
            assert(views(inner@) =~= seq![
                self@.forwards,
                "type OutputFuture = impl"@,
                self@.bound,
                ";"@,
                "# [inline] fn call_once"@,
                parens(join(seq!["self ,"@, self@.patterns, ":"@, self@.types])),
                "-> Self :: OutputFuture"@,
                self@.body,
            ]);
        }
        let body = in_braces(join_pieces(&inner).as_str());
        let pieces = vec![
            String::from_str("impl"),
            self.bounded.clone(),
            self.ext_name.clone(),
            self.named.clone(),
            String::from_str("for"),
            self.struct_name.clone(),
            self.named.clone(),
            body,
        ];
        proof {
            assert(views(pieces@) =~= seq![
                "impl"@,
                self@.bounded,
                self@.ext_name,
                self@.named,
                "for"@,
                self@.struct_name,
                self@.named,
                body@,
            ]);
        }
        join_pieces(&pieces)
    }

    fn print_sealed_implementation(&self) -> (out: String)
        ensures
            out@ == sealed_implementation(self@),
    {
        let pieces = vec![
            String::from_str("impl"),
            self.bounded.clone(),
            self.sealed_name.clone(),
            String::from_str(":: Sealed for"),
            self.struct_name.clone(),
            self.named.clone(),
            String::from_str("{ }"),
        ];
        proof {
            assert(views(pieces@) =~= seq![
                "impl"@,
                self@.bounded,
                self@.sealed_name,
                ":: Sealed for"@,
                self@.struct_name,
                self@.named,
                "{ }"@,
            ]);
        }
        join_pieces(&pieces)
    }

    fn print_as_ext(&self) -> (out: String)
        ensures
            out@ == as_ext(self@),
    {
        let pieces = vec![
            String::from_str("< Self as"),
            self.ext_name.clone(),
            self.named.clone(),
            String::from_str(">"),
        ];
        proof {
            assert(views(pieces@) =~= seq!["< Self as"@, self@.ext_name, self@.named, ">"@]);
        }
        join_pieces(&pieces)
    }

    fn print_callable_implementation(&self) -> (out: String)
        ensures
            out@ == callable_implementation(self@),
    {
        let call = vec![self.print_as_ext(), String::from_str(":: call_once (self , args)")];
        proof {
            assert(views(call@) =~= seq![as_ext(self@), ":: call_once (self , args)"@]);
        }
        let inner = vec![
            String::from_str("type Args ="),
            self.types.clone(),
            String::from_str(";"),
            String::from_str("type Output ="),
            self.print_as_ext(),
            String::from_str(":: OutputFuture ;"),
            String::from_str(
                "# [inline] fn call_once (self , args : Self :: Args) -> Self :: Output",
            ),
            in_braces(join_pieces(&call).as_str()),
        ];
        proof {
            assert(views(inner@) =~= seq![
                "type Args ="@,
                self@.types,
                ";"@,
                "type Output ="@,
                as_ext(self@),
                ":: OutputFuture ;"@,
                "# [inline] fn call_once (self , args : Self :: Args) -> Self :: Output"@,
                braces(join(seq![as_ext(self@), ":: call_once (self , args)"@])),
            ]);
        }
        let body = in_braces(join_pieces(&inner).as_str());
        let pieces = vec![
            String::from_str("impl"),
            self.bounded.clone(),
            String::from_str(":: fast_async_trait :: FnOnceHelper for"),
            self.struct_name.clone(),
            self.named.clone(),
            body,
        ];
        proof {
            assert(views(pieces@) =~= seq![
                "impl"@,
                self@.bounded,
                ":: fast_async_trait :: FnOnceHelper for"@,
                self@.struct_name,
                self@.named,
                body@,
            ]);
        }
        join_pieces(&pieces)
    }

    /// Prints the items that go after the declaration of the interface.
    pub fn print_extracted(&self) -> (out: Vec<String>)
        ensures
            views(out@) == extracted(self@),
    {
        let out = vec![
            self.print_struct(),
            self.print_sealed_module(),
            self.print_ext_contract(),
            self.print_ext_implementation(),
            self.print_sealed_implementation(),
            self.print_callable_implementation(),
        ];
        assert(views(out@) =~= extracted(self@));
        out
    }

    fn print_as_callable(&self) -> (out: String)
        ensures
            out@ == as_callable(self@),
    {
        let pieces = vec![
            String::from_str("<"),
            self.struct_name.clone(),
            self.named_for_self.clone(),
            String::from_str("as :: fast_async_trait :: FnOnceHelper >"),
        ];
        proof {
            assert(views(pieces@) =~= seq![
                "<"@,
                self@.struct_name,
                self@.named_for_self,
                "as :: fast_async_trait :: FnOnceHelper >"@,
            ]);
        }
        join_pieces(&pieces)
    }

    /// Prints the member type of the operation.
    pub fn print_default_future(&self) -> (out: String)
        ensures
            out@ == default_future(self@),
    {
        let pieces = vec![
            String::from_str("type"),
            self.future.clone(),
            self.generics.clone(),
            String::from_str(":"),
            self.bound.clone(),
            String::from_str("="),
            self.print_as_callable(),
            String::from_str(":: Output"),
            self.where_clause.clone(),
            String::from_str(";"),
        ];
        proof {
            assert(views(pieces@) =~= seq![
                "type"@,
                self@.future,
                self@.generics,
                ":"@,
                self@.bound,
                "="@,
                as_callable(self@),
                ":: Output"@,
                self@.where_clause,
                ";"@,
            ]);
        }
        join_pieces(&pieces)
    }

    /// Prints the body that the operation keeps.
    pub fn print_default_body(&self) -> (out: String)
        ensures
            out@ == default_body(self@),
    {
        let args = vec![
            self.sealed_name.clone(),
            String::from_str(":: new () ,"),
            self.forwarded.clone(),
        ];
        proof {
            assert(views(args@) =~= seq![self@.sealed_name, ":: new () ,"@, self@.forwarded]);
        }
        let pieces = vec![
            self.print_as_callable(),
            String::from_str(":: call_once"),
            in_parens(join_pieces(&args).as_str()),
        ];
        proof {
            assert(views(pieces@) =~= seq![
                as_callable(self@),
                ":: call_once"@,
                parens(join(seq![self@.sealed_name, ":: new () ,"@, self@.forwarded])),
            ]);
        }
        in_braces(join_pieces(&pieces).as_str())
    }
}

} // verus!
