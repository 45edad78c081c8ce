//! The syntax that the rewriting reads: attributes, generics, parameters
//! and signatures, each held as the texts of its parts.
//!
//! A list that the syntax-tree library holds with its separators
//! (`Punctuated`) is held as a `Vec` of the texts of its items. The
//! separators are printed anew, so a separator after the last item is not
//! kept.

use vstd::prelude::*;

verus! {

/// The views of the elements of a sequence, in order.
pub open spec fn views<T: View>(s: Seq<T>) -> Seq<T::V> {
    s.map_values(|t: T| t@)
}

/// Pushing an element onto a sequence pushes its view onto the views.
pub proof fn lemma_views_push<T: View>(s: Seq<T>, t: T)
    ensures
        views(s.push(t)) == views(s).push(t@),
{
    assert(views(s.push(t)) =~= views(s).push(t@));
}

/// The empty sequence has no views.
pub proof fn lemma_views_empty<T: View>()
    ensures
        views(Seq::<T>::empty()) == Seq::<T::V>::empty(),
{
    assert(views(Seq::<T>::empty()) =~= Seq::<T::V>::empty());
}

/// An attribute as written, with its style.
///
/// Every text in this module is source text whose tokens are separated by
/// single spaces; an optional piece that is absent is the empty text.
#[derive(Clone, PartialEq, Eq, Debug)]
pub struct Attribute {
    /// Whether the attribute is an inner one (`#![..]`).
    pub inner: bool,
    /// The whole attribute, `#` and brackets included.
    pub text: String,
}

/// The view of `Attribute`: each text as its sequence of characters.
pub struct AttributeView {
    pub inner: bool,
    pub text: Seq<char>,
}

impl View for Attribute {
    type V = AttributeView;

    open spec fn view(&self) -> AttributeView {
        AttributeView { inner: self.inner, text: self.text@ }
    }
}

/// What a generic parameter stands for.
#[derive(Clone, Copy, PartialEq, Eq, Structural, Debug)]
pub enum ParamKind {
    Lifetime,
    Type,
    Const,
}

/// One parameter of a generics list.
#[derive(Clone, PartialEq, Eq, Debug)]
pub struct GenericParam {
    pub kind: ParamKind,
    /// The outer attributes on the parameter.
    pub attrs: String,
    /// The lifetime (with its quote) or the identifier.
    pub name: String,
    /// The bounds after the colon; for a const parameter, its type.
    pub bounds: String,
    /// The default after `=`.
    pub default: String,
}

/// The view of `GenericParam`: each text as its sequence of characters.
pub struct GenericParamView {
    pub kind: ParamKind,
    pub attrs: Seq<char>,
    pub name: Seq<char>,
    pub bounds: Seq<char>,
    pub default: Seq<char>,
}

impl View for GenericParam {
    type V = GenericParamView;

    open spec fn view(&self) -> GenericParamView {
        GenericParamView {
            kind: self.kind,
            attrs: self.attrs@,
            name: self.name@,
            bounds: self.bounds@,
            default: self.default@,
        }
    }
}

/// A generics list together with the predicates of its where-clause.
#[derive(Clone, PartialEq, Eq, Debug)]
pub struct Generics {
    pub params: Vec<GenericParam>,
    pub predicates: Vec<String>,
}

/// The view of `Generics`: each text as its sequence of characters.
pub struct GenericsView {
    pub params: Seq<GenericParamView>,
    pub predicates: Seq<Seq<char>>,
}

impl View for Generics {
    type V = GenericsView;

    open spec fn view(&self) -> GenericsView {
        GenericsView { params: views(self.params@), predicates: views(self.predicates@) }
    }
}

/// The `self` parameter of an operation.
#[derive(Clone, PartialEq, Eq, Debug)]
pub struct Receiver {
    pub attrs: String,
    /// Whether `self` is borrowed.
    pub reference: bool,
    /// The lifetime of the borrow, where one is written.
    pub lifetime: String,
    pub mutability: bool,
}

/// The view of `Receiver`: each text as its sequence of characters.
pub struct ReceiverView {
    pub attrs: Seq<char>,
    pub reference: bool,
    pub lifetime: Seq<char>,
    pub mutability: bool,
}

impl View for Receiver {
    type V = ReceiverView;

    open spec fn view(&self) -> ReceiverView {
        ReceiverView {
            attrs: self.attrs@,
            reference: self.reference,
            lifetime: self.lifetime@,
            mutability: self.mutability,
        }
    }
}

/// A parameter written as a pattern and a type.
#[derive(Clone, PartialEq, Eq, Debug)]
pub struct PatType {
    pub attrs: String,
    pub pat: String,
    pub ty: String,
}

/// The view of `PatType`: each text as its sequence of characters.
pub struct PatTypeView {
    pub attrs: Seq<char>,
    pub pat: Seq<char>,
    pub ty: Seq<char>,
}

impl View for PatType {
    type V = PatTypeView;

    open spec fn view(&self) -> PatTypeView {
        PatTypeView { attrs: self.attrs@, pat: self.pat@, ty: self.ty@ }
    }
}

/// One parameter of an operation.
#[derive(Clone, PartialEq, Eq, Debug)]
pub enum FnArg {
    Receiver(Receiver),
    Typed(PatType),
}

/// The view of `FnArg`: each text as its sequence of characters.
pub enum FnArgView {
    Receiver(ReceiverView),
    Typed(PatTypeView),
}

impl View for FnArg {
    type V = FnArgView;

    open spec fn view(&self) -> FnArgView {
        match self {
            FnArg::Receiver(r) => FnArgView::Receiver(r@),
            FnArg::Typed(t) => FnArgView::Typed(t@),
        }
    }
}

/// The signature of an operation.
#[derive(Clone, PartialEq, Eq, Debug)]
pub struct Signature {
    pub constness: bool,
    pub asyncness: bool,
    pub unsafety: bool,
    /// The calling convention, `extern` included.
    pub abi: String,
    pub ident: String,
    pub generics: Generics,
    pub inputs: Vec<FnArg>,
    pub variadic: String,
    /// The return type; empty where none is written.
    pub output: String,
}

/// The view of `Signature`: each text as its sequence of characters.
pub struct SignatureView {
    pub constness: bool,
    pub asyncness: bool,
    pub unsafety: bool,
    pub abi: Seq<char>,
    pub ident: Seq<char>,
    pub generics: GenericsView,
    pub inputs: Seq<FnArgView>,
    pub variadic: Seq<char>,
    pub output: Seq<char>,
}

impl View for Signature {
    type V = SignatureView;

    open spec fn view(&self) -> SignatureView {
        SignatureView {
            constness: self.constness,
            asyncness: self.asyncness,
            unsafety: self.unsafety,
            abi: self.abi@,
            ident: self.ident@,
            generics: self.generics@,
            inputs: views(self.inputs@),
            variadic: self.variadic@,
            output: self.output@,
        }
    }
}

/// The attributes that a list of texts holds, all of one style.
pub open spec fn attributes(texts: Seq<Seq<char>>, inner: bool) -> Seq<AttributeView> {
    texts.map_values(|text: Seq<char>| AttributeView { inner, text })
}

/// Turns attribute texts into attributes of one style.
pub fn make_attributes(texts: &Vec<String>, inner: bool) -> (out: Vec<Attribute>)
    ensures
        views(out@) == attributes(views(texts@), inner),
{
    let mut out: Vec<Attribute> = Vec::new();
    let mut i: usize = 0;
    while i < texts.len()
        invariant
            i <= texts.len(),
            views(out@) =~= attributes(views(texts@), inner).subrange(0, i as int),
        decreases texts.len() - i,
    {
        let a = Attribute { inner, text: texts[i].clone() };
        proof {
            lemma_views_push(out@, a);
        }
        out.push(a);
        i += 1;
    }
    assert(attributes(views(texts@), inner).subrange(0, texts@.len() as int) =~= attributes(
        views(texts@),
        inner,
    ));
    out
}

/// Appends the attributes of `more` to `attrs`.
pub fn append_attributes(attrs: &mut Vec<Attribute>, more: Vec<Attribute>)
    ensures
        views(final(attrs)@) == views(old(attrs)@) + views(more@),
{
    let mut more = more;
    let ghost first = attrs@;
    let ghost second = more@;
    attrs.append(&mut more);
    assert(views(attrs@) =~= views(first) + views(second));
}

/// A copy of a list of texts.
pub fn copy_texts(texts: &Vec<String>) -> (out: Vec<String>)
    ensures
        views(out@) == views(texts@),
{
    let mut out: Vec<String> = Vec::new();
    let mut i: usize = 0;
    while i < texts.len()
        invariant
            i <= texts.len(),
            views(out@) =~= views(texts@).subrange(0, i as int),
        decreases texts.len() - i,
    {
        let text = texts[i].clone();
        proof {
            lemma_views_push(out@, text);
        }
        out.push(text);
        i += 1;
    }
    assert(views(texts@).subrange(0, texts@.len() as int) =~= views(texts@));
    out
}

/// A copy of a generic parameter.
pub fn copy_param(p: &GenericParam) -> (out: GenericParam)
    ensures
        out@ == p@,
{
    GenericParam {
        kind: p.kind,
        attrs: p.attrs.clone(),
        name: p.name.clone(),
        bounds: p.bounds.clone(),
        default: p.default.clone(),
    }
}

/// A copy of a list of generic parameters.
pub fn copy_params(params: &Vec<GenericParam>) -> (out: Vec<GenericParam>)
    ensures
        views(out@) == views(params@),
{
    let mut out: Vec<GenericParam> = Vec::new();
    let mut i: usize = 0;
    while i < params.len()
        invariant
            i <= params.len(),
            views(out@) =~= views(params@).subrange(0, i as int),
        decreases params.len() - i,
    {
        let p = copy_param(&params[i]);
        proof {
            lemma_views_push(out@, p);
        }
        out.push(p);
        i += 1;
    }
    assert(views(params@).subrange(0, params@.len() as int) =~= views(params@));
    out
}

/// A copy of a parameter of an operation.
pub fn copy_arg(arg: &FnArg) -> (out: FnArg)
    ensures
        out@ == arg@,
{
    match arg {
        FnArg::Receiver(r) => FnArg::Receiver(
            Receiver {
                attrs: r.attrs.clone(),
                reference: r.reference,
                lifetime: r.lifetime.clone(),
                mutability: r.mutability,
            },
        ),
        FnArg::Typed(t) => FnArg::Typed(
            PatType { attrs: t.attrs.clone(), pat: t.pat.clone(), ty: t.ty.clone() },
        ),
    }
}

/// A copy of the parameters of an operation.
pub fn copy_args(inputs: &Vec<FnArg>) -> (out: Vec<FnArg>)
    ensures
        views(out@) == views(inputs@),
{
    let mut out: Vec<FnArg> = Vec::new();
    let mut i: usize = 0;
    while i < inputs.len()
        invariant
            i <= inputs.len(),
            views(out@) =~= views(inputs@).subrange(0, i as int),
        decreases inputs.len() - i,
    {
        let arg = copy_arg(&inputs[i]);
        proof {
            lemma_views_push(out@, arg);
        }
        out.push(arg);
        i += 1;
    }
    assert(views(inputs@).subrange(0, inputs@.len() as int) =~= views(inputs@));
    out
}

} // verus!
