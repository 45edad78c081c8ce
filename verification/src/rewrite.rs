//! Rewriting one asynchronous operation: its future becomes a member type,
//! and its signature returns that type.

use vstd::prelude::*;
use vstd::string::*;
use crate::lifetimes::{
    find_second_lifetime, future_generics, lemma_second_lifetime, lifetime_bounds, main_lifetime,
    option_text_view, second_lifetime, synthesized_generics, synthesized_inputs,
};
use crate::naming::{pascal_case, to_pascal_case};
use crate::print::{
    braces, generics_text, in_braces, inputs_text, join_separated, print_generics, print_inputs,
    print_where, separated, text_or_empty, where_text, word_if, Form,
};
use crate::syntax::{copy_args, copy_params, copy_texts, views, Generics, Signature, SignatureView};
use crate::text::{copy_text, join, join_pieces, push_piece, spaced};

verus! {

/// Why an operation is not rewritten.
#[derive(Clone, PartialEq, Eq, Debug)]
pub enum RewriteError {
    /// The generics of the operation hold a second lifetime, at `index`
    /// among its parameters once the lifetime of the receiver is declared.
    MultipleLifetimes { operation: String, lifetime: String, index: usize },
}

/// The view of `RewriteError`: each text as its sequence of characters.
pub enum RewriteErrorView {
    MultipleLifetimes { operation: Seq<char>, lifetime: Seq<char>, index: int },
}

impl View for RewriteError {
    type V = RewriteErrorView;

    open spec fn view(&self) -> RewriteErrorView {
        match self {
            RewriteError::MultipleLifetimes {
                operation,
                lifetime,
                index,
            } => RewriteErrorView::MultipleLifetimes {
                operation: operation@,
                lifetime: lifetime@,
                index: *index as int,
            },
        }
    }
}

impl RewriteError {
    /// The diagnostic for this error.
    pub fn message(&self) -> (out: String)
        ensures
            out@ == "Currently only one lifetime per future is supported"@,
    {
        String::from_str("Currently only one lifetime per future is supported")
    }
}

/// What one member of an interface or of an implementation becomes.
#[derive(Clone, PartialEq, Eq, Debug)]
pub struct Rewritten {
    /// The member type that stands for the future of the operation; `None`
    /// for a member that is left as it is.
    pub future: Option<String>,
    /// The member itself.
    pub operation: String,
    /// Items that go after the declaration, at the top level.
    pub extra: Vec<String>,
}

/// The view of `Rewritten`: each text as its sequence of characters.
pub struct RewrittenView {
    pub future: Option<Seq<char>>,
    pub operation: Seq<char>,
    pub extra: Seq<Seq<char>>,
}

impl View for Rewritten {
    type V = RewrittenView;

    open spec fn view(&self) -> RewrittenView {
        RewrittenView {
            future: option_text_view(self.future),
            operation: self.operation@,
            extra: views(self.extra@),
        }
    }
}

/// The outcome of a rewriting seen through views.
pub open spec fn rewritten_view(r: Result<Rewritten, RewriteError>) -> Result<
    RewrittenView,
    RewriteErrorView,
> {
    match r {
        Ok(rewritten) => Ok(rewritten@),
        Err(e) => Err(e@),
    }
}

/// A signature after lifetime synthesis.
pub open spec fn synthesized_signature(sig: SignatureView) -> SignatureView {
    SignatureView {
        constness: sig.constness,
        asyncness: sig.asyncness,
        unsafety: sig.unsafety,
        abi: sig.abi,
        ident: sig.ident,
        generics: synthesized_generics(sig.inputs, sig.generics),
        inputs: synthesized_inputs(sig.inputs),
        variadic: sig.variadic,
        output: sig.output,
    }
}

/// Runs lifetime synthesis on a copy of a signature. Returns the copy, the
/// lifetimes that bound the future, and the lifetime of the receiver.
pub fn synthesize(sig: &Signature) -> (r: (Signature, Vec<String>, Option<String>))
    ensures
        r.0@ == synthesized_signature(sig@),
        views(r.1@) == lifetime_bounds(r.0@.generics.params),
        option_text_view(r.2) == main_lifetime(sig@.inputs),
{
    let mut inputs = copy_args(&sig.inputs);
    let mut generics = Generics {
        params: copy_params(&sig.generics.params),
        predicates: copy_texts(&sig.generics.predicates),
    };
    let (bounds, main) = future_generics(&mut inputs, &mut generics);
    let synthesized = Signature {
        constness: sig.constness,
        asyncness: sig.asyncness,
        unsafety: sig.unsafety,
        abi: sig.abi.clone(),
        ident: sig.ident.clone(),
        generics,
        inputs,
        variadic: sig.variadic.clone(),
        output: sig.output.clone(),
    };
    (synthesized, bounds, main)
}

/// The error for the second lifetime of a synthesized signature, where it
/// has one.
pub open spec fn lifetime_error(sig: SignatureView) -> Option<RewriteErrorView> {
    match second_lifetime(sig.generics.params) {
        Some(i) => Some(
            RewriteErrorView::MultipleLifetimes {
                operation: sig.ident,
                lifetime: sig.generics.params[i].name,
                index: i,
            },
        ),
        None => None,
    }
}

/// Refuses a synthesized signature whose generics hold a second lifetime.
pub fn check_lifetimes(sig: &Signature) -> (r: Option<RewriteError>)
    ensures
        match r {
            Some(e) => lifetime_error(sig@) == Some(e@),
            None => lifetime_error(sig@) is None,
        },
{
    match find_second_lifetime(&sig.generics.params) {
        Some(index) => {
            proof {
                lemma_second_lifetime(sig@.generics.params);
            }
            Some(
                RewriteError::MultipleLifetimes {
                    operation: sig.ident.clone(),
                    lifetime: sig.generics.params[index].name.clone(),
                    index,
                },
            )
        },
        None => None,
    }
}

/// The type that an operation resolves to: the written return type, or the
/// unit type.
pub open spec fn output_type(output: Seq<char>) -> Seq<char> {
    if output.len() == 0 {
        "()"@
    } else {
        output
    }
}

/// The bound of a future: the lifetimes it may live for, and the type it
/// resolves to.
pub open spec fn future_bound(bounds: Seq<Seq<char>>, output: Seq<char>) -> Seq<char> {
    join(
        seq![
            separated(bounds, "+"@),
            word_if(bounds.len() > 0, "+"@),
            ":: core :: future :: Future < Output ="@,
            output_type(output),
            ">"@,
        ],
    )
}

/// Prints the bound of a future.
pub fn print_future_bound(bounds: &Vec<String>, output: &str) -> (out: String)
    ensures
        out@ == future_bound(views(bounds@), output@),
{
    let lifetimes = join_separated(bounds, "+");
    let plus = if bounds.len() > 0 {
        String::from_str("+")
    } else {
        String::new()
    };
    let resolved = if output.is_empty() {
        String::from_str("()")
    } else {
        copy_text(output)
    };
    let pieces = vec![
        lifetimes,
        plus,
        String::from_str(":: core :: future :: Future < Output ="),
        resolved,
        String::from_str(">"),
    ];
    proof {
        assert(views(pieces@) =~= seq![
            separated(views(bounds@), "+"@),
            word_if(bounds@.len() > 0, "+"@),
            ":: core :: future :: Future < Output ="@,
            output_type(output@),
            ">"@,
        ]);
    }
    join_pieces(&pieces)
}

/// The member type of an operation as seen from the implementing type:
/// `Self :: Name` with the generic arguments of the operation.
pub open spec fn self_future(sig: SignatureView) -> Seq<char> {
    join(
        seq![
            "Self ::"@,
            pascal_case(sig.ident),
            generics_text(sig.generics.params, Form::Named),
        ],
    )
}

/// Prints the member type of an operation as seen from the implementing type.
pub fn print_self_future(sig: &Signature) -> (out: String)
    ensures
        out@ == self_future(sig@),
{
    let pieces = vec![
        String::from_str("Self ::"),
        to_pascal_case(sig.ident.as_str()),
        print_generics(&sig.generics.params, Form::Named),
    ];
    proof {
        assert(views(pieces@) =~= seq![
            "Self ::"@,
            pascal_case(sig@.ident),
            generics_text(sig@.generics.params, Form::Named),
        ]);
    }
    join_pieces(&pieces)
}

/// A signature that is no longer asynchronous and returns `return_type`:
/// what stands before it, its qualifiers but `async`, its name, generics
/// without defaults, parameters and where-clause, and what ends it.
pub open spec fn rewritten_signature(
    front: Seq<char>,
    sig: SignatureView,
    return_type: Seq<char>,
    tail: Seq<char>,
) -> Seq<char> {
    join(
        seq![
            front,
            word_if(sig.constness, "const"@),
            word_if(sig.unsafety, "unsafe"@),
            sig.abi,
            "fn"@,
            sig.ident,
            generics_text(sig.generics.params, Form::Bounded),
            inputs_text(sig.inputs, sig.variadic),
            "->"@,
            return_type,
            where_text(sig.generics.predicates),
            tail,
        ],
    )
}

/// Prints a signature that is no longer asynchronous and returns `return_type`.
pub fn print_rewritten_signature(
    front: &str,
    sig: &Signature,
    return_type: &str,
    tail: &str,
) -> (out: String)
    ensures
        out@ == rewritten_signature(front@, sig@, return_type@, tail@),
{
    let constness = if sig.constness {
        String::from_str("const")
    } else {
        String::new()
    };
    let unsafety = if sig.unsafety {
        String::from_str("unsafe")
    } else {
        String::new()
    };
    let pieces = vec![
        copy_text(front),
        constness,
        unsafety,
        sig.abi.clone(),
        String::from_str("fn"),
        sig.ident.clone(),
        print_generics(&sig.generics.params, Form::Bounded),
        print_inputs(&sig.inputs, sig.variadic.as_str()),
        String::from_str("->"),
        copy_text(return_type),
        print_where(&sig.generics.predicates),
        copy_text(tail),
    ];
    proof {
        assert(views(pieces@) =~= seq![
            front@,
            word_if(sig.constness, "const"@),
            word_if(sig.unsafety, "unsafe"@),
            sig@.abi,
            "fn"@,
            sig@.ident,
            generics_text(sig@.generics.params, Form::Bounded),
            inputs_text(sig@.inputs, sig@.variadic),
            "->"@,
            return_type@,
            where_text(sig@.generics.predicates),
            tail@,
        ]);
    }
    join_pieces(&pieces)
}

/// The body that produces the future of an operation: the block as written,
/// evaluated asynchronously and owning what it captures.
pub open spec fn future_body(asyncness: bool, block: Seq<char>) -> Seq<char> {
    braces(join(seq!["return"@, word_if(asyncness, "async"@), "move"@, block]))
}

/// Prints the body that produces the future of an operation.
pub fn print_future_body(asyncness: bool, block: &str) -> (out: String)
    ensures
        out@ == future_body(asyncness, block@),
{
    let word = if asyncness {
        String::from_str("async")
    } else {
        String::new()
    };
    let pieces = vec![String::from_str("return"), word, String::from_str("move"), copy_text(block)];
    proof {
        assert(views(pieces@) =~= seq!["return"@, word_if(asyncness, "async"@), "move"@, block@]);
    }
    let inner = join_pieces(&pieces);
    in_braces(inner.as_str())
}

/// The members of a body and the items after the declaration that a list
/// of rewritten members gives: each member type before its operation, in
/// the order of the members. The first error ends the rewriting.
pub open spec fn rewritten_all(results: Seq<Result<RewrittenView, RewriteErrorView>>) -> Result<
    (Seq<char>, Seq<Seq<char>>),
    RewriteErrorView,
>
    decreases results.len(),
{
    if results.len() == 0 {
        Ok((Seq::empty(), Seq::empty()))
    } else {
        match rewritten_all(results.drop_last()) {
            Err(e) => Err(e),
            Ok((body, extra)) => match results.last() {
                Err(e) => Err(e),
                Ok(r) => Ok(
                    (spaced(spaced(body, text_or_empty(r.future)), r.operation), extra + r.extra),
                ),
            },
        }
    }
}

/// An error among the first `n` members is the error of the whole list.
pub proof fn lemma_rewritten_all_error(
    results: Seq<Result<RewrittenView, RewriteErrorView>>,
    n: int,
)
    requires
        0 <= n <= results.len(),
        rewritten_all(results.subrange(0, n)) is Err,
    ensures
        rewritten_all(results) == rewritten_all(results.subrange(0, n)),
    decreases results.len() - n,
{
    if n < results.len() {
        assert(results.subrange(0, n + 1).drop_last() =~= results.subrange(0, n));
        lemma_rewritten_all_error(results, n + 1);
    } else {
        assert(results.subrange(0, n) =~= results);
    }
}

/// Adds a rewritten member to the body and to the items after the
/// declaration.
pub fn accumulate(body: &mut String, extra: &mut Vec<String>, r: Rewritten)
    ensures
        final(body)@ == spaced(spaced(old(body)@, text_or_empty(r@.future)), r@.operation),
        views(final(extra)@) == views(old(extra)@) + r@.extra,
{
    match &r.future {
        Some(future) => {
            push_piece(body, future.as_str());
        },
        None => {
            assert(spaced(body@, Seq::empty()) =~= body@);
        },
    }
    push_piece(body, r.operation.as_str());
    let mut more = r.extra;
    let ghost first = extra@;
    let ghost second = more@;
    extra.append(&mut more);
    assert(views(extra@) =~= views(first) + views(second));
}

} // verus!
