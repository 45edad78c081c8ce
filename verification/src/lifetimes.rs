//! Lifetime synthesis: the borrow of the receiver becomes a lifetime
//! parameter of the operation, and the future may live that long.

use vstd::prelude::*;
use vstd::string::*;
use crate::syntax::{
    lemma_views_empty, lemma_views_push, views, FnArg, FnArgView, GenericParam, GenericParamView,
    Generics, GenericsView, ParamKind, Receiver, ReceiverView,
};
use crate::text::{copy_text, push_piece, spaced};

verus! {

/// The lifetime that is given to a receiver borrowed without one.
pub open spec fn self_lifetime() -> Seq<char> {
    "'__self__"@
}

/// The predicate that the implementing type outlives a lifetime.
pub open spec fn outlives(lifetime: Seq<char>) -> Seq<char> {
    spaced(spaced("Self"@, ":"@), lifetime)
}

/// How the receiver of an operation is taken.
pub enum ReceiverKind {
    /// By value, or the operation has no receiver.
    Owned,
    /// By reference, with no lifetime written.
    Borrowed,
    /// By reference, with the lifetime written.
    BorrowedFor(String),
}

/// The view of `ReceiverKind`: each text as its sequence of characters.
pub enum ReceiverKindView {
    Owned,
    Borrowed,
    BorrowedFor(Seq<char>),
}

impl View for ReceiverKind {
    type V = ReceiverKindView;

    open spec fn view(&self) -> ReceiverKindView {
        match self {
            ReceiverKind::Owned => ReceiverKindView::Owned,
            ReceiverKind::Borrowed => ReceiverKindView::Borrowed,
            ReceiverKind::BorrowedFor(lifetime) => ReceiverKindView::BorrowedFor(lifetime@),
        }
    }
}

/// How the first parameter takes the receiver. Only the first parameter is
/// looked at.
pub open spec fn receiver_kind(inputs: Seq<FnArgView>) -> ReceiverKindView {
    if inputs.len() == 0 {
        ReceiverKindView::Owned
    } else {
        match inputs[0] {
            FnArgView::Receiver(r) => if !r.reference {
                ReceiverKindView::Owned
            } else if r.lifetime.len() == 0 {
                ReceiverKindView::Borrowed
            } else {
                ReceiverKindView::BorrowedFor(r.lifetime)
            },
            FnArgView::Typed(_) => ReceiverKindView::Owned,
        }
    }
}

/// Tells how the first parameter of an operation takes the receiver.
pub fn classify_receiver(inputs: &Vec<FnArg>) -> (kind: ReceiverKind)
    ensures
        kind@ == receiver_kind(views(inputs@)),
{
    if inputs.len() == 0 {
        return ReceiverKind::Owned;
    }
    match &inputs[0] {
        FnArg::Receiver(r) => {
            if !r.reference {
                ReceiverKind::Owned
            } else if r.lifetime.as_str().is_empty() {
                ReceiverKind::Borrowed
            } else {
                ReceiverKind::BorrowedFor(copy_text(r.lifetime.as_str()))
            }
        },
        FnArg::Typed(_) => ReceiverKind::Owned,
    }
}

/// The lifetime that the receiver is borrowed for once synthesis is done.
pub open spec fn main_lifetime(inputs: Seq<FnArgView>) -> Option<Seq<char>> {
    match receiver_kind(inputs) {
        ReceiverKindView::Owned => None,
        ReceiverKindView::Borrowed => Some(self_lifetime()),
        ReceiverKindView::BorrowedFor(lifetime) => Some(lifetime),
    }
}

/// The parameters after synthesis: a receiver borrowed without a lifetime
/// is borrowed for the synthesized one; nothing else changes.
pub open spec fn synthesized_inputs(inputs: Seq<FnArgView>) -> Seq<FnArgView> {
    match receiver_kind(inputs) {
        ReceiverKindView::Borrowed => inputs.update(
            0,
            FnArgView::Receiver(
                ReceiverView {
                    attrs: inputs[0]->Receiver_0.attrs,
                    reference: true,
                    lifetime: self_lifetime(),
                    mutability: inputs[0]->Receiver_0.mutability,
                },
            ),
        ),
        _ => inputs,
    }
}

/// The lifetime parameter that synthesis declares. It carries the
/// attributes of the receiver.
pub open spec fn synthesized_param(receiver_attrs: Seq<char>) -> GenericParamView {
    GenericParamView {
        kind: ParamKind::Lifetime,
        attrs: receiver_attrs,
        name: self_lifetime(),
        bounds: Seq::empty(),
        default: Seq::empty(),
    }
}

/// The generics after synthesis. For a receiver borrowed without a
/// lifetime, the synthesized lifetime is put in front of the parameters;
/// for every borrowed receiver, the where-clause gains the predicate that
/// the implementing type outlives the borrow.
pub open spec fn synthesized_generics(
    inputs: Seq<FnArgView>,
    generics: GenericsView,
) -> GenericsView {
    match receiver_kind(inputs) {
        ReceiverKindView::Owned => generics,
        ReceiverKindView::Borrowed => GenericsView {
            params: seq![synthesized_param(inputs[0]->Receiver_0.attrs)] + generics.params,
            predicates: generics.predicates.push(outlives(self_lifetime())),
        },
        ReceiverKindView::BorrowedFor(lifetime) => GenericsView {
            params: generics.params,
            predicates: generics.predicates.push(outlives(lifetime)),
        },
    }
}

/// The lifetimes of a parameter list, each with its attributes, in the
/// order written: the bounds of the future of an operation.
pub open spec fn lifetime_bounds(params: Seq<GenericParamView>) -> Seq<Seq<char>>
    decreases params.len(),
{
    if params.len() == 0 {
        Seq::empty()
    } else if params.last().kind == ParamKind::Lifetime {
        lifetime_bounds(params.drop_last()).push(spaced(params.last().attrs, params.last().name))
    } else {
        lifetime_bounds(params.drop_last())
    }
}

/// Lists the lifetimes of a parameter list, each with its attributes.
pub fn collect_lifetime_bounds(params: &Vec<GenericParam>) -> (out: Vec<String>)
    ensures
        views(out@) == lifetime_bounds(views(params@)),
{
    let mut out: Vec<String> = Vec::new();
    let mut i: usize = 0;
    proof {
        lemma_views_empty::<String>();
        assert(views(params@).subrange(0, 0) =~= Seq::<GenericParamView>::empty());
    }
    while i < params.len()
        invariant
            i <= params.len(),
            views(out@) == lifetime_bounds(views(params@).subrange(0, i as int)),
        decreases params.len() - i,
    {
        let ghost before = views(params@).subrange(0, i as int);
        let ghost after = views(params@).subrange(0, i + 1);
        assert(after.drop_last() =~= before);
        assert(after.last() == params@[i as int]@);
        match params[i].kind {
            ParamKind::Lifetime => {
                let mut text = copy_text(params[i].attrs.as_str());
                push_piece(&mut text, params[i].name.as_str());
                proof {
                    lemma_views_push(out@, text);
                }
                out.push(text);
            },
            _ => {},
        }
        i += 1;
    }
    assert(views(params@).subrange(0, params@.len() as int) =~= views(params@));
    out
}

/// An optional text seen through its view.
pub open spec fn option_text_view(r: Option<String>) -> Option<Seq<char>> {
    match r {
        Some(t) => Some(t@),
        None => None,
    }
}

/// Threads the borrow of the receiver through an operation.
///
/// Only the first parameter is looked at. A receiver borrowed without a
/// lifetime gets the synthesized one, which is declared in front of the
/// generic parameters; for every borrowed receiver the where-clause gains
/// the predicate that the implementing type outlives the borrow. Returns the
/// lifetimes of the resulting generics, which bound the future, and the
/// lifetime of the borrow.
pub fn future_generics(inputs: &mut Vec<FnArg>, fn_generics: &mut Generics) -> (r: (
    Vec<String>,
    Option<String>,
))
    ensures
        views(final(inputs)@) == synthesized_inputs(views(old(inputs)@)),
        final(fn_generics)@ == synthesized_generics(views(old(inputs)@), old(fn_generics)@),
        views(r.0@) == lifetime_bounds(final(fn_generics)@.params),
        option_text_view(r.1) == main_lifetime(views(old(inputs)@)),
{
    let ghost inputs0 = views(inputs@);
    let ghost generics0 = fn_generics@;
    let result = match classify_receiver(inputs) {
        ReceiverKind::Owned => None,
        ReceiverKind::Borrowed => {
            let first = inputs.remove(0);
            let (attrs, mutability) = match first {
                FnArg::Receiver(r) => (r.attrs, r.mutability),
                FnArg::Typed(_) => (String::new(), false),
            };
            let lifetime = String::from_str("'__self__");
            let param = GenericParam {
                kind: ParamKind::Lifetime,
                attrs: attrs.clone(),
                name: lifetime.clone(),
                bounds: String::new(),
                default: String::new(),
            };
            let updated = FnArg::Receiver(
                Receiver { attrs, reference: true, lifetime: lifetime.clone(), mutability },
            );
            inputs.insert(0, updated);
            assert(views(inputs@) =~= synthesized_inputs(inputs0));
            let mut params: Vec<GenericParam> = Vec::new();
            params.push(param);
            let ghost declared = fn_generics.params@;
            params.append(&mut fn_generics.params);
            fn_generics.params = params;
            assert(views(fn_generics.params@) =~= seq![
                synthesized_param(inputs0[0]->Receiver_0.attrs),
            ] + views(declared));
            let mut predicate = String::from_str("Self");
            push_piece(&mut predicate, ":");
            push_piece(&mut predicate, lifetime.as_str());
            proof {
                assert(spaced(Seq::empty(), "Self"@) =~= "Self"@);
                lemma_views_push(fn_generics.predicates@, predicate);
            }
            fn_generics.predicates.push(predicate);
            Some(lifetime)
        },
        ReceiverKind::BorrowedFor(lifetime) => {
            let mut predicate = String::from_str("Self");
            push_piece(&mut predicate, ":");
            push_piece(&mut predicate, lifetime.as_str());
            proof {
                lemma_views_push(fn_generics.predicates@, predicate);
            }
            fn_generics.predicates.push(predicate);
            Some(lifetime)
        },
    };
    let tokens = collect_lifetime_bounds(&fn_generics.params);
    (tokens, result)
}

/// The number of lifetimes among the parameters.
pub open spec fn lifetime_count(params: Seq<GenericParamView>) -> nat
    decreases params.len(),
{
    if params.len() == 0 {
        0
    } else if params.last().kind == ParamKind::Lifetime {
        lifetime_count(params.drop_last()) + 1
    } else {
        lifetime_count(params.drop_last())
    }
}

/// The position of the second lifetime among the parameters: the lifetime
/// with exactly one lifetime before it.
pub open spec fn second_lifetime(params: Seq<GenericParamView>) -> Option<int>
    decreases params.len(),
{
    if params.len() == 0 {
        None
    } else {
        match second_lifetime(params.drop_last()) {
            Some(i) => Some(i),
            None => if params.last().kind == ParamKind::Lifetime && lifetime_count(
                params.drop_last(),
            ) == 1 {
                Some(params.len() - 1)
            } else {
                None
            },
        }
    }
}

/// The second lifetime of a list is the second lifetime of every longer
/// list.
pub proof fn lemma_second_lifetime_stays(params: Seq<GenericParamView>, n: int)
    requires
        0 <= n <= params.len(),
        second_lifetime(params.subrange(0, n)) is Some,
    ensures
        second_lifetime(params) == second_lifetime(params.subrange(0, n)),
    decreases params.len() - n,
{
    if n < params.len() {
        assert(params.subrange(0, n + 1).drop_last() =~= params.subrange(0, n));
        lemma_second_lifetime_stays(params, n + 1);
    } else {
        assert(params.subrange(0, n) =~= params);
    }
}

/// A list has a second lifetime exactly if it has two lifetimes or more,
/// and that lifetime has one lifetime before it.
pub proof fn lemma_second_lifetime(params: Seq<GenericParamView>)
    ensures
        second_lifetime(params) is Some <==> lifetime_count(params) >= 2,
        second_lifetime(params) matches Some(i) ==> 0 <= i < params.len() && params[i].kind
            == ParamKind::Lifetime && lifetime_count(params.subrange(0, i)) == 1,
    decreases params.len(),
{
    if params.len() > 0 {
        lemma_second_lifetime(params.drop_last());
        match second_lifetime(params.drop_last()) {
            Some(i) => {
                assert(params.drop_last().subrange(0, i) =~= params.subrange(0, i));
            },
            None => {
                assert(params.subrange(0, params.len() - 1) =~= params.drop_last());
            },
        }
    }
}

/// Finds the second lifetime among the parameters.
pub fn find_second_lifetime(params: &Vec<GenericParam>) -> (r: Option<usize>)
    ensures
        match r {
            Some(i) => second_lifetime(views(params@)) == Some(i as int),
            None => second_lifetime(views(params@)) is None,
        },
{
    let mut seen: usize = 0;
    let mut i: usize = 0;
    assert(views(params@).subrange(0, 0) =~= Seq::<GenericParamView>::empty());
    while i < params.len()
        invariant
            i <= params.len(),
            seen <= i,
            seen == lifetime_count(views(params@).subrange(0, i as int)),
            second_lifetime(views(params@).subrange(0, i as int)) is None,
        decreases params.len() - i,
    {
        let ghost before = views(params@).subrange(0, i as int);
        let ghost after = views(params@).subrange(0, i + 1);
        assert(after.drop_last() =~= before);
        assert(after.last() == params@[i as int]@);
        match params[i].kind {
            ParamKind::Lifetime => {
                if seen == 1 {
                    proof {
                        lemma_second_lifetime_stays(views(params@), i + 1);
                    }
                    return Some(i);
                }
                seen += 1;
            },
            _ => {},
        }
        i += 1;
    }
    assert(views(params@).subrange(0, params@.len() as int) =~= views(params@));
    None
}

} // verus!
