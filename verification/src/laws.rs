//! What holds of every rewriting.

use vstd::prelude::*;
use crate::def::{item_text, AsyncTraitDefView, AsyncTraitItemMethodView, AsyncTraitItemView};
use crate::default::{
    callable_implementation, callable_struct, default_future, ext_contract, ext_implementation,
    pieces_of, sealed_implementation, sealed_module, InterfaceView,
};
use crate::define::{
    abstract_future, def_rewritten, def_text, deferred, defined, defined_all, defined_async,
    interface_of, ExpansionView,
};
use crate::imp::{
    impl_at, implemented_async, supported_impl_at, AsyncItemImplView, ImplItemMethodView,
};
use crate::lifetimes::{
    lemma_second_lifetime, lifetime_count, outlives, receiver_kind, self_lifetime,
    synthesized_generics, synthesized_inputs, synthesized_param, ReceiverKindView,
};
use crate::naming::pascal_case;
use crate::rewrite::{rewritten_all, synthesized_signature, RewriteErrorView, RewrittenView};
use crate::syntax::{FnArgView, GenericParamView, GenericsView, ParamKind};
use crate::text::spaced;
use crate::reader::{on_tokens, tokens_of};

verus! {

/// Whether a member is an asynchronous operation.
pub open spec fn is_async(item: AsyncTraitItemView) -> bool {
    item matches AsyncTraitItemView::Method(m) && m.sig.asyncness
}

/// The members of a list as written, in order.
pub open spec fn members_as_written(items: Seq<AsyncTraitItemView>) -> Seq<char>
    decreases items.len(),
{
    if items.len() == 0 {
        Seq::empty()
    } else {
        spaced(members_as_written(items.drop_last()), item_text(items.last()))
    }
}

proof fn lemma_members_pass_through(interface: InterfaceView, items: Seq<AsyncTraitItemView>)
    requires
        forall|i: int| 0 <= i < items.len() ==> !is_async(#[trigger] items[i]),
    ensures
        rewritten_all(items.map_values(|item: AsyncTraitItemView| defined(interface, item)))
            == Ok::<_, RewriteErrorView>((members_as_written(items), Seq::<Seq<char>>::empty())),
    decreases items.len(),
{
    let results = items.map_values(|item: AsyncTraitItemView| defined(interface, item));
    if items.len() > 0 {
        let shorter = items.drop_last();
        assert forall|i: int| 0 <= i < shorter.len() implies !is_async(#[trigger] shorter[i]) by {
            assert(shorter[i] == items[i]);
        }
        lemma_members_pass_through(interface, shorter);
        assert(results.drop_last() =~= shorter.map_values(
            |item: AsyncTraitItemView| defined(interface, item),
        ));
        assert(!is_async(items[items.len() - 1]));
        assert(results.last() == defined(interface, items.last()));
        assert(spaced(members_as_written(shorter), Seq::empty()) =~= members_as_written(shorter));
        assert(Seq::<Seq<char>>::empty() + Seq::<Seq<char>>::empty() =~= Seq::<
            Seq<char>,
        >::empty());
    }
}

/// A declaration without an asynchronous operation passes through: it is
/// printed with its attributes, its generics and its members as written and
/// in their order, and no item is added after it.
pub proof fn law_passthrough(def: AsyncTraitDefView)
    requires
        forall|i: int| 0 <= i < def.items.len() ==> !is_async(#[trigger] def.items[i]),
    ensures
        def_rewritten(def) == Ok::<_, RewriteErrorView>(
            ExpansionView {
                declaration: def_text(def, members_as_written(def.items)),
                extra: Seq::empty(),
            },
        ),
{
    lemma_members_pass_through(interface_of(def), def.items);
}

/// An asynchronous operation without a default gets exactly one member
/// type, abstract and named by the PascalCase form of the name of the
/// operation, and adds no item after the declaration.
pub proof fn law_future_type_arity(interface: InterfaceView, m: AsyncTraitItemMethodView)
    requires
        m.sig.asyncness,
        m.default is None,
    ensures
        defined(interface, AsyncTraitItemView::Method(m)) matches Ok(r) ==> r.future == Some(
            abstract_future(pascal_case(m.sig.ident), synthesized_signature(m.sig)),
        ) && r.extra.len() == 0,
        defined(interface, AsyncTraitItemView::Method(m)) is Ok <==> lifetime_count(
            synthesized_signature(m.sig).generics.params,
        ) <= 1,
{
    lemma_second_lifetime(synthesized_signature(m.sig).generics.params);
}

/// An asynchronous operation with a default adds exactly six items after
/// the declaration: the callable type, the module that seals it, the
/// extension contract, its implementation, the implementation of the marker
/// contract, and the implementation of the callable protocol. Its member
/// type resolves by default to the output of the callable type.
pub proof fn law_default_arity(interface: InterfaceView, m: AsyncTraitItemMethodView)
    requires
        m.sig.asyncness,
        m.default is Some,
    ensures
        defined(interface, AsyncTraitItemView::Method(m)) matches Ok(r) ==> {
            let p = pieces_of(
                deferred(interface, m, synthesized_signature(m.sig), m.default->Some_0),
            );
            &&& r.extra.len() == 6
            &&& r.extra[0] == callable_struct(p)
            &&& r.extra[1] == sealed_module(p)
            &&& r.extra[2] == ext_contract(p)
            &&& r.extra[3] == ext_implementation(p)
            &&& r.extra[4] == sealed_implementation(p)
            &&& r.extra[5] == callable_implementation(p)
            &&& r.future == Some(default_future(p))
        },
        defined(interface, AsyncTraitItemView::Method(m)) is Ok <==> lifetime_count(
            synthesized_signature(m.sig).generics.params,
        ) <= 1,
{
    lemma_second_lifetime(synthesized_signature(m.sig).generics.params);
}

/// The number of asynchronous operations with a default among the members.
pub open spec fn default_count(items: Seq<AsyncTraitItemView>) -> nat
    decreases items.len(),
{
    if items.len() == 0 {
        0
    } else if is_async(items.last()) && items.last()->Method_0.default is Some {
        default_count(items.drop_last()) + 1
    } else {
        default_count(items.drop_last())
    }
}

/// The number of items that a list of rewritten members adds.
pub open spec fn extra_total(results: Seq<Result<RewrittenView, RewriteErrorView>>) -> nat
    decreases results.len(),
{
    if results.len() == 0 {
        0
    } else {
        extra_total(results.drop_last()) + match results.last() {
            Ok(r) => r.extra.len(),
            Err(_) => 0,
        }
    }
}

proof fn lemma_extra_total(results: Seq<Result<RewrittenView, RewriteErrorView>>)
    ensures
        rewritten_all(results) matches Ok((_, extra)) ==> extra.len() == extra_total(results),
    decreases results.len(),
{
    if results.len() > 0 {
        lemma_extra_total(results.drop_last());
    }
}

proof fn lemma_item_extra(interface: InterfaceView, item: AsyncTraitItemView)
    ensures
        defined(interface, item) matches Ok(r) ==> r.extra.len() == if is_async(item)
            && item->Method_0.default is Some {
            6nat
        } else {
            0nat
        },
{
}

proof fn lemma_extra_count(interface: InterfaceView, items: Seq<AsyncTraitItemView>)
    requires
        rewritten_all(items.map_values(|item: AsyncTraitItemView| defined(interface, item))) is Ok,
    ensures
        extra_total(items.map_values(|item: AsyncTraitItemView| defined(interface, item))) == 6
            * default_count(items),
    decreases items.len(),
{
    let results = items.map_values(|item: AsyncTraitItemView| defined(interface, item));
    if items.len() > 0 {
        assert(results.drop_last() =~= items.drop_last().map_values(
            |item: AsyncTraitItemView| defined(interface, item),
        ));
        assert(results.last() == defined(interface, items.last()));
        lemma_extra_count(interface, items.drop_last());
        lemma_item_extra(interface, items.last());
    }
}

/// A rewritten declaration is followed by six items for each asynchronous
/// operation with a default, and by nothing else.
pub proof fn law_extra_items(def: AsyncTraitDefView)
    ensures
        def_rewritten(def) matches Ok(expansion) ==> expansion.extra.len() == 6 * default_count(
            def.items,
        ),
{
    if defined_all(def) is Ok {
        lemma_extra_count(interface_of(def), def.items);
        lemma_extra_total(
            def.items.map_values(|item: AsyncTraitItemView| defined(interface_of(def), item)),
        );
    }
}

proof fn lemma_count_with_front(p: GenericParamView, params: Seq<GenericParamView>)
    ensures
        lifetime_count(seq![p] + params) == lifetime_count(params) + if p.kind
            == ParamKind::Lifetime {
            1nat
        } else {
            0nat
        },
    decreases params.len(),
{
    let all = seq![p] + params;
    if params.len() == 0 {
        assert(all.drop_last() =~= Seq::<GenericParamView>::empty());
        assert(lifetime_count(all.drop_last()) == 0);
    } else {
        assert(all.drop_last() =~= seq![p] + params.drop_last());
        assert(all.last() == params.last());
        lemma_count_with_front(p, params.drop_last());
    }
}

/// Lifetime synthesis does one of three things, by the receiver alone. For
/// a receiver borrowed without a lifetime, exactly one lifetime parameter is
/// added, the synthesized one, in front of the others, and the receiver and
/// the where-clause use it. For a receiver borrowed for a written lifetime,
/// no parameter is added and the where-clause uses the written lifetime.
/// For any other first parameter, nothing changes.
pub proof fn law_lifetime_synthesis(inputs: Seq<FnArgView>, generics: GenericsView)
    ensures
        match receiver_kind(inputs) {
            ReceiverKindView::Borrowed => {
                &&& synthesized_generics(inputs, generics).params == seq![
                    synthesized_param(inputs[0]->Receiver_0.attrs),
                ] + generics.params
                &&& lifetime_count(synthesized_generics(inputs, generics).params)
                    == lifetime_count(generics.params) + 1
                &&& synthesized_generics(inputs, generics).predicates == generics.predicates.push(
                    outlives(self_lifetime()),
                )
                &&& synthesized_inputs(inputs)[0]->Receiver_0.lifetime == self_lifetime()
            },
            ReceiverKindView::BorrowedFor(lifetime) => {
                &&& synthesized_generics(inputs, generics).params == generics.params
                &&& synthesized_generics(inputs, generics).predicates == generics.predicates.push(
                    outlives(lifetime),
                )
                &&& synthesized_inputs(inputs) == inputs
            },
            ReceiverKindView::Owned => {
                &&& synthesized_generics(inputs, generics) == generics
                &&& synthesized_inputs(inputs) == inputs
            },
        },
{
    match receiver_kind(inputs) {
        ReceiverKindView::Borrowed => {
            lemma_count_with_front(synthesized_param(inputs[0]->Receiver_0.attrs), generics.params);
        },
        _ => {},
    }
}

/// An operation whose generics hold two lifetimes or more after synthesis
/// is refused, on an interface and on an implementation alike: nothing is
/// produced for it, and the error names its second lifetime, the one with
/// exactly one lifetime before it.
pub proof fn law_multiple_lifetimes(
    interface: InterfaceView,
    m: AsyncTraitItemMethodView,
    n: ImplItemMethodView,
)
    ensures
        lifetime_count(synthesized_signature(m.sig).generics.params) >= 2 <==> defined_async(
            interface,
            m,
        ) is Err,
        lifetime_count(synthesized_signature(n.sig).generics.params) >= 2 <==> implemented_async(
            n,
        ) is Err,
        defined_async(interface, m) matches Err(e) ==> names_second_lifetime(
            e,
            synthesized_signature(m.sig).generics.params,
        ),
        implemented_async(n) matches Err(e) ==> names_second_lifetime(
            e,
            synthesized_signature(n.sig).generics.params,
        ),
{
    lemma_second_lifetime(synthesized_signature(m.sig).generics.params);
    lemma_second_lifetime(synthesized_signature(n.sig).generics.params);
}

/// Whether an error points at the second lifetime of a parameter list.
pub open spec fn names_second_lifetime(e: RewriteErrorView, params: Seq<GenericParamView>) -> bool {
    match e {
        RewriteErrorView::MultipleLifetimes { operation, lifetime, index } => {
            &&& 0 <= index < params.len()
            &&& params[index].kind == ParamKind::Lifetime
            &&& params[index].name == lifetime
            &&& lifetime_count(params.subrange(0, index)) == 1
        },
    }
}

/// Where verbatim blocks are not allowed, an implementation block is
/// parsed or refused: none comes back as not applicable.
pub proof fn law_no_verbatim_block(text: Seq<char>)
    ensures
        impl_at(text, false) matches Ok((block, _)) ==> block is Some,
        supported_impl_at(text) matches Ok(_) ==> impl_at(tokens_of(text)->Ok_0, false) is Ok,
        supported_impl_at(text) matches Err(e) ==> on_tokens(
            text,
            |tokens: Seq<char>| impl_at(tokens, false),
        ) == Err::<(Option<AsyncItemImplView>, Seq<char>), _>(e),
{
}

} // verus!
