//! Rewriting an interface declaration: every asynchronous operation gets a
//! member type for its future, and a default body becomes a callable type
//! after the declaration.

use vstd::prelude::*;
use vstd::string::*;
use crate::def::{
    item_text, AsyncTraitDef, AsyncTraitDefView, AsyncTraitItem, AsyncTraitItemMethod,
    AsyncTraitItemMethodView, AsyncTraitItemView,
};
use crate::default::{
    default_body, default_future, extracted, pieces_of, DeferredDefault, DeferredDefaultView,
    Interface, InterfaceView,
};
use crate::lifetimes::{lifetime_bounds, main_lifetime};
use crate::naming::{pascal_case, to_pascal_case};
use crate::print::{
    attr_texts, braces, generics_text, in_braces, join_separated, print_attrs, print_generics,
    print_where, separated, where_text, word_if, Form, Keep,
};
use crate::rewrite::{
    accumulate, check_lifetimes, future_bound, lemma_rewritten_all_error, lifetime_error,
    print_future_bound, print_rewritten_signature, print_self_future, rewritten_all,
    rewritten_signature, rewritten_view, self_future, synthesize, synthesized_signature,
    RewriteError, RewriteErrorView, Rewritten, RewrittenView,
};
use crate::syntax::{copy_params, lemma_views_empty, lemma_views_push, views, SignatureView};
use crate::text::{join, join_pieces, push_piece, spaced};

verus! {

/// The names of the associated types among the members of an interface, in
/// order.
pub open spec fn associated_names(items: Seq<AsyncTraitItemView>) -> Seq<Seq<char>>
    decreases items.len(),
{
    if items.len() == 0 {
        Seq::empty()
    } else {
        match items.last() {
            AsyncTraitItemView::Type(ty) => associated_names(items.drop_last()).push(ty.ident),
            _ => associated_names(items.drop_last()),
        }
    }
}

/// What default extraction needs to know of an interface declaration.
pub open spec fn interface_of(def: AsyncTraitDefView) -> InterfaceView {
    InterfaceView {
        vis: def.vis,
        ident: def.ident,
        params: def.generics.params,
        associated: associated_names(def.items),
    }
}

impl AsyncTraitDef {
    /// Gathers what default extraction needs to know of the declaration.
    pub fn interface(&self) -> (out: Interface)
        ensures
            out@ == interface_of(self@),
    {
        let mut associated: Vec<String> = Vec::new();
        let mut i: usize = 0;
        proof {
            lemma_views_empty::<String>();
            assert(views(self.items@).subrange(0, 0) =~= Seq::<AsyncTraitItemView>::empty());
        }
        while i < self.items.len()
            invariant
                i <= self.items.len(),
                views(associated@) == associated_names(views(self.items@).subrange(0, i as int)),
            decreases self.items.len() - i,
        {
            let ghost before = views(self.items@).subrange(0, i as int);
            let ghost after = views(self.items@).subrange(0, i + 1);
            assert(after.drop_last() =~= before);
            assert(after.last() == self.items@[i as int]@);
            match &self.items[i] {
                AsyncTraitItem::Type(ty) => {
                    let name = ty.ident.clone();
                    proof {
                        lemma_views_push(associated@, name);
                    }
                    associated.push(name);
                },
                _ => {},
            }
            i += 1;
        }
        assert(views(self.items@).subrange(0, self.items@.len() as int) =~= views(self.items@));
        Interface {
            vis: self.vis.clone(),
            ident: self.ident.clone(),
            params: copy_params(&self.generics.params),
            associated,
        }
    }
}

/// The member type that an interface declares for the future of an
/// operation without a default: abstract, bounded by the lifetimes of the
/// operation and by the type the future resolves to.
pub open spec fn abstract_future(name: Seq<char>, sig: SignatureView) -> Seq<char> {
    join(
        seq![
            "type"@,
            name,
            generics_text(sig.generics.params, Form::Bounded),
            ":"@,
            future_bound(lifetime_bounds(sig.generics.params), sig.output),
            where_text(sig.generics.predicates),
            ";"@,
        ],
    )
}

/// The default of an operation, ready for extraction; `sig` is the
/// signature after lifetime synthesis.
pub open spec fn deferred(
    interface: InterfaceView,
    m: AsyncTraitItemMethodView,
    sig: SignatureView,
    block: Seq<char>,
) -> DeferredDefaultView {
    DeferredDefaultView {
        interface,
        sig,
        block,
        borrowed: main_lifetime(m.sig.inputs) is Some,
    }
}

/// An asynchronous operation of an interface, rewritten.
///
/// The signature goes through lifetime synthesis; an operation with a
/// second lifetime is refused. The operation is no longer asynchronous and
/// returns its member type, which is named by the PascalCase form of its
/// name. Without a default, the member type is abstract and nothing is
/// added after the declaration. With a default, the member type resolves by
/// default to the output of the callable type, the body calls that type,
/// and the items of the callable type are added after the declaration.
pub open spec fn defined_async(interface: InterfaceView, m: AsyncTraitItemMethodView) -> Result<
    RewrittenView,
    RewriteErrorView,
> {
    let sig = synthesized_signature(m.sig);
    match lifetime_error(sig) {
        Some(e) => Err(e),
        None => match m.default {
            None => Ok(
                RewrittenView {
                    future: Some(abstract_future(pascal_case(sig.ident), sig)),
                    operation: rewritten_signature(
                        attr_texts(m.attrs, Keep::All),
                        sig,
                        self_future(sig),
                        word_if(m.semi_token, ";"@),
                    ),
                    extra: Seq::empty(),
                },
            ),
            Some(block) => {
                let p = pieces_of(deferred(interface, m, sig, block));
                Ok(
                    RewrittenView {
                        future: Some(default_future(p)),
                        operation: rewritten_signature(
                            attr_texts(m.attrs, Keep::All),
                            sig,
                            self_future(sig),
                            spaced(default_body(p), word_if(m.semi_token, ";"@)),
                        ),
                        extra: extracted(p),
                    },
                )
            },
        },
    }
}

/// Rewrites an asynchronous operation of an interface.
pub fn define_async_fn(interface: &Interface, method: &AsyncTraitItemMethod) -> (r: Result<
    Rewritten,
    RewriteError,
>)
    ensures
        rewritten_view(r) == defined_async(interface@, method@),
{
    let (sig, bounds, main_lt) = synthesize(&method.sig);
    match check_lifetimes(&sig) {
        Some(e) => {
            return Err(e);
        },
        None => {},
    }
    let front = print_attrs(&method.attrs, Keep::All);
    let return_type = print_self_future(&sig);
    let semi = if method.semi_token {
        String::from_str(";")
    } else {
        String::new()
    };
    match &method.default {
        None => {
            let pieces = vec![
                String::from_str("type"),
                to_pascal_case(sig.ident.as_str()),
                print_generics(&sig.generics.params, Form::Bounded),
                String::from_str(":"),
                print_future_bound(&bounds, sig.output.as_str()),
                print_where(&sig.generics.predicates),
                String::from_str(";"),
            ];
            proof {
                assert(views(pieces@) =~= seq![
                    "type"@,
                    pascal_case(sig@.ident),
                    generics_text(sig@.generics.params, Form::Bounded),
                    ":"@,
                    future_bound(lifetime_bounds(sig@.generics.params), sig@.output),
                    where_text(sig@.generics.predicates),
                    ";"@,
                ]);
                lemma_views_empty::<String>();
            }
            let operation = print_rewritten_signature(
                front.as_str(),
                &sig,
                return_type.as_str(),
                semi.as_str(),
            );
            Ok(Rewritten { future: Some(join_pieces(&pieces)), operation, extra: Vec::new() })
        },
        Some(block) => {
            let default = DeferredDefault {
                interface,
                sig: &sig,
                block: block.as_str(),
                borrowed: main_lt.is_some(),
            };
            let pieces = default.pieces();
            let mut tail = pieces.print_default_body();
            push_piece(&mut tail, semi.as_str());
            let operation = print_rewritten_signature(
                front.as_str(),
                &sig,
                return_type.as_str(),
                tail.as_str(),
            );
            Ok(
                Rewritten {
                    future: Some(pieces.print_default_future()),
                    operation,
                    extra: pieces.print_extracted(),
                },
            )
        },
    }
}

/// A member of an interface, rewritten where it is an asynchronous
/// operation and left as it is otherwise.
pub open spec fn defined(interface: InterfaceView, item: AsyncTraitItemView) -> Result<
    RewrittenView,
    RewriteErrorView,
> {
    match item {
        AsyncTraitItemView::Method(m) => if m.sig.asyncness {
            defined_async(interface, m)
        } else {
            Ok(RewrittenView { future: None, operation: item_text(item), extra: Seq::empty() })
        },
        _ => Ok(RewrittenView { future: None, operation: item_text(item), extra: Seq::empty() }),
    }
}

/// Rewrites a member of an interface.
pub fn define_fn(interface: &Interface, item: &AsyncTraitItem) -> (r: Result<
    Rewritten,
    RewriteError,
>)
    ensures
        rewritten_view(r) == defined(interface@, item@),
{
    match item {
        AsyncTraitItem::Method(method) if method.sig.asyncness => define_async_fn(
            interface,
            method,
        ),
        other => {
            let mut operation = String::new();
            other.to_tokens(&mut operation);
            proof {
                lemma_views_empty::<String>();
                assert(spaced(Seq::empty(), item_text(other@)) =~= item_text(other@));
            }
            Ok(Rewritten { future: None, operation, extra: Vec::new() })
        },
    }
}

/// An interface declaration around the given members.
pub open spec fn def_text(def: AsyncTraitDefView, members: Seq<char>) -> Seq<char> {
    join(
        seq![
            attr_texts(def.attrs, Keep::Outer),
            def.vis,
            word_if(def.unsafety, "unsafe"@),
            word_if(def.auto_token, "auto"@),
            "trait"@,
            def.ident,
            generics_text(def.generics.params, Form::Declared),
            word_if(def.colon_token, ":"@),
            separated(def.supertraits, "+"@),
            where_text(def.generics.predicates),
            braces(spaced(attr_texts(def.attrs, Keep::Inner), members)),
        ],
    )
}

/// What an interface declaration is rewritten to: the declaration, and the
/// items that go after it.
#[derive(Clone, PartialEq, Eq, Debug)]
pub struct Expansion {
    pub declaration: String,
    pub extra: Vec<String>,
}

/// The view of `Expansion`: each text as its sequence of characters.
pub struct ExpansionView {
    pub declaration: Seq<char>,
    pub extra: Seq<Seq<char>>,
}

impl View for Expansion {
    type V = ExpansionView;

    open spec fn view(&self) -> ExpansionView {
        ExpansionView { declaration: self.declaration@, extra: views(self.extra@) }
    }
}

/// The text of an expansion: the declaration, then the items after it.
pub open spec fn expansion_text(e: ExpansionView) -> Seq<char> {
    spaced(e.declaration, join(e.extra))
}

impl Expansion {
    /// Prints the declaration and the items after it as one text.
    pub fn text(&self) -> (out: String)
        ensures
            out@ == expansion_text(self@),
    {
        let mut out = self.declaration.clone();
        push_piece(&mut out, join_pieces(&self.extra).as_str());
        out
    }
}

/// The rewritten members of an interface declaration.
pub open spec fn defined_all(def: AsyncTraitDefView) -> Result<
    (Seq<char>, Seq<Seq<char>>),
    RewriteErrorView,
> {
    rewritten_all(def.items.map_values(|item: AsyncTraitItemView| defined(interface_of(def), item)))
}

/// An interface declaration with every asynchronous operation rewritten.
pub open spec fn def_rewritten(def: AsyncTraitDefView) -> Result<ExpansionView, RewriteErrorView> {
    match defined_all(def) {
        Err(e) => Err(e),
        Ok((members, extra)) => Ok(ExpansionView { declaration: def_text(def, members), extra }),
    }
}

impl AsyncTraitDef {
    /// Rewrites every asynchronous operation of the declaration. The other
    /// members, the attributes, the generics and the order of the members
    /// are kept.
    pub fn rewrite(&self) -> (r: Result<Expansion, RewriteError>)
        ensures
            match r {
                Ok(expansion) => def_rewritten(self@) == Ok::<_, RewriteErrorView>(expansion@),
                Err(e) => def_rewritten(self@) == Err::<ExpansionView, _>(e@),
            },
    {
        let interface = self.interface();
        let ghost results = views(self.items@).map_values(
            |item: AsyncTraitItemView| defined(interface_of(self@), item),
        );
        let mut members = String::new();
        let mut extra: Vec<String> = Vec::new();
        let mut i: usize = 0;
        proof {
            lemma_views_empty::<String>();
            assert(results.subrange(0, 0) =~= Seq::<
                Result<RewrittenView, RewriteErrorView>,
            >::empty());
        }
        while i < self.items.len()
            invariant
                i <= self.items.len(),
                interface@ == interface_of(self@),
                results == views(self.items@).map_values(
                    |item: AsyncTraitItemView| defined(interface_of(self@), item),
                ),
                rewritten_all(results.subrange(0, i as int)) == Ok::<_, RewriteErrorView>(
                    (members@, views(extra@)),
                ),
            decreases self.items.len() - i,
        {
            proof {
                assert(results.subrange(0, i + 1).drop_last() =~= results.subrange(0, i as int));
                assert(results.subrange(0, i + 1).last() == defined(
                    interface_of(self@),
                    self.items@[i as int]@,
                ));
            }
            match define_fn(&interface, &self.items[i]) {
                Err(e) => {
                    proof {
                        lemma_rewritten_all_error(results, i + 1);
                    }
                    return Err(e);
                },
                Ok(r) => {
                    accumulate(&mut members, &mut extra, r);
                },
            }
            i += 1;
        }
        assert(results.subrange(0, self.items@.len() as int) =~= results);
        Ok(Expansion { declaration: self.print_around(members.as_str()), extra })
    }

    /// Prints the declaration around the given members.
    pub fn print_around(&self, members: &str) -> (out: String)
        ensures
            out@ == def_text(self@, members@),
    {
        let unsafety = if self.unsafety {
            String::from_str("unsafe")
        } else {
            String::new()
        };
        let auto_token = if self.auto_token {
            String::from_str("auto")
        } else {
            String::new()
        };
        let colon = if self.colon_token {
            String::from_str(":")
        } else {
            String::new()
        };
        let mut body = print_attrs(&self.attrs, Keep::Inner);
        push_piece(&mut body, members);
        let pieces = vec![
            print_attrs(&self.attrs, Keep::Outer),
            self.vis.clone(),
            unsafety,
            auto_token,
            String::from_str("trait"),
            self.ident.clone(),
            print_generics(&self.generics.params, Form::Declared),
            colon,
            join_separated(&self.supertraits, "+"),
            print_where(&self.generics.predicates),
            in_braces(body.as_str()),
        ];
        proof {
            assert(views(pieces@) =~= seq![
                attr_texts(self@.attrs, Keep::Outer),
                self@.vis,
                word_if(self.unsafety, "unsafe"@),
                word_if(self.auto_token, "auto"@),
                "trait"@,
                self@.ident,
                generics_text(self@.generics.params, Form::Declared),
                word_if(self.colon_token, ":"@),
                separated(self@.supertraits, "+"@),
                where_text(self@.generics.predicates),
                braces(spaced(attr_texts(self@.attrs, Keep::Inner), members@)),
            ]);
        }
        join_pieces(&pieces)
    }
}

} // verus!
