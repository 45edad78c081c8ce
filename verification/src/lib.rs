//! Asynchronous operations in interfaces without boxed futures.
//!
//! An interface declaration or an implementation block is rewritten so that
//! every asynchronous operation returns a member type of its own: abstract
//! on the interface, an opaque future on each implementation. The default
//! body of an operation becomes a callable type that any implementer can
//! use.
//!
//! The two entry points take the source text of one declaration and return
//! the source text that replaces it. From
//!
//! ```text
//! trait Stream {
//!     type Item;
//!     async fn next(&mut self) -> Option<Self::Item>;
//! }
//! ```
//!
//! [`async_trait_def`] makes
//!
//! ```text
//! trait Stream {
//!     type Item;
//!     type Next<'__self__>: '__self__ + ::core::future::Future<Output = Option<Self::Item>>
//!     where
//!         Self: '__self__;
//!     fn next<'__self__>(&'__self__ mut self) -> Self::Next<'__self__>
//!     where
//!         Self: '__self__;
//! }
//! ```
//!
//! and [`async_trait_impl`] gives each implementation of `next` the member
//! type `Next` as an opaque future and a body that returns it.
//!
//! The work is done in three steps. The parsers ([`def`], [`imp`]) read a
//! text into the structure of [`syntax`], asking the token and syntax-tree
//! libraries for every node of the language itself ([`primitive`]). The
//! rewriting ([`lifetimes`], [`define`], [`default`], [`imp`]) works on that
//! structure alone. The printing ([`print`]) puts the result back into text.
//! What holds of every rewriting is proved in [`laws`].
//!
//! A text that is refused comes back as an [`Error`]. For a text that does
//! not parse, [`place`] tells at which token tree of the declaration the
//! parser stopped, and for an operation that is refused, where the lifetime
//! stands that it names.
//!
//! The syntax-tree library does not return from a literal of a form that it
//! does not know (a C string). A declaration that holds such a literal is
//! therefore refused as a whole, unless the literal stands in an attribute,
//! which that library takes as it is. A literal in the arguments of a macro
//! is refused too: whether a group after `!` is read depends on what stands
//! around it.

use vstd::prelude::*;

pub mod def;
pub mod default;
pub mod define;
pub mod error;
pub mod imp;
pub mod laws;
pub mod lifetimes;
pub mod naming;
pub mod place;
pub mod primitive;
pub mod print;
pub mod reader;
pub mod rewrite;
pub mod syntax;
pub mod text;
pub mod token;

pub use crate::def::{AsyncTraitDef, AsyncTraitItem, AsyncTraitItemMethod};
pub use crate::imp::AsyncItemImpl;

use crate::def::def_of;
use crate::define::{def_rewritten, expansion_text};
use crate::error::{ParseError, ParseErrorView};
use crate::imp::{impl_of, impl_rewritten};
use crate::rewrite::{RewriteError, RewriteErrorView};

verus! {

/// The protocol of a value that can be called once: the callable type of a
/// default implements it, and the rewritten operation calls it.
pub trait FnOnceHelper {
    type Args;

    type Output;

    fn call_once(self, args: Self::Args) -> Self::Output;
}

/// Why a declaration was not rewritten.
#[derive(Clone, PartialEq, Eq, Debug)]
pub enum Error {
    /// The text is not a declaration that can be rewritten.
    Parse(ParseError),
    /// An operation of the declaration cannot be rewritten.
    Rewrite(RewriteError),
}

/// The view of `Error`: each text as its sequence of characters.
pub enum ErrorView {
    Parse(ParseErrorView),
    Rewrite(RewriteErrorView),
}

impl View for Error {
    type V = ErrorView;

    open spec fn view(&self) -> ErrorView {
        match self {
            Error::Parse(e) => ErrorView::Parse(e@),
            Error::Rewrite(e) => ErrorView::Rewrite(e@),
        }
    }
}

impl Error {
    /// The diagnostic for this error.
    pub fn message(&self) -> (out: String)
        ensures
            out@ == match self@ {
                ErrorView::Parse(e) => e.message,
                ErrorView::Rewrite(_) => "Currently only one lifetime per future is supported"@,
            },
    {
        match self {
            Error::Parse(e) => e.message.clone(),
            Error::Rewrite(e) => e.message(),
        }
    }
}

/// The outcome of an entry point seen through views.
pub open spec fn expanded_view(r: Result<String, Error>) -> Result<Seq<char>, ErrorView> {
    match r {
        Ok(text) => Ok(text@),
        Err(e) => Err(e@),
    }
}

/// What the text of an interface declaration is rewritten to: the
/// declaration with every asynchronous operation rewritten, followed by the
/// items that the defaults add. Nothing is produced where the text does not
/// parse or an operation is refused.
pub open spec fn def_expanded(items: Seq<char>) -> Result<Seq<char>, ErrorView> {
    match def_of(items) {
        Err(e) => Err(ErrorView::Parse(e)),
        Ok(def) => match def_rewritten(def) {
            Err(e) => Err(ErrorView::Rewrite(e)),
            Ok(expansion) => Ok(expansion_text(expansion)),
        },
    }
}

/// Rewrites the interface declaration that `items` holds. The arguments of
/// the annotation, `_attrs`, are not looked at.
pub fn async_trait_def(_attrs: &str, items: &str) -> (r: Result<String, Error>)
    ensures
        expanded_view(r) == def_expanded(items@),
{
    let def = match AsyncTraitDef::parse_all(items) {
        Err(e) => return Err(Error::Parse(e)),
        Ok(def) => def,
    };
    match def.rewrite() {
        Err(e) => Err(Error::Rewrite(e)),
        Ok(expansion) => Ok(expansion.text()),
    }
}

/// What the text of an implementation block is rewritten to: the block with
/// every asynchronous operation rewritten. Nothing is produced where the
/// text does not parse or an operation is refused.
pub open spec fn impl_expanded(items: Seq<char>) -> Result<Seq<char>, ErrorView> {
    match impl_of(items) {
        Err(e) => Err(ErrorView::Parse(e)),
        Ok(block) => match impl_rewritten(block) {
            Err(e) => Err(ErrorView::Rewrite(e)),
            Ok(text) => Ok(text),
        },
    }
}

/// Rewrites the implementation block that `items` holds. The arguments of
/// the annotation, `_attrs`, are not looked at.
pub fn async_trait_impl(_attrs: &str, items: &str) -> (r: Result<String, Error>)
    ensures
        expanded_view(r) == impl_expanded(items@),
{
    let block = match AsyncItemImpl::parse_all(items) {
        Err(e) => return Err(Error::Parse(e)),
        Ok(block) => block,
    };
    match block.rewrite() {
        Err(e) => Err(Error::Rewrite(e)),
        Ok(text) => Ok(text),
    }
}

} // verus!
