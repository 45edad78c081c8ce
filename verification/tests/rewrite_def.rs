use fast_async_trait::error::ParseErrorKind;
use fast_async_trait::rewrite::RewriteError;
use fast_async_trait::{async_trait_def, AsyncTraitDef, Error};

fn walk(stream: proc_macro2::TokenStream, out: &mut Vec<String>) {
    for tree in stream {
        match tree {
            proc_macro2::TokenTree::Group(group) => {
                out.push(format!("open {:?}", group.delimiter()));
                walk(group.stream(), out);
                out.push(format!("close {:?}", group.delimiter()));
            }
            other => out.push(other.to_string()),
        }
    }
}

/// The tokens of a source text, whatever the spacing between them.
fn tokens(source: &str) -> Vec<String> {
    let mut out = Vec::new();
    walk(source.parse::<proc_macro2::TokenStream>().unwrap(), &mut out);
    out
}

#[test]
fn an_operation_without_a_default_gets_an_abstract_member_type() {
    let out = async_trait_def(
        "",
        "pub trait AsyncIterator {
            type Item;
            async fn next(&mut self) -> Option<Self::Item>;
        }",
    ).unwrap();
    assert_eq!(
        tokens(&out),
        tokens(
            "pub trait AsyncIterator {
                type Item;
                type Next<'__self__>: '__self__ + ::core::future::Future<Output = Option<Self::Item>>
                    where Self: '__self__;
                fn next<'__self__>(&'__self__ mut self) -> Self::Next<'__self__>
                    where Self: '__self__;
            }"
        )
    );
}

#[test]
fn a_receiver_by_value_needs_no_lifetime() {
    let out = async_trait_def("", "trait T { async fn owned(self) -> u8; }").unwrap();
    assert_eq!(
        tokens(&out),
        tokens(
            "trait T {
                type Owned: ::core::future::Future<Output = u8>;
                fn owned(self) -> Self::Owned;
            }"
        )
    );
}

#[test]
fn an_operation_that_returns_nothing_resolves_to_unit() {
    let out = async_trait_def("", "trait T { async fn flush(&self); }").unwrap();
    assert_eq!(
        tokens(&out),
        tokens(
            "trait T {
                type Flush<'__self__>: '__self__ + ::core::future::Future<Output = ()>
                    where Self: '__self__;
                fn flush<'__self__>(&'__self__ self) -> Self::Flush<'__self__>
                    where Self: '__self__;
            }"
        )
    );
}

#[test]
fn a_written_lifetime_is_reused() {
    let out = async_trait_def(
        "",
        "trait T { #[inline] async unsafe fn get<'a, K: Eq>(&'a self, key: K) -> &'a u8 where K: Copy; }",
    ).unwrap();
    assert_eq!(
        tokens(&out),
        tokens(
            "trait T {
                type Get<'a, K: Eq>: 'a + ::core::future::Future<Output = &'a u8>
                    where K: Copy, Self: 'a;
                #[inline]
                unsafe fn get<'a, K: Eq>(&'a self, key: K) -> Self::Get<'a, K>
                    where K: Copy, Self: 'a;
            }"
        )
    );
}

#[test]
fn a_declaration_without_asynchronous_operations_passes_through() {
    let source = "#[doc = \"an interface\"]
        pub unsafe trait Plain<'a, T: Clone = u8, const N: usize>: Sized + Send where T: 'a {
            #![allow(unused)]
            const N: usize = 3;
            #[doc(hidden)]
            type Item: Clone;
            fn size(&self) -> usize;
            #[inline]
            fn twice(&self, n: usize) -> usize { n * 2 }
            builder!(a, b);
        }";
    let out = async_trait_def("", source).unwrap();
    assert_eq!(
        tokens(&out),
        tokens(
            "#[doc = \"an interface\"]
            pub unsafe trait Plain<'a, T: Clone = u8, const N: usize>: Sized + Send where T: 'a {
                #![allow(unused)]
                const N: usize = 3;
                #[doc(hidden)]
                type Item: Clone;
                fn size(&self) -> usize;
                #[inline]
                fn twice(&self, n: usize) -> usize { n * 2 }
                builder!(a, b);
            }"
        )
    );
    let def = AsyncTraitDef::parse_all(source).unwrap();
    let expansion = def.rewrite().unwrap();
    assert!(expansion.extra.is_empty());
    assert_eq!(expansion.text(), out);
}

#[test]
fn an_empty_declaration_passes_through() {
    assert_eq!(async_trait_def("", "trait Empty {}").unwrap(), "trait Empty { }");
    assert_eq!(async_trait_def("", "auto trait Marker {}").unwrap(), "auto trait Marker { }");
}

#[test]
fn the_arguments_of_the_annotation_are_not_looked_at() {
    assert_eq!(
        async_trait_def("whatever ( this is", "trait Empty {}"),
        async_trait_def("", "trait Empty {}")
    );
}

#[test]
fn a_second_lifetime_is_refused() {
    let e = async_trait_def(
        "",
        "trait T { async fn get<'a, 'b>(&'a self, other: &'b u8) -> u8; }",
    ).unwrap_err();
    assert_eq!(
        e,
        Error::Rewrite(RewriteError::MultipleLifetimes {
            operation: "get".to_string(),
            lifetime: "'b".to_string(),
            index: 1,
        })
    );
    assert_eq!(e.message(), "Currently only one lifetime per future is supported");
}

#[test]
fn a_written_lifetime_beside_the_synthesized_one_is_refused() {
    let e = async_trait_def(
        "",
        "trait T { fn plain(&self); async fn get<T, 'b>(&self, other: &'b T) -> u8; }",
    ).unwrap_err();
    assert_eq!(
        e,
        Error::Rewrite(RewriteError::MultipleLifetimes {
            operation: "get".to_string(),
            lifetime: "'b".to_string(),
            index: 1,
        })
    );
}

#[test]
fn two_lifetimes_are_fine_on_an_operation_that_is_not_asynchronous() {
    let out = async_trait_def("", "trait T { fn get<'a, 'b>(&'a self, other: &'b u8) -> u8; }");
    assert_eq!(tokens(&out.unwrap()), tokens("trait T { fn get<'a, 'b>(&'a self, other: &'b u8) -> u8; }"));
}

#[test]
fn a_text_that_does_not_parse_gives_no_output() {
    match async_trait_def("", "trait T { async fn }") {
        Err(Error::Parse(e)) => assert_eq!(e.kind, ParseErrorKind::Syntax),
        other => panic!("expected a syntax error, got {:?}", other),
    }
    match async_trait_def("", "trait T { ") {
        Err(Error::Parse(e)) => assert_eq!(e.kind, ParseErrorKind::Lex),
        other => panic!("expected a lexical error, got {:?}", other),
    }
    match async_trait_def("", "trait T { default fn f(); }") {
        Err(Error::Parse(e)) => {
            assert_eq!(e.kind, ParseErrorKind::Unsupported);
            assert_eq!(Error::Parse(e.clone()).message(), e.message);
        }
        other => panic!("expected an unsupported shape, got {:?}", other),
    }
}

#[test]
fn operations_whose_names_collide_are_not_told_apart() {
    let out = async_trait_def(
        "",
        "trait T { async fn foo_bar(self); async fn fooBar(self); }",
    ).unwrap();
    assert_eq!(
        tokens(&out),
        tokens(
            "trait T {
                type FooBar: ::core::future::Future<Output = ()>;
                fn foo_bar(self) -> Self::FooBar;
                type FooBar: ::core::future::Future<Output = ()>;
                fn fooBar(self) -> Self::FooBar;
            }"
        )
    );
}
