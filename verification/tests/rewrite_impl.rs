use fast_async_trait::error::ParseErrorKind;
use fast_async_trait::imp::{impl_async_fn, impl_fn, ImplItem};
use fast_async_trait::rewrite::RewriteError;
use fast_async_trait::{async_trait_impl, AsyncItemImpl, Error};

fn walk(stream: proc_macro2::TokenStream, out: &mut Vec<String>) {
    for tree in stream {
        match tree {
            proc_macro2::TokenTree::Group(group) => {
                out.push(format!("open {:?}", group.delimiter()));
                walk(group.stream(), out);
                out.push(format!("close {:?}", group.delimiter()));
            }
            other => out.push(other.to_string()),
        }
    }
}

/// The tokens of a source text, whatever the spacing between them.
fn tokens(source: &str) -> Vec<String> {
    let mut out = Vec::new();
    walk(source.parse::<proc_macro2::TokenStream>().unwrap(), &mut out);
    out
}

#[test]
fn every_asynchronous_operation_of_a_block_is_rewritten() {
    let out = async_trait_impl(
        "",
        "impl AsyncTrait for (usize, &[u8]) {
            type Item = u8;

            #[inline]
            async fn owned(self) -> Option<Self::Item> {
                return self.1.get(self.0).copied()
            }

            #[inline]
            async fn by_ref(&self) -> Option<Self::Item> {
                return self.1.get(self.0).copied()
            }

            #[inline]
            async fn by_mut(&mut self) -> Option<Self::Item> {
                return self.1.get(self.0).copied()
            }

            #[inline]
            fn regular_method(&self) -> u8 {
                return 32u8;
            }
        }",
    ).unwrap();
    assert_eq!(
        tokens(&out),
        tokens(
            "impl AsyncTrait for (usize, &[u8]) {
                type Item = u8;

                type Owned = impl ::core::future::Future<Output = Option<Self::Item>>;
                #[inline]
                fn owned(self) -> Self::Owned {
                    return async move {
                        return self.1.get(self.0).copied()
                    }
                }

                type ByRef<'__self__> = impl '__self__ + ::core::future::Future<Output = Option<Self::Item>>
                    where Self: '__self__;
                #[inline]
                fn by_ref<'__self__>(&'__self__ self) -> Self::ByRef<'__self__> where Self: '__self__ {
                    return async move {
                        return self.1.get(self.0).copied()
                    }
                }

                type ByMut<'__self__> = impl '__self__ + ::core::future::Future<Output = Option<Self::Item>>
                    where Self: '__self__;
                #[inline]
                fn by_mut<'__self__>(&'__self__ mut self) -> Self::ByMut<'__self__> where Self: '__self__ {
                    return async move {
                        return self.1.get(self.0).copied()
                    }
                }

                #[inline]
                fn regular_method(&self) -> u8 {
                    return 32u8;
                }
            }"
        )
    );
}

#[test]
fn the_block_keeps_its_header() {
    let out = async_trait_impl(
        "",
        "#[cfg(all())] default unsafe impl<'a, T: Clone, const N: usize> Tr<T> for Pair<'a, T, N>
            where T: 'a
        {
            #![allow(unused)]
            pub(crate) default async unsafe fn get<K>(&'a self, key: K) where K: Eq { }
        }",
    ).unwrap();
    assert_eq!(
        tokens(&out),
        tokens(
            "#[cfg(all())] default unsafe impl<'a, T: Clone, const N: usize> Tr<T> for Pair<'a, T, N>
                where T: 'a
            {
                #![allow(unused)]
                type Get<K> = impl ::core::future::Future<Output = ()> where K: Eq, Self: 'a;
                pub(crate) default unsafe fn get<K>(&'a self, key: K) -> Self::Get<K>
                    where K: Eq, Self: 'a
                {
                    return async move { }
                }
            }"
        )
    );
}

#[test]
fn a_block_without_asynchronous_operations_passes_through() {
    assert_eq!(async_trait_impl("", "impl Pair {}").unwrap(), "impl Pair { }");
    assert_eq!(async_trait_impl("", "impl !Send for Pair {}").unwrap(), "impl ! Send for Pair { }");
    let source = "impl<T> Pair<T> { const N: u8 = 1; #[inline] pub fn get(&self) -> u8 { #![allow(unused)] 1 } m!(); }";
    assert_eq!(tokens(&async_trait_impl("", source).unwrap()), tokens(source));
}

#[test]
fn an_operation_is_rewritten_alone() {
    let block = AsyncItemImpl::parse_all(
        "impl Tr for X { #[a] #[b] async fn go(&mut self, n: usize) -> usize { n } }",
    ).unwrap();
    let method = match &block.items[0] {
        ImplItem::Method(method) => method,
        ImplItem::Other(_) => panic!("expected an operation"),
    };
    let rewritten = impl_async_fn(method).unwrap();
    assert_eq!(rewritten, impl_fn(&block.items[0]).unwrap());
    assert_eq!(
        rewritten.future,
        Some(
            "type Go < '__self__ > = impl '__self__ + :: core :: future :: Future < Output = usize > where Self : '__self__ ;"
                .to_string()
        )
    );
    assert_eq!(
        rewritten.operation,
        "# [a] # [b] fn go < '__self__ > (& '__self__ mut self , n : usize) -> Self :: Go < '__self__ > where Self : '__self__ { return async move { n } }"
    );
    assert!(rewritten.extra.is_empty());
}

#[test]
fn a_second_lifetime_is_refused_on_an_implementation() {
    let e = async_trait_impl(
        "",
        "impl Tr for X { fn ok<'a, 'b>(&'a self, o: &'b u8) { } async fn get<'b>(&self, o: &'b u8) { } }",
    ).unwrap_err();
    assert_eq!(
        e,
        Error::Rewrite(RewriteError::MultipleLifetimes {
            operation: "get".to_string(),
            lifetime: "'b".to_string(),
            index: 1,
        })
    );
}

#[test]
fn the_first_refused_operation_is_reported() {
    let e = async_trait_impl(
        "",
        "impl Tr for X { async fn one<'a, 'b>(&'a self, o: &'b u8) { } async fn two<'c, 'd>(self) { } }",
    ).unwrap_err();
    match e {
        Error::Rewrite(RewriteError::MultipleLifetimes { operation, .. }) => assert_eq!(operation, "one"),
        other => panic!("expected a refused operation, got {:?}", other),
    }
}

#[test]
fn an_operation_without_a_body_is_unsupported() {
    match async_trait_impl("", "impl Tr for X { async fn get(&self); }") {
        Err(Error::Parse(e)) => {
            assert_eq!(e.kind, ParseErrorKind::Unsupported);
            assert_eq!(e.message, "an operation of an implementation needs a body");
        }
        other => panic!("expected an unsupported shape, got {:?}", other),
    }
}

#[test]
fn a_block_that_does_not_parse_gives_no_output() {
    match async_trait_impl("", "impl Tr for { }") {
        Err(Error::Parse(e)) => assert_eq!(e.kind, ParseErrorKind::Syntax),
        other => panic!("expected a syntax error, got {:?}", other),
    }
    match async_trait_impl("", "impl Tr for X { fn }") {
        Err(Error::Parse(e)) => assert_eq!(e.kind, ParseErrorKind::Syntax),
        other => panic!("expected a syntax error, got {:?}", other),
    }
    match async_trait_impl("", "trait T { }") {
        Err(Error::Parse(e)) => assert_eq!(e.message, "expected `impl`"),
        other => panic!("expected a syntax error, got {:?}", other),
    }
}

#[test]
fn an_operation_without_a_body_that_is_not_asynchronous_passes_through() {
    let block = AsyncItemImpl::parse_all("impl Tr for X { #[a] pub fn get(&self); async fn go(self) { } }").unwrap();
    assert_eq!(block.items[0], ImplItem::Other("# [a] pub fn get (& self) ;".to_string()));
    assert!(matches!(block.items[1], ImplItem::Method(_)));
    let out = async_trait_impl("", "impl Tr for X { #[a] pub fn get(&self); }").unwrap();
    assert_eq!(out, "impl Tr for X { # [a] pub fn get (& self) ; }");
}
