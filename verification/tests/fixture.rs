use fast_async_trait::{async_trait_def, async_trait_impl, AsyncItemImpl, AsyncTraitDef};

fn walk(stream: proc_macro2::TokenStream, out: &mut Vec<String>) {
    for tree in stream {
        match tree {
            proc_macro2::TokenTree::Group(group) => {
                out.push(format!("open {:?}", group.delimiter()));
                walk(group.stream(), out);
                out.push(format!("close {:?}", group.delimiter()));
            }
            other => out.push(other.to_string()),
        }
    }
}

/// The tokens of a source text, whatever the spacing between them.
fn tokens(source: &str) -> Vec<String> {
    let mut out = Vec::new();
    walk(source.parse::<proc_macro2::TokenStream>().unwrap(), &mut out);
    out
}

fn interface() -> &'static str {
    "pub trait AsyncTrait {
        type Item;

        async fn owned (self) -> Option<Self::Item>;
        async fn by_ref (&self) -> Option<Self::Item>;
        async fn by_mut (&mut self) -> Option<Self::Item>;
        fn regular_method (&self) -> u8;

        #[inline]
        async fn by_ref_default (&self, n: usize) -> Option<Self::Item> {
            for _ in 0..n {
                let _ = self.by_ref().await;
            }
            return self.by_ref().await
        }
    }"
}

fn implementation() -> &'static str {
    "impl AsyncTrait for (usize, &[u8]) {
        type Item = u8;

        #[inline]
        async fn owned (self) -> Option<Self::Item> {
            return self.1.get(self.0).copied()
        }

        #[inline]
        async fn by_ref (&self) -> Option<Self::Item> {
            return self.1.get(self.0).copied()
        }

        #[inline]
        async fn by_mut (&mut self) -> Option<Self::Item> {
            return self.1.get(self.0).copied()
        }

        #[inline]
        fn regular_method (&self) -> u8 {
            return 32u8;
        }
    }"
}

#[test]
fn the_interface_of_the_fixture_is_rewritten() {
    let expansion = AsyncTraitDef::parse_all(interface()).unwrap().rewrite().unwrap();
    assert_eq!(
        tokens(&expansion.declaration),
        tokens(
            "pub trait AsyncTrait {
                type Item;

                type Owned: ::core::future::Future<Output = Option<Self::Item>>;
                fn owned(self) -> Self::Owned;

                type ByRef<'__self__>: '__self__ + ::core::future::Future<Output = Option<Self::Item>>
                    where Self: '__self__;
                fn by_ref<'__self__>(&'__self__ self) -> Self::ByRef<'__self__> where Self: '__self__;

                type ByMut<'__self__>: '__self__ + ::core::future::Future<Output = Option<Self::Item>>
                    where Self: '__self__;
                fn by_mut<'__self__>(&'__self__ mut self) -> Self::ByMut<'__self__> where Self: '__self__;

                fn regular_method(&self) -> u8;

                type ByRefDefault<'__self__>: '__self__ + ::core::future::Future<Output = Option<Self::Item>>
                    = <AsyncTraitByRefDefaultDefault<'__self__, Self> as ::fast_async_trait::FnOnceHelper>::Output
                    where Self: '__self__;
                #[inline]
                fn by_ref_default<'__self__>(&'__self__ self, n: usize) -> Self::ByRefDefault<'__self__>
                    where Self: '__self__
                {
                    <AsyncTraitByRefDefaultDefault<'__self__, Self> as ::fast_async_trait::FnOnceHelper>::call_once(
                        AsyncTraitByRefDefault_sealed::new(),
                        (self, n,)
                    )
                }
            }"
        )
    );
    assert_eq!(expansion.extra.len(), 6);
    assert_eq!(
        tokens(&expansion.extra[3]),
        tokens(
            "impl<'__self__, This: ?::core::marker::Sized + '__self__ + AsyncTrait>
                AsyncTraitByRefDefaultExt<'__self__, This> for AsyncTraitByRefDefaultDefault<'__self__, This>
            {
                type Item = <This as AsyncTrait>::Item;
                type OutputFuture = impl '__self__ + ::core::future::Future<Output = Option<Self::Item>>;
                #[inline]
                fn call_once(self, (this, n,): (&'__self__ This, usize,)) -> Self::OutputFuture {
                    return async move {
                        for _ in 0..n {
                            let _ = this.by_ref().await;
                        }
                        return this.by_ref().await
                    }
                }
            }"
        )
    );
    assert_eq!(async_trait_def("", interface()).unwrap(), expansion.text());
}

#[test]
fn the_implementation_of_the_fixture_is_rewritten() {
    let block = AsyncItemImpl::parse_all(implementation()).unwrap();
    let out = block.rewrite().unwrap();
    assert_eq!(async_trait_impl("", implementation()).unwrap(), out);
    let printed = tokens(&out);
    let count = |word: &str| printed.iter().filter(|t| t.as_str() == word).count();
    assert_eq!(count("async"), 3);
    assert_eq!(count("move"), 3);
    assert_eq!(count("impl"), 4);
    assert_eq!(count("regular_method"), 1);
    assert_eq!(count("Owned"), 2);
    assert_eq!(count("ByRef"), 2);
    assert_eq!(count("ByMut"), 2);
}

#[test]
fn the_output_is_printed_as_its_own_tokens() {
    let out = async_trait_def("", interface()).unwrap();
    assert_eq!(out.parse::<proc_macro2::TokenStream>().unwrap().to_string(), out);
    let out = async_trait_impl("", implementation()).unwrap();
    assert_eq!(out.parse::<proc_macro2::TokenStream>().unwrap().to_string(), out);
}

#[test]
fn rewriting_a_rewritten_declaration_changes_nothing() {
    let once = async_trait_def("", "trait T { type A; fn f(&self) -> u8; }").unwrap();
    assert_eq!(async_trait_def("", &once).unwrap(), once);
    let rewritten = async_trait_def("", interface()).unwrap();
    let declaration = AsyncTraitDef::parse_all(interface()).unwrap().rewrite().unwrap().declaration;
    assert_eq!(async_trait_def("", &declaration).unwrap(), declaration);
    assert!(rewritten.starts_with(&declaration));
}
