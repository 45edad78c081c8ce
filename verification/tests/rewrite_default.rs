use fast_async_trait::def::AsyncTraitItem;
use fast_async_trait::default::rename_receiver;
use fast_async_trait::define::{define_async_fn, define_fn};
use fast_async_trait::{async_trait_def, AsyncTraitDef};

fn walk(stream: proc_macro2::TokenStream, out: &mut Vec<String>) {
    for tree in stream {
        match tree {
            proc_macro2::TokenTree::Group(group) => {
                out.push(format!("open {:?}", group.delimiter()));
                walk(group.stream(), out);
                out.push(format!("close {:?}", group.delimiter()));
            }
            other => out.push(other.to_string()),
        }
    }
}

/// The tokens of a source text, whatever the spacing between them.
fn tokens(source: &str) -> Vec<String> {
    let mut out = Vec::new();
    walk(source.parse::<proc_macro2::TokenStream>().unwrap(), &mut out);
    out
}

fn iterator() -> AsyncTraitDef {
    AsyncTraitDef::parse_all(
        "pub trait AsyncIterator<T> {
            type Item;
            async fn next(&mut self) -> Option<Self::Item>;
            #[inline]
            async fn nth(&mut self, n: usize) -> Option<Self::Item> {
                let _ = self.next().await;
                self.next().await
            }
        }",
    ).unwrap()
}

#[test]
fn a_default_becomes_a_callable_type() {
    let def = iterator();
    let method = match &def.items[2] {
        AsyncTraitItem::Method(method) => method,
        _ => panic!("expected an operation"),
    };
    let rewritten = define_async_fn(&def.interface(), method).unwrap();
    assert_eq!(
        tokens(&rewritten.future.unwrap()),
        tokens(
            "type Nth<'__self__>: '__self__ + ::core::future::Future<Output = Option<Self::Item>>
                = <AsyncIteratorNthDefault<'__self__, Self, T> as ::fast_async_trait::FnOnceHelper>::Output
                where Self: '__self__;"
        )
    );
    assert_eq!(
        tokens(&rewritten.operation),
        tokens(
            "#[inline]
            fn nth<'__self__>(&'__self__ mut self, n: usize) -> Self::Nth<'__self__>
                where Self: '__self__
            {
                <AsyncIteratorNthDefault<'__self__, Self, T> as ::fast_async_trait::FnOnceHelper>::call_once(
                    AsyncIteratorNth_sealed::new(),
                    (self, n,)
                )
            }"
        )
    );
    assert_eq!(rewritten.extra.len(), 6);
    assert_eq!(
        tokens(&rewritten.extra[0]),
        tokens(
            "#[doc(hidden)] #[allow(non_camel_case_types)]
            pub struct AsyncIteratorNthDefault<
                '__self__,
                This: ?::core::marker::Sized + '__self__ + AsyncIterator<T>,
                T: ?::core::marker::Sized
            >(
                ::core::marker::PhantomData<This>,
                ::core::marker::PhantomData<T>,
                ::core::marker::PhantomData<&'__self__ ()>
            );"
        )
    );
    assert_eq!(
        tokens(&rewritten.extra[1]),
        tokens(
            "#[doc(hidden)] #[allow(non_snake_case)]
            mod AsyncIteratorNth_sealed {
                use super::*;
                pub trait Sealed {}
                #[inline]
                pub fn new<
                    '__self__,
                    This: ?::core::marker::Sized + '__self__ + AsyncIterator<T>,
                    T: ?::core::marker::Sized
                >() -> AsyncIteratorNthDefault<'__self__, This, T> {
                    AsyncIteratorNthDefault(
                        ::core::marker::PhantomData,
                        ::core::marker::PhantomData,
                        ::core::marker::PhantomData
                    )
                }
            }"
        )
    );
    assert_eq!(
        tokens(&rewritten.extra[2]),
        tokens(
            "#[doc(hidden)] #[allow(non_camel_case_types)]
            pub trait AsyncIteratorNthExt<
                '__self__,
                This: ?::core::marker::Sized + '__self__ + AsyncIterator<T>,
                T: ?::core::marker::Sized
            >: AsyncIteratorNth_sealed::Sealed {
                type Item;
                type OutputFuture: ::core::future::Future;
                fn call_once(self, args: (&'__self__ mut This, usize,)) -> Self::OutputFuture;
            }"
        )
    );
    assert_eq!(
        tokens(&rewritten.extra[3]),
        tokens(
            "impl<
                '__self__,
                This: ?::core::marker::Sized + '__self__ + AsyncIterator<T>,
                T: ?::core::marker::Sized
            > AsyncIteratorNthExt<'__self__, This, T> for AsyncIteratorNthDefault<'__self__, This, T> {
                type Item = <This as AsyncIterator<T>>::Item;
                type OutputFuture = impl '__self__ + ::core::future::Future<Output = Option<Self::Item>>;
                #[inline]
                fn call_once(self, (this, n,): (&'__self__ mut This, usize,)) -> Self::OutputFuture {
                    return async move {
                        let _ = this.next().await;
                        this.next().await
                    }
                }
            }"
        )
    );
    assert_eq!(
        tokens(&rewritten.extra[4]),
        tokens(
            "impl<
                '__self__,
                This: ?::core::marker::Sized + '__self__ + AsyncIterator<T>,
                T: ?::core::marker::Sized
            > AsyncIteratorNth_sealed::Sealed for AsyncIteratorNthDefault<'__self__, This, T> {}"
        )
    );
    assert_eq!(
        tokens(&rewritten.extra[5]),
        tokens(
            "impl<
                '__self__,
                This: ?::core::marker::Sized + '__self__ + AsyncIterator<T>,
                T: ?::core::marker::Sized
            > ::fast_async_trait::FnOnceHelper for AsyncIteratorNthDefault<'__self__, This, T> {
                type Args = (&'__self__ mut This, usize,);
                type Output = <Self as AsyncIteratorNthExt<'__self__, This, T>>::OutputFuture;
                #[inline]
                fn call_once(self, args: Self::Args) -> Self::Output {
                    <Self as AsyncIteratorNthExt<'__self__, This, T>>::call_once(self, args)
                }
            }"
        )
    );
}

#[test]
fn a_default_that_takes_the_receiver_by_value_keeps_the_implementer_sized() {
    let def = AsyncTraitDef::parse_all(
        "trait Job { async fn run(mut self, (a, b): (u8, u8)) -> u8 where Self: Sized { a + b } }",
    ).unwrap();
    let rewritten = define_fn(&def.interface(), &def.items[0]).unwrap();
    assert_eq!(
        tokens(&rewritten.future.unwrap()),
        tokens(
            "type Run: ::core::future::Future<Output = u8>
                = <JobRunDefault<Self> as ::fast_async_trait::FnOnceHelper>::Output
                where Self: Sized;"
        )
    );
    assert_eq!(
        tokens(&rewritten.operation),
        tokens(
            "fn run(mut self, (a, b): (u8, u8)) -> Self::Run where Self: Sized {
                <JobRunDefault<Self> as ::fast_async_trait::FnOnceHelper>::call_once(
                    JobRun_sealed::new(),
                    (self, (a, b),)
                )
            }"
        )
    );
    assert_eq!(
        tokens(&rewritten.extra[0]),
        tokens(
            "#[doc(hidden)] #[allow(non_camel_case_types)]
            struct JobRunDefault<This: Job>(::core::marker::PhantomData<This>);"
        )
    );
    assert_eq!(
        tokens(&rewritten.extra[3]),
        tokens(
            "impl<This: Job> JobRunExt<This> for JobRunDefault<This> {
                type OutputFuture = impl ::core::future::Future<Output = u8>;
                #[inline]
                fn call_once(self, (mut this, (a, b),): (This, (u8, u8),)) -> Self::OutputFuture {
                    return async move { a + b }
                }
            }"
        )
    );
}

#[test]
fn the_items_of_the_defaults_follow_the_declaration() {
    let def = iterator();
    let expansion = def.rewrite().unwrap();
    assert_eq!(expansion.extra.len(), 6);
    let interface = def.interface();
    let next = define_fn(&interface, &def.items[1]).unwrap();
    let nth = define_fn(&interface, &def.items[2]).unwrap();
    assert!(next.extra.is_empty());
    assert_eq!(expansion.extra, nth.extra);
    let mut expected = format!(
        "pub trait AsyncIterator < T > {{ type Item ; {} {} {} {} }}",
        next.future.unwrap(),
        next.operation,
        nth.future.unwrap(),
        nth.operation
    );
    assert_eq!(expansion.declaration, expected);
    for item in &nth.extra {
        expected.push(' ');
        expected.push_str(item);
    }
    assert_eq!(expansion.text(), expected);
    let source = "pub trait AsyncIterator<T> {
            type Item;
            async fn next(&mut self) -> Option<Self::Item>;
            #[inline]
            async fn nth(&mut self, n: usize) -> Option<Self::Item> {
                let _ = self.next().await;
                self.next().await
            }
        }";
    assert_eq!(async_trait_def("", source).unwrap(), expected);
}

#[test]
fn every_default_adds_six_items() {
    let source = "trait T {
        async fn a(&self) { }
        fn plain(&self) { }
        async fn b(self) -> u8 { 1 }
        async fn c(&self);
        async fn d<'x>(&'x mut self, n: u8) -> u8 { n }
    }";
    let def = AsyncTraitDef::parse_all(source).unwrap();
    let expansion = def.rewrite().unwrap();
    assert_eq!(expansion.extra.len(), 18);
    assert!(expansion.extra[0].contains("struct TADefault"));
    assert!(expansion.extra[6].contains("struct TBDefault"));
    assert!(expansion.extra[12].contains("struct TDDefault"));
}

#[test]
fn a_member_that_is_left_alone_adds_nothing() {
    let def = AsyncTraitDef::parse_all("trait T { const N: u8; type A; fn f(&self) { } m!(); }").unwrap();
    let interface = def.interface();
    let expected = ["const N : u8 ;", "type A ;", "fn f (& self) { }", "m ! () ;"];
    for (item, text) in def.items.iter().zip(expected) {
        let rewritten = define_fn(&interface, item).unwrap();
        assert_eq!(rewritten.future, None);
        assert!(rewritten.extra.is_empty());
        assert_eq!(rewritten.operation, text);
        let mut printed = String::from("before");
        item.to_tokens(&mut printed);
        assert_eq!(printed, format!("before {}", text));
    }
}

#[test]
fn the_interface_lists_its_associated_types() {
    let def = AsyncTraitDef::parse_all(
        "pub(crate) trait T<'a, K> { type A; fn f(); #[doc(hidden)] type B<X>: Clone; const C: u8; }",
    ).unwrap();
    let interface = def.interface();
    assert_eq!(interface.vis, "pub (crate)");
    assert_eq!(interface.ident, "T");
    assert_eq!(interface.params, def.generics.params);
    assert_eq!(interface.associated, vec!["A".to_string(), "B".to_string()]);
}

#[test]
fn the_receiver_of_a_default_body_is_written_this() {
    assert_eq!(rename_receiver("{ self . next () . await }"), "{ this . next () . await }");
    assert_eq!(
        rename_receiver("{ let s = & mut * self ; f (self . 0 , [self . 1 ; 2] , | x | self . g (x)) }"),
        "{ let s = & mut * this ; f (this . 0 , [this . 1 ; 2] , | x | this . g (x)) }"
    );
    assert_eq!(
        rename_receiver("{ println ! (\"{}\" , self . len ()) ; Self :: new (selfish , 'self_) }"),
        "{ println ! (\"{}\" , this . len ()) ; Self :: new (selfish , 'self_) }"
    );
    assert_eq!(
        rename_receiver("{ a :: b -> c >>= 1 ..= 2 ; 'l : loop { } }"),
        "{ a :: b -> c >>= 1 ..= 2 ; 'l : loop { } }"
    );
    assert_eq!(rename_receiver("{ }"), "{ }");
    assert_eq!(rename_receiver(""), "");
}

#[test]
fn a_default_body_that_says_self_reaches_the_receiver() {
    let out = async_trait_def(
        "",
        "trait T { async fn twice(&self) -> u8 { self.once().await + self.once().await } }",
    ).unwrap();
    assert!(out.contains(
        "fn call_once (self , (this ,) : (& '__self__ This ,)) -> Self :: OutputFuture { return async move { this . once () . await + this . once () . await } }"
    ));
    assert!(out.contains(":: call_once (TTwice_sealed :: new () , (self ,))"));
}
