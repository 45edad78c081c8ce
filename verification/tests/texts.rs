use fast_async_trait::def::AsyncTraitItem;
use fast_async_trait::{async_trait_def, async_trait_impl, AsyncItemImpl, AsyncTraitDef};

fn walk(stream: proc_macro2::TokenStream, out: &mut Vec<String>) {
    for tree in stream {
        match tree {
            proc_macro2::TokenTree::Group(group) => {
                out.push(format!("open {:?}", group.delimiter()));
                walk(group.stream(), out);
                out.push(format!("close {:?}", group.delimiter()));
            }
            other => out.push(other.to_string()),
        }
    }
}

/// The tokens of a source text, whatever the spacing between them.
fn tokens(source: &str) -> Vec<String> {
    let mut out = Vec::new();
    walk(source.parse::<proc_macro2::TokenStream>().unwrap(), &mut out);
    out
}

#[test]
fn a_plus_may_end_the_supertraits() {
    let def = AsyncTraitDef::parse_all("trait T: A + 'static + ?Sized + where Self: B { }").unwrap();
    assert!(def.colon_token);
    assert_eq!(
        def.supertraits,
        vec!["A".to_string(), "'static".to_string(), "? Sized".to_string()]
    );
    assert_eq!(def.generics.predicates, vec!["Self : B".to_string()]);
    let def = AsyncTraitDef::parse_all("trait T: { }").unwrap();
    assert!(def.colon_token);
    assert!(def.supertraits.is_empty());
    let def = AsyncTraitDef::parse_all("trait T { }").unwrap();
    assert!(!def.colon_token);
    let e = AsyncTraitDef::parse_all("trait T: A B { }").unwrap_err();
    assert_eq!(e.message, "expected `+`");
    assert_eq!(e.rest, "B { }");
}

#[test]
fn comments_become_attributes() {
    let def = AsyncTraitDef::parse_all(
        "/// An interface.
        trait T {
            //! Its body.
            /// An operation.
            async fn f(&self);
        }",
    ).unwrap();
    assert_eq!(def.attrs.len(), 2);
    assert_eq!(def.attrs[0].text, "# [doc = \" An interface.\"]");
    assert!(!def.attrs[0].inner);
    assert_eq!(def.attrs[1].text, "# ! [doc = \" Its body.\"]");
    assert!(def.attrs[1].inner);
    match &def.items[0] {
        AsyncTraitItem::Method(m) => assert_eq!(m.attrs[0].text, "# [doc = \" An operation.\"]"),
        other => panic!("expected an operation, got {:?}", other),
    }
    let out = def.rewrite().unwrap().text();
    assert_eq!(
        tokens(&out),
        tokens(
            "#[doc = \" An interface.\"]
            trait T {
                #![doc = \" Its body.\"]
                type F<'__self__>: '__self__ + ::core::future::Future<Output = ()> where Self: '__self__;
                #[doc = \" An operation.\"]
                fn f<'__self__>(&'__self__ self) -> Self::F<'__self__> where Self: '__self__;
            }"
        )
    );
}

#[test]
fn a_body_keeps_every_token() {
    let body = "{
        let text = \"braces { } and \\\"quotes\\\" and 'ticks'\";
        let raw = r#\"a \"raw\" string\"#;
        let bytes = (b\"bytes\", b'x', '\\'', '{');
        'outer: loop {
            let n = -1_i64 + 0xff - 1.5e3_f64 as i64;
            if n >= 2 && n <= 3 || n != 4 { break 'outer; }
            let r = 1..=2;
            let unit = ();
            match n { 0 => continue, _ => {} }
        }
        let closure = |x: &mut Vec<Option<u8>>| -> usize { x.len() >> 1 };
        this.call::<u8>(&mut vec![Some(1u8)]).await?;
        Ok::<(), ()>(())
    }";
    let source = format!("trait T {{ async fn run(&mut self) -> Result<(), ()> {} }}", body);
    let out = async_trait_def("", &source).unwrap();
    let printed = tokens(&out);
    let expected = tokens(body);
    let found = printed.windows(expected.len()).filter(|w| *w == expected.as_slice()).count();
    assert_eq!(found, 1);
    let source = format!("impl T for X {{ async fn run(&mut self) -> Result<(), ()> {} }}", body);
    let out = async_trait_impl("", &source).unwrap();
    let printed = tokens(&out);
    let found = printed.windows(expected.len()).filter(|w| *w == expected.as_slice()).count();
    assert_eq!(found, 1);
}

#[test]
fn names_may_use_any_alphabet() {
    let out = async_trait_def("", "trait Ünïcode { async fn größe_holen(self) -> u8; }").unwrap();
    assert_eq!(
        tokens(&out),
        tokens(
            "trait Ünïcode {
                type GrößeHolen: ::core::future::Future<Output = u8>;
                fn größe_holen(self) -> Self::GrößeHolen;
            }"
        )
    );
}

#[test]
fn a_block_for_a_reference_has_generics() {
    let block = AsyncItemImpl::parse_all("impl<'a, T: ?Sized> Tr for &'a T where T: Tr { }").unwrap();
    assert_eq!(block.generics.params.len(), 2);
    assert_eq!(block.self_ty, "& 'a T");
    assert_eq!(block.generics.predicates, vec!["T : Tr".to_string()]);
    let block = AsyncItemImpl::parse_all("impl<> Tr for X { }").unwrap();
    assert!(block.generics.params.is_empty());
    let block = AsyncItemImpl::parse_all("impl<#[cfg(all())] T> Tr for X<T> { }").unwrap();
    assert_eq!(block.generics.params[0].attrs, "# [cfg (all ())]");
    let block = AsyncItemImpl::parse_all("impl<const N: usize> Tr for [u8; N] { }").unwrap();
    assert_eq!(block.generics.params[0].name, "N");
    assert_eq!(block.self_ty, "[u8 ; N]");
    let block = AsyncItemImpl::parse_all("impl<T = u8> Tr for X<T> { }").unwrap();
    assert_eq!(block.generics.params[0].default, "u8");
}

#[test]
fn an_operation_may_be_generic() {
    let out = async_trait_impl(
        "",
        "impl Tr for X { async fn map<T: Send, F, const N: usize>(self, f: F) -> [T; N] where F: Fn() -> T { loop { } } }",
    ).unwrap();
    assert_eq!(
        tokens(&out),
        tokens(
            "impl Tr for X {
                type Map<T: Send, F, const N: usize> = impl ::core::future::Future<Output = [T; N]>
                    where F: Fn() -> T;
                fn map<T: Send, F, const N: usize>(self, f: F) -> Self::Map<T, F, N> where F: Fn() -> T {
                    return async move { loop { } }
                }
            }"
        )
    );
}

#[test]
fn a_long_declaration_is_read_to_its_end() {
    let mut source = String::from("trait Long {");
    for i in 0..200 {
        source.push_str(&format!(" async fn op_{}(&self, n: u{}) -> u8;", i, 8));
    }
    source.push('}');
    let def = AsyncTraitDef::parse_all(&source).unwrap();
    assert_eq!(def.items.len(), 200);
    let expansion = def.rewrite().unwrap();
    assert!(expansion.extra.is_empty());
    assert!(expansion.declaration.contains("type Op199 < '__self__ >"));
}
