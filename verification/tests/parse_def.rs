use fast_async_trait::def::{AsyncTraitDef, AsyncTraitItem};
use fast_async_trait::error::ParseErrorKind;

#[test]
fn parses_an_interface_with_every_kind_of_member() {
    let def = AsyncTraitDef::parse_all(
        "#[doc = \"x\"] pub unsafe trait Stream<'a, T: Clone>: Sized + Send where T: 'a {
            #![allow(unused)]
            const N: usize;
            type Item;
            async fn next(&mut self) -> Option<Self::Item>;
            #[inline]
            fn size(&self) -> usize { 0 }
            builder!(a, b);
        }",
    ).unwrap();
    println!("{:#?}", def);
    assert_eq!(def.vis, "pub");
    assert!(def.unsafety);
    assert!(!def.auto_token);
    assert_eq!(def.ident, "Stream");
    assert_eq!(def.attrs.len(), 2);
    assert!(!def.attrs[0].inner);
    assert!(def.attrs[1].inner);
    assert_eq!(def.generics.params.len(), 2);
    assert_eq!(def.generics.params[0].name, "'a");
    assert_eq!(def.generics.params[1].name, "T");
    assert_eq!(def.generics.params[1].bounds, "Clone");
    assert_eq!(def.generics.predicates, vec!["T : 'a".to_string()]);
    assert!(def.colon_token);
    assert_eq!(def.supertraits, vec!["Sized".to_string(), "Send".to_string()]);
    assert_eq!(def.items.len(), 5);
    assert!(matches!(def.items[0], AsyncTraitItem::Const(_)));
    assert!(matches!(def.items[1], AsyncTraitItem::Type(_)));
    assert!(matches!(def.items[2], AsyncTraitItem::Method(_)));
    assert!(matches!(def.items[3], AsyncTraitItem::Method(_)));
    assert!(matches!(def.items[4], AsyncTraitItem::Macro(_)));
}

#[test]
fn rejects_a_member_with_a_visibility() {
    let e = AsyncTraitDef::parse_all("trait T { pub fn f(); }").unwrap_err();
    assert_eq!(e.kind, ParseErrorKind::Unsupported);
}

#[test]
fn rejects_what_is_no_interface() {
    let e = AsyncTraitDef::parse_all("struct S;").unwrap_err();
    assert_eq!(e.kind, ParseErrorKind::Syntax);
    assert_eq!(e.message, "expected `trait`");
    assert_eq!(e.rest, "struct S ;");
}
