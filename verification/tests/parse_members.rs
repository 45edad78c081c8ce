use fast_async_trait::def::{peek_signature, AsyncTraitDef, AsyncTraitItem};
use fast_async_trait::error::ParseErrorKind;
use fast_async_trait::reader::{parse_arg, parse_param, parse_signature, tokenize};
use fast_async_trait::syntax::{FnArg, ParamKind};

#[test]
fn a_signature_is_announced_by_its_qualifiers() {
    assert!(peek_signature("fn f ()"));
    assert!(peek_signature("const fn f ()"));
    assert!(peek_signature("async unsafe fn f ()"));
    assert!(peek_signature("const async unsafe extern \"C\" fn f ()"));
    assert!(peek_signature("extern fn f ()"));
    assert!(!peek_signature("unsafe async fn f ()"));
    assert!(!peek_signature("const N : u8 ;"));
    assert!(!peek_signature("type A ;"));
    assert!(!peek_signature(""));
}

#[test]
fn a_member_is_chosen_by_its_first_tokens() {
    let (item, rest) = AsyncTraitItem::parse("# [a] const N : u8 ; type B ;").unwrap();
    assert_eq!(item, AsyncTraitItem::Const("# [a] const N : u8 ;".to_string()));
    assert_eq!(rest, "type B ;");
    let (item, rest) = AsyncTraitItem::parse("const _ : () = () ;").unwrap();
    assert_eq!(item, AsyncTraitItem::Const("const _ : () = () ;".to_string()));
    assert_eq!(rest, "");
    let (item, _) = AsyncTraitItem::parse("const unsafe fn f () ;").unwrap();
    match item {
        AsyncTraitItem::Method(m) => {
            assert!(m.sig.constness && m.sig.unsafety && !m.sig.asyncness);
            assert!(m.semi_token);
            assert_eq!(m.default, None);
        }
        other => panic!("expected an operation, got {:?}", other),
    }
    let (item, _) = AsyncTraitItem::parse("# [doc (hidden)] type Item < 'a > : Clone where Self : 'a ;").unwrap();
    match item {
        AsyncTraitItem::Type(t) => {
            assert_eq!(t.ident, "Item");
            assert_eq!(t.text, "# [doc (hidden)] type Item < 'a > : Clone where Self : 'a ;");
        }
        other => panic!("expected an associated type, got {:?}", other),
    }
    let (item, rest) = AsyncTraitItem::parse(":: path :: to ! { x } fn f () ;").unwrap();
    assert_eq!(item, AsyncTraitItem::Macro(":: path :: to ! { x }".to_string()));
    assert_eq!(rest, "fn f () ;");
    let (item, _) = AsyncTraitItem::parse("self :: m ! () ;").unwrap();
    assert_eq!(item, AsyncTraitItem::Macro("self :: m ! () ;".to_string()));
}

#[test]
fn what_starts_no_member_is_refused() {
    let e = AsyncTraitItem::parse("struct S ;").unwrap_err();
    assert_eq!(e.kind, ParseErrorKind::Syntax);
    assert_eq!(
        e.message,
        "expected one of: `fn`, `const`, `type`, identifier, `self`, `super`, `crate`, `::`"
    );
    assert_eq!(e.rest, "struct S ;");
    let e = AsyncTraitItem::parse("const 3 ;").unwrap_err();
    assert_eq!(e.message, "expected one of: identifier, `_`, `async`, `unsafe`, `extern`, `fn`");
    assert_eq!(e.rest, "3 ;");
    let e = AsyncTraitItem::parse("").unwrap_err();
    assert_eq!(e.kind, ParseErrorKind::Syntax);
}

#[test]
fn a_qualified_member_is_unsupported_once_it_has_parsed() {
    let e = AsyncTraitItem::parse("pub (crate) fn f () ;").unwrap_err();
    assert_eq!(e.kind, ParseErrorKind::Unsupported);
    assert_eq!(e.rest, "pub (crate) fn f () ;");
    let e = AsyncTraitItem::parse("default type A ;").unwrap_err();
    assert_eq!(e.kind, ParseErrorKind::Unsupported);
    let e = AsyncTraitItem::parse("pub fn ;").unwrap_err();
    assert_eq!(e.kind, ParseErrorKind::Syntax);
}

#[test]
fn an_operation_keeps_its_default_body() {
    let (item, rest) = AsyncTraitItem::parse("# [inline] async fn f (& self) -> u8 { 1 + 1 } ; fn g () ;").unwrap();
    match item {
        AsyncTraitItem::Method(m) => {
            assert_eq!(m.attrs.len(), 1);
            assert_eq!(m.attrs[0].text, "# [inline]");
            assert!(!m.attrs[0].inner);
            assert!(m.sig.asyncness);
            assert_eq!(m.default, Some("{ 1 + 1 }".to_string()));
            assert!(m.semi_token);
        }
        other => panic!("expected an operation, got {:?}", other),
    }
    assert_eq!(rest, "fn g () ;");
}

#[test]
fn the_members_of_a_body_are_read_in_order() {
    let def = AsyncTraitDef::parse_all("trait T { fn a () ; type B ; const C : u8 ; d ! { } }").unwrap();
    let items = def.items;
    assert_eq!(items.len(), 4);
    assert!(matches!(items[0], AsyncTraitItem::Method(_)));
    assert!(matches!(items[1], AsyncTraitItem::Type(_)));
    assert!(matches!(items[2], AsyncTraitItem::Const(_)));
    assert!(matches!(items[3], AsyncTraitItem::Macro(_)));
    assert!(AsyncTraitDef::parse_all("trait T { }").unwrap().items.is_empty());
    let e = AsyncTraitDef::parse_all("trait T { fn a () ; + ; }").unwrap_err();
    assert_eq!(e.rest, "+ ;");
}

#[test]
fn a_signature_is_read_back_in_full() {
    let sig = parse_signature(
        "const async unsafe extern \"C\" fn get < 'a , # [x] T : Clone + 'a , const N : usize > (# [y] & 'a mut self , (a , b) : (T , u8) , ...) -> [T ; N] where T : Copy , Self : Sized",
    ).unwrap();
    assert!(sig.constness && sig.asyncness && sig.unsafety);
    assert_eq!(sig.abi, "extern \"C\"");
    assert_eq!(sig.ident, "get");
    assert_eq!(sig.generics.params.len(), 3);
    assert_eq!(sig.generics.params[0].kind, ParamKind::Lifetime);
    assert_eq!(sig.generics.params[0].name, "'a");
    assert_eq!(sig.generics.params[1].kind, ParamKind::Type);
    assert_eq!(sig.generics.params[1].attrs, "# [x]");
    assert_eq!(sig.generics.params[1].name, "T");
    assert_eq!(sig.generics.params[1].bounds, "Clone + 'a");
    assert_eq!(sig.generics.params[2].kind, ParamKind::Const);
    assert_eq!(sig.generics.params[2].name, "N");
    assert_eq!(sig.generics.params[2].bounds, "usize");
    assert_eq!(sig.generics.predicates, vec!["T : Copy".to_string(), "Self : Sized".to_string()]);
    assert_eq!(sig.inputs.len(), 2);
    match &sig.inputs[0] {
        FnArg::Receiver(r) => {
            assert_eq!(r.attrs, "# [y]");
            assert!(r.reference);
            assert_eq!(r.lifetime, "'a");
            assert!(r.mutability);
        }
        other => panic!("expected a receiver, got {:?}", other),
    }
    match &sig.inputs[1] {
        FnArg::Typed(t) => {
            assert_eq!(t.pat, "(a , b)");
            assert_eq!(t.ty, "(T , u8)");
        }
        other => panic!("expected a typed parameter, got {:?}", other),
    }
    assert_eq!(sig.variadic, "...");
    assert_eq!(sig.output, "[T ; N]");
    assert_eq!(parse_signature("fn"), None);
}

#[test]
fn a_parameter_is_read_back() {
    match parse_arg("mut self").unwrap() {
        FnArg::Receiver(r) => {
            assert!(!r.reference);
            assert!(r.mutability);
            assert_eq!(r.lifetime, "");
        }
        other => panic!("expected a receiver, got {:?}", other),
    }
    match parse_arg("self : Box < Self >").unwrap() {
        FnArg::Typed(t) => {
            assert_eq!(t.pat, "self");
            assert_eq!(t.ty, "Box < Self >");
        }
        other => panic!("expected a typed parameter, got {:?}", other),
    }
    assert_eq!(parse_arg("+"), None);
}

#[test]
fn a_generic_parameter_is_read_back() {
    let p = parse_param("T : ? Sized = u8").unwrap();
    assert_eq!(p.kind, ParamKind::Type);
    assert_eq!(p.name, "T");
    assert_eq!(p.bounds, "? Sized");
    assert_eq!(p.default, "u8");
    let p = parse_param("'a : 'b + 'c").unwrap();
    assert_eq!(p.kind, ParamKind::Lifetime);
    assert_eq!(p.bounds, "'b + 'c");
    let p = parse_param("const N : usize = 3").unwrap();
    assert_eq!(p.kind, ParamKind::Const);
    assert_eq!(p.default, "3");
    assert_eq!(parse_param("3"), None);
}

#[test]
fn a_text_is_printed_with_single_spaces() {
    assert_eq!(tokenize("fn  f( a:u8 )->u8{a}").unwrap(), "fn f (a : u8) -> u8 { a }");
    assert_eq!(tokenize("   ").unwrap(), "");
    let e = tokenize("fn f(").unwrap_err();
    assert_eq!(e.kind, ParseErrorKind::Lex);
    assert_eq!(e.rest, "fn f(");
}
