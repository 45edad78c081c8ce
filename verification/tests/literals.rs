use fast_async_trait::def::peek_signature;
use fast_async_trait::error::ParseErrorKind;
use fast_async_trait::reader::{parse_arg, parse_param, parse_signature};
use fast_async_trait::token::{find_flaw, literal_is_known, Flaw};
use fast_async_trait::{
    async_trait_def, async_trait_impl, AsyncItemImpl, AsyncTraitDef, AsyncTraitItem,
    AsyncTraitItemMethod, Error,
};

fn refused(outcome: Result<String, Error>) -> String {
    match outcome {
        Err(Error::Parse(e)) => {
            assert_eq!(e.kind, ParseErrorKind::Unsupported);
            assert_eq!(e.message, "a literal of this form is not supported");
            e.rest
        }
        other => panic!("expected a refused literal, got {:?}", other),
    }
}

#[test]
fn the_forms_of_literals_are_told_apart() {
    for known in ["\"a\"", "r\"a\"", "r#\"a\"#", "b\"a\"", "br\"a\"", "b'a'", "'a'", "1", "1.5e3", "0xffu8", "-1"] {
        assert!(literal_is_known(known), "{}", known);
    }
    for unknown in ["c\"a\"", "cr\"a\"", "cr#\"a\"#", "", "bx", "b", "x"] {
        assert!(!literal_is_known(unknown), "{}", unknown);
    }
}

fn literal_at(text: &str) -> Option<String> {
    match find_flaw(text) {
        Some(Flaw::Literal(at)) => Some(at),
        Some(Flaw::Stalled(at)) => panic!("the text cannot be walked at {}", at),
        None => None,
    }
}

#[test]
fn a_literal_of_an_unknown_form_is_found_at_any_depth() {
    assert_eq!(literal_at("fn f () { g (\"a\" , 'b' , 1) ; }"), None);
    assert_eq!(literal_at(""), None);
    assert_eq!(literal_at("a c\"x\" b"), Some("c\"x\" b".to_string()));
    assert_eq!(
        literal_at("fn f () { g ([c\"x\"]) ; } after"),
        Some("{ g ([c\"x\"]) ; } after".to_string())
    );
    assert_eq!(literal_at("a b cr#\"x\"#"), Some("cr#\"x\"#".to_string()));
}

#[test]
fn the_group_of_an_attribute_is_not_looked_into() {
    assert_eq!(literal_at("# [link_section = c\"x\"] fn f () ;"), None);
    assert_eq!(literal_at("# ! [doc = c\"x\"] fn f () ;"), None);
    assert_eq!(literal_at("fn f () { # [a (c\"x\")] let x = 1 ; }"), None);
    assert_eq!(literal_at("# (c\"x\")"), Some("(c\"x\")".to_string()));
    assert_eq!(literal_at("! [c\"x\"]"), Some("[c\"x\"]".to_string()));
    assert_eq!(literal_at("# [a] [c\"x\"]"), Some("[c\"x\"]".to_string()));
    let out = async_trait_def(
        "",
        "#[export_name = c\"t\"] trait T { #![doc = c\"b\"] #[deprecated(note = c\"n\")] async fn f(self); }",
    ).unwrap();
    assert!(out.contains("# [export_name = c\"t\"] trait T { # ! [doc = c\"b\"] type F"));
    assert!(out.contains("# [deprecated (note = c\"n\")] fn f (self) -> Self :: F ;"));
}

#[test]
fn a_text_that_is_not_printed_as_its_tokens_cannot_be_walked() {
    assert!(matches!(find_flaw("fn f(a:u8);"), Some(Flaw::Stalled(_))));
    assert_eq!(find_flaw("fn f (a : u8) ;"), None);
}

#[test]
fn a_parser_of_one_node_splits_its_text_into_tokens_first() {
    let (item, rest) = AsyncTraitItem::parse("fn f(a:u8);type B;").unwrap();
    assert!(matches!(item, AsyncTraitItem::Method(_)));
    assert_eq!(rest, "type B ;");
    let (item, rest) = AsyncTraitItem::parse("::m::mac!();").unwrap();
    assert_eq!(item, AsyncTraitItem::Macro(":: m :: mac ! () ;".to_string()));
    assert_eq!(rest, "");
    let (method, _) = AsyncTraitItemMethod::parse("async fn f(&self)->u8{1}").unwrap();
    assert_eq!(method.default, Some("{ 1 }".to_string()));
    let (def, rest) = AsyncTraitDef::parse("trait T{fn f();}struct S;").unwrap();
    assert_eq!(def.items.len(), 1);
    assert_eq!(rest, "struct S ;");
    let (block, rest) = AsyncItemImpl::parse("impl<T>Tr for X<T>{}fn g(){}").unwrap();
    assert_eq!(block.self_ty, "X < T >");
    assert_eq!(rest, "fn g () { }");
    assert_eq!(parse_signature("fn f<T:Clone>(a:T)->T").unwrap().output, "T");
    assert_eq!(parse_param("T:Clone=u8").unwrap().default, "u8");
    assert!(parse_arg("&'a mut self").is_some());
    assert_eq!(AsyncTraitItem::parse("fn f(").unwrap_err().kind, ParseErrorKind::Lex);
}

#[test]
fn a_literal_in_the_arguments_of_a_macro_is_refused_too() {
    refused(async_trait_def("", "trait T { async fn f(&self) { log!(c\"x\") } }"));
    refused(async_trait_def("", "trait T { mac!(c\"x\"); }"));
    refused(async_trait_impl("", "impl Tr for X { fn f(&self) { log![c\"x\"]; } }"));
}

#[test]
fn the_look_ahead_for_a_signature_reads_only_the_name_of_the_calling_convention() {
    assert!(peek_signature("fn f () { c\"x\" }"));
    assert!(peek_signature("const async unsafe extern \"C\" fn f (x : [u8 ; c\"x\"])"));
    assert!(peek_signature("unsafe extern fn f () { c\"x\" }"));
    assert!(peek_signature("async   fn f(a:u8){c\"x\"}"));
    assert!(peek_signature("extern r#\"C\"# fn f ()"));
    assert!(!peek_signature("extern c\"C\" fn f ()"));
    assert!(!peek_signature("extern 1 fn f ()"));
    assert!(!peek_signature("extern b\"C\" fn f ()"));
    assert!(!peek_signature("extern \"C\" \"D\" fn f ()"));
    assert!(!peek_signature("extern (fn) f"));
    assert!(!peek_signature("c\"x\" fn f ()"));
    assert!(!peek_signature("async const fn f ()"));
}

#[test]
fn a_constant_with_such_a_literal_is_refused() {
    let rest = refused(async_trait_def("", "trait T { const X: u8 = c\"a\"; }"));
    assert_eq!(rest, "{ const X : u8 = c\"a\" ; }");
}

#[test]
fn a_default_body_with_such_a_literal_is_refused() {
    refused(async_trait_def("", "trait T { async fn f(&self) { c\"x\" } }"));
    refused(async_trait_impl("", "impl T for X { async fn f(&self) { c\"x\" } }"));
    refused(async_trait_impl("", "impl T for X { fn f(&self) { g(cr\"x\") } }"));
}

#[test]
fn a_calling_convention_with_such_a_literal_is_refused() {
    refused(async_trait_def("", "trait T { extern c\"C\" fn f(); }"));
    assert!(peek_signature("extern \"C\" fn f ()"));
}

#[test]
fn a_type_or_a_bound_with_such_a_literal_is_refused() {
    refused(async_trait_def("", "trait T: Tr<c\"x\"> { }"));
    refused(async_trait_def("", "trait T<X: Tr<c\"x\">> { }"));
    refused(async_trait_def("", "trait T where u8: Tr<c\"x\"> { }"));
    refused(async_trait_def("", "trait T { type A: Tr<c\"x\">; }"));
    refused(async_trait_def("", "trait T { fn f(x: Tr<c\"x\">); }"));
    refused(async_trait_impl("", "impl Tr<c\"x\"> for X { }"));
    refused(async_trait_impl("", "impl<A: Tr<c\"x\">> Tr for X { }"));
    refused(async_trait_impl("", "impl Tr for X<c\"x\"> { }"));
    refused(async_trait_impl("", "impl Tr for X { type A = Y<c\"x\">; }"));
}

#[test]
fn every_parser_refuses_such_a_literal() {
    let text = "extern c\"C\" fn f () ;";
    assert_eq!(AsyncTraitItem::parse(text).unwrap_err().kind, ParseErrorKind::Unsupported);
    assert_eq!(AsyncTraitItemMethod::parse(text).unwrap_err().kind, ParseErrorKind::Unsupported);
    assert_eq!(
        AsyncTraitDef::parse("trait T { const X : u8 = c\"a\" ; }").unwrap_err().kind,
        ParseErrorKind::Unsupported
    );
    assert_eq!(
        AsyncItemImpl::parse("impl T for X < c\"a\" > { }").unwrap_err().kind,
        ParseErrorKind::Unsupported
    );
    assert_eq!(parse_signature("extern c\"C\" fn f ()"), None);
    assert_eq!(parse_param("const N : u8 = c\"a\""), None);
    assert_eq!(parse_arg("x : Tr < c\"a\" >"), None);
}

#[test]
fn the_other_literals_pass() {
    let source = "trait T { const A: &'static str = \"c\\\"x\\\"\"; const B: &'static [u8] = b\"c\"; fn f() { g(r#\"c\"x\"\"#, 'c', 1) } }";
    let out = async_trait_def("", source).unwrap();
    assert!(out.contains("\"c\\\"x\\\"\""));
    assert!(out.contains("r#\"c\"x\"\"#"));
}
