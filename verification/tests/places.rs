use fast_async_trait::error::ParseErrorKind;
use fast_async_trait::place::{count_trees, Place};
use fast_async_trait::rewrite::RewriteError;
use fast_async_trait::{AsyncItemImpl, AsyncTraitDef};

#[test]
fn token_trees_are_counted() {
    assert_eq!(count_trees(""), 0);
    assert_eq!(count_trees("trait T { fn f () ; }"), 3);
    assert_eq!(count_trees("fn f () ;"), 4);
    assert_eq!(count_trees("& 'a mut self"), 5);
    assert_eq!(count_trees("a :: b"), 4);
    assert_eq!(count_trees("fn f ("), 0);
}

#[test]
fn an_error_in_the_declaration_is_placed_among_its_token_trees() {
    let input = "trait T: A B { }";
    let e = AsyncTraitDef::parse_all(input).unwrap_err();
    assert_eq!(e.rest, "B { }");
    assert_eq!(e.enclosing, None);
    assert_eq!(e.place(input), Place { group: None, index: 4 });
    let input = "struct S;";
    let e = AsyncTraitDef::parse_all(input).unwrap_err();
    assert_eq!(e.place(input), Place { group: None, index: 0 });
    let input = "trait T { } trailing";
    let e = AsyncTraitDef::parse_all(input).unwrap_err();
    assert_eq!(e.message, "unexpected token");
    assert_eq!(e.place(input), Place { group: None, index: 3 });
    let input = "trait T";
    let e = AsyncTraitDef::parse_all(input).unwrap_err();
    assert_eq!(e.message, "expected curly braces");
    assert_eq!(e.place(input), Place { group: None, index: 2 });
}

#[test]
fn an_error_in_the_body_is_placed_among_the_token_trees_of_the_body() {
    let input = "pub trait T<X> where X: Copy { fn a(); + ; }";
    let e = AsyncTraitDef::parse_all(input).unwrap_err();
    assert_eq!(e.rest, "+ ;");
    assert_eq!(e.enclosing, Some("{ fn a () ; + ; }".to_string()));
    assert_eq!(e.place(input), Place { group: Some(10), index: 4 });
    let input = "trait T { fn a(); pub fn b(); }";
    let e = AsyncTraitDef::parse_all(input).unwrap_err();
    assert_eq!(e.kind, ParseErrorKind::Unsupported);
    assert_eq!(e.place(input), Place { group: Some(2), index: 4 });
    let input = "impl Tr for X { fn a() { } async fn b(&self); }";
    let e = AsyncItemImpl::parse_all(input).unwrap_err();
    assert_eq!(e.kind, ParseErrorKind::Unsupported);
    assert_eq!(e.place(input), Place { group: Some(4), index: 4 });
    let input = "impl Tr for X<{ 1 }> { fn a() { } fn }";
    let e = AsyncItemImpl::parse_all(input).unwrap_err();
    assert_eq!(e.place(input), Place { group: Some(7), index: 5 });
}

#[test]
fn a_text_that_is_no_token_stream_is_refused_at_its_start() {
    let input = "trait T { ";
    let e = AsyncTraitDef::parse_all(input).unwrap_err();
    assert_eq!(e.kind, ParseErrorKind::Lex);
    assert_eq!(e.place(input), Place { group: None, index: 0 });
}

#[test]
fn an_error_inside_a_member_is_placed_where_the_parser_stopped() {
    let input = "trait T { fn }";
    let e = AsyncTraitDef::parse_all(input).unwrap_err();
    assert_eq!(e.kind, ParseErrorKind::Syntax);
    assert_eq!(e.rest, "");
    assert_eq!(e.place(input), Place { group: Some(2), index: 1 });
    let input = "impl Tr for Ty { fn }";
    let e = AsyncItemImpl::parse_all(input).unwrap_err();
    assert_eq!(e.rest, "");
    assert_eq!(e.place(input), Place { group: Some(4), index: 1 });
    let input = "trait T { fn a(); fn b() -> ; fn c(); }";
    let e = AsyncTraitDef::parse_all(input).unwrap_err();
    assert_eq!(e.rest, "; fn c () ;");
    assert_eq!(e.place(input), Place { group: Some(2), index: 9 });
    let input = "trait T { type A = ; }";
    let e = AsyncTraitDef::parse_all(input).unwrap_err();
    assert_eq!(e.place(input), Place { group: Some(2), index: 3 });
}

#[test]
fn a_declaration_that_breaks_off_is_placed_at_its_end() {
    let input = "impl Tr for Ty";
    let e = AsyncItemImpl::parse_all(input).unwrap_err();
    assert_eq!(e.message, "expected curly braces");
    assert_eq!(e.place(input), Place { group: None, index: 4 });
    let input = "struct S { }";
    let e = AsyncTraitDef::parse_all(input).unwrap_err();
    assert_eq!(e.rest, "struct S { }");
    assert_eq!(e.place(input), Place { group: None, index: 0 });
    let input = "impl Tr for";
    let e = AsyncItemImpl::parse_all(input).unwrap_err();
    assert_eq!(e.rest, "");
    assert_eq!(e.place(input), Place { group: None, index: 3 });
}

#[test]
fn an_error_inside_a_group_of_a_member_is_placed_after_the_group() {
    let input = "trait T { fn f(a: ); fn g(); }";
    let e = AsyncTraitDef::parse_all(input).unwrap_err();
    assert_eq!(e.rest, "; fn g () ;");
    assert_eq!(e.place(input), Place { group: Some(2), index: 3 });
}

#[test]
fn a_refused_lifetime_is_placed_at_its_quote() {
    let input = "trait T { fn other<'b>(&self); async fn get<'a, 'b>(&'a self, o: &'b u8) -> u8; }";
    let e = match fast_async_trait::async_trait_def("", input) {
        Err(fast_async_trait::Error::Rewrite(e)) => e,
        other => panic!("expected a refused operation, got {:?}", other),
    };
    assert_eq!(e.place(input), Place { group: Some(2), index: 15 });
    let input = "impl Tr for X { async fn get<T>(&self, o: &'static T, p: &'x T) where T: 'x { } }";
    let e = RewriteError::MultipleLifetimes {
        operation: "get".to_string(),
        lifetime: "'x".to_string(),
        index: 1,
    };
    assert_eq!(e.place(input), Place { group: Some(4), index: 10 });
    assert_eq!(e.place("impl Tr for X { fn get () { } }"), Place { group: None, index: 0 });
    assert_eq!(e.place("impl Tr for X { fn other < 'x > () { } }"), Place { group: None, index: 0 });
    assert_eq!(e.place("impl Tr for X { "), Place { group: None, index: 0 });
}
