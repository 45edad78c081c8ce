use fast_async_trait::error::ParseErrorKind;
use fast_async_trait::imp::{parse_impl, AsyncItemImpl, ImplItem};

#[test]
fn parses_an_implementation_of_an_interface() {
    let block = AsyncItemImpl::parse_all(
        "#[cfg(all())] unsafe impl<'a, T: Clone> Stream<T> for Pair<'a, T> where T: 'a {
            type Item = T;
            #[inline]
            pub async fn next(&mut self) -> Option<T> { None }
            fn size(&self) -> usize { 0 }
        }",
    ).unwrap();
    assert!(block.unsafety);
    assert!(!block.defaultness);
    assert_eq!(block.attrs.len(), 1);
    assert_eq!(block.generics.params.len(), 2);
    assert_eq!(block.generics.predicates.len(), 1);
    assert_eq!(block.trait_, Some((false, "Stream < T >".to_string())));
    assert_eq!(block.self_ty, "Pair < 'a , T >");
    assert_eq!(block.items.len(), 3);
    assert!(matches!(block.items[0], ImplItem::Other(_)));
    match &block.items[1] {
        ImplItem::Method(m) => {
            assert_eq!(m.vis, "pub");
            assert!(m.sig.asyncness);
            assert_eq!(m.sig.ident, "next");
            assert_eq!(m.sig.output, "Option < T >");
            assert_eq!(m.block, "{ None }");
            assert_eq!(m.attrs.len(), 1);
        }
        _ => panic!("expected an operation"),
    }
}

#[test]
fn parses_an_inherent_implementation() {
    let block = AsyncItemImpl::parse_all("impl Pair { }").unwrap();
    assert_eq!(block.trait_, None);
    assert_eq!(block.self_ty, "Pair");
    assert!(block.items.is_empty());
}

#[test]
fn a_type_in_angle_brackets_is_no_generics_list() {
    let block = AsyncItemImpl::parse_all("impl <T as Tr>::Out { }").unwrap();
    assert!(block.generics.params.is_empty());
    assert_eq!(block.self_ty, "< T as Tr > :: Out");
}

#[test]
fn accepts_a_negative_implementation_of_an_interface() {
    let block = AsyncItemImpl::parse_all("impl !Send for Pair { }").unwrap();
    assert_eq!(block.trait_, Some((true, "Send".to_string())));
}

#[test]
fn rejects_a_negative_inherent_implementation() {
    let e = AsyncItemImpl::parse_all("impl !Pair { }").unwrap_err();
    assert_eq!(e.kind, ParseErrorKind::Unsupported);
}

#[test]
fn rejects_an_interface_that_is_no_plain_path() {
    let e = AsyncItemImpl::parse_all("impl &T for Pair { }").unwrap_err();
    assert_eq!(e.kind, ParseErrorKind::Syntax);
    assert_eq!(e.message, "expected trait path");
}

#[test]
fn rejects_a_visibility_on_the_block() {
    let e = AsyncItemImpl::parse_all("pub impl Pair { }").unwrap_err();
    assert_eq!(e.kind, ParseErrorKind::Syntax);
    assert_eq!(e.message, "expected `impl`");
}

#[test]
fn a_verbatim_block_is_not_applicable() {
    let (block, rest) = parse_impl("pub impl Pair { }", true).unwrap();
    assert_eq!(block, None);
    assert_eq!(rest, "");
    let (block, _) = parse_impl("impl const Tr for Pair { }", true).unwrap();
    assert_eq!(block, None);
    let (block, _) = parse_impl("impl & T for Pair { }", true).unwrap();
    assert_eq!(block, None);
    let (block, _) = parse_impl("impl Tr for Pair { }", true).unwrap();
    assert!(block.is_some());
}

#[test]
fn rejects_tokens_after_the_block() {
    let e = AsyncItemImpl::parse_all("impl Pair { } struct S;").unwrap_err();
    assert_eq!(e.kind, ParseErrorKind::Syntax);
    assert_eq!(e.message, "unexpected token");
    assert_eq!(e.rest, "struct S ;");
}

#[test]
fn rejects_a_text_that_is_no_token_stream() {
    let e = AsyncItemImpl::parse_all("impl Pair { ").unwrap_err();
    assert_eq!(e.kind, ParseErrorKind::Lex);
}
