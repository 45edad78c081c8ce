use fast_async_trait::def::{choose_member, MemberKind, MemberLook, Unexpected};
use fast_async_trait::imp::{
    decide_target, is_applicable, starts_generics, GenericsLook, TargetError, TargetShape,
};
use fast_async_trait::primitive::Token;

fn nothing() -> MemberLook {
    MemberLook {
        fn_ahead: false,
        signature_ahead: false,
        const_ahead: false,
        name_second: false,
        qualifier_second: false,
        type_ahead: false,
        path_ahead: false,
    }
}

#[test]
fn the_kind_of_a_member_follows_from_its_first_tokens() {
    assert_eq!(choose_member(nothing()), Err(Unexpected::First));
    assert_eq!(choose_member(MemberLook { fn_ahead: true, ..nothing() }), Ok(MemberKind::Method));
    assert_eq!(
        choose_member(MemberLook { signature_ahead: true, const_ahead: true, name_second: true, ..nothing() }),
        Ok(MemberKind::Method)
    );
    assert_eq!(
        choose_member(MemberLook { const_ahead: true, name_second: true, ..nothing() }),
        Ok(MemberKind::Const)
    );
    assert_eq!(
        choose_member(MemberLook { const_ahead: true, qualifier_second: true, ..nothing() }),
        Ok(MemberKind::Method)
    );
    assert_eq!(
        choose_member(MemberLook { const_ahead: true, type_ahead: true, path_ahead: true, ..nothing() }),
        Err(Unexpected::AfterConst)
    );
    assert_eq!(
        choose_member(MemberLook { type_ahead: true, path_ahead: true, ..nothing() }),
        Ok(MemberKind::Type)
    );
    assert_eq!(choose_member(MemberLook { path_ahead: true, ..nothing() }), Ok(MemberKind::Macro));
}

fn no_angle() -> GenericsLook {
    GenericsLook {
        angle: false,
        close_second: false,
        pound_second: false,
        const_second: false,
        name_second: false,
        colon_third: false,
        comma_third: false,
        close_third: false,
        equals_third: false,
    }
}

#[test]
fn a_generics_list_is_told_from_a_type_in_angle_brackets() {
    let angle = GenericsLook { angle: true, ..no_angle() };
    assert!(!starts_generics(no_angle()));
    assert!(!starts_generics(angle));
    assert!(starts_generics(GenericsLook { close_second: true, ..angle }));
    assert!(starts_generics(GenericsLook { pound_second: true, ..angle }));
    assert!(starts_generics(GenericsLook { const_second: true, ..angle }));
    assert!(!starts_generics(GenericsLook { name_second: true, ..angle }));
    assert!(starts_generics(GenericsLook { name_second: true, colon_third: true, ..angle }));
    assert!(starts_generics(GenericsLook { name_second: true, comma_third: true, ..angle }));
    assert!(starts_generics(GenericsLook { name_second: true, close_third: true, ..angle }));
    assert!(starts_generics(GenericsLook { name_second: true, equals_third: true, ..angle }));
    assert!(!starts_generics(GenericsLook { colon_third: true, ..angle }));
    assert!(!starts_generics(GenericsLook { close_second: true, ..no_angle() }));
}

#[test]
fn the_target_of_a_block_is_decided() {
    let plain = Some(false);
    let qualified = Some(true);
    assert_eq!(decide_target(true, plain, false, false), Ok(TargetShape::Interface));
    assert_eq!(decide_target(true, plain, true, false), Ok(TargetShape::Interface));
    assert_eq!(decide_target(true, qualified, false, false), Err(TargetError::NotAPath));
    assert_eq!(decide_target(true, None, false, false), Err(TargetError::NotAPath));
    assert_eq!(decide_target(true, qualified, false, true), Ok(TargetShape::Unnamed));
    assert_eq!(decide_target(true, None, false, true), Ok(TargetShape::Unnamed));
    assert_eq!(decide_target(false, plain, false, false), Ok(TargetShape::Inherent));
    assert_eq!(decide_target(false, None, false, true), Ok(TargetShape::Inherent));
    assert_eq!(decide_target(false, qualified, false, false), Ok(TargetShape::Inherent));
    assert_eq!(decide_target(false, plain, true, false), Err(TargetError::NegativeInherent));
    assert_eq!(decide_target(false, plain, true, true), Err(TargetError::NegativeInherent));
}

#[test]
fn a_block_is_rewritten_unless_it_is_verbatim() {
    assert!(is_applicable(false, false, TargetShape::Interface));
    assert!(is_applicable(false, false, TargetShape::Inherent));
    assert!(!is_applicable(false, false, TargetShape::Unnamed));
    assert!(!is_applicable(true, false, TargetShape::Interface));
    assert!(!is_applicable(false, true, TargetShape::Inherent));
}

#[test]
fn a_token_is_classified() {
    let word = Token::Ident("fn".to_string());
    assert!(word.is_word("fn"));
    assert!(!word.is_word("f"));
    assert!(word.is_name());
    assert!(!word.is_sign('f'));
    let colon = Token::Punct(':', true);
    assert!(colon.is_sign(':'));
    assert!(colon.is_joined_sign(':'));
    assert!(!Token::Punct(':', false).is_joined_sign(':'));
    assert!(!colon.is_name());
    assert!(Token::Ident("_".to_string()).is_underscore());
    assert!(Token::Punct('_', false).is_underscore());
    assert!(!Token::Literal("_".to_string()).is_underscore());
    assert_eq!(Token::Group("{ a }".to_string(), "a".to_string()).braced(), Some("a".to_string()));
    assert_eq!(Token::Group("(a)".to_string(), "a".to_string()).braced(), None);
    assert_eq!(Token::Group(String::new(), String::new()).braced(), None);
    assert_eq!(Token::Literal("{".to_string()).braced(), None);
}
