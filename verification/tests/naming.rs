use fast_async_trait::naming::to_pascal_case;

#[test]
fn pascal_case_joins_words() {
    assert_eq!(to_pascal_case("by_ref_default"), "ByRefDefault");
    assert_eq!(to_pascal_case("next"), "Next");
    assert_eq!(to_pascal_case("owned"), "Owned");
}

#[test]
fn pascal_case_drops_every_underscore() {
    assert_eq!(to_pascal_case(""), "");
    assert_eq!(to_pascal_case("_"), "");
    assert_eq!(to_pascal_case("__a__b_"), "AB");
    assert_eq!(to_pascal_case("_n"), "N");
}

#[test]
fn pascal_case_copies_what_does_not_start_a_word() {
    assert_eq!(to_pascal_case("fooBar"), "FooBar");
    assert_eq!(to_pascal_case("HTTP_get"), "HTTPGet");
    assert_eq!(to_pascal_case("a_1b"), "A1b");
}

#[test]
fn pascal_case_uses_the_uppercase_mapping_of_the_alphabet() {
    assert_eq!(to_pascal_case("\u{f1}andu_\u{e9}coute"), "\u{d1}andu\u{c9}coute");
    assert_eq!(to_pascal_case("\u{df}eta"), "SSeta");
}

#[test]
fn differently_named_operations_may_share_a_pascal_case_name() {
    assert_eq!(to_pascal_case("foo_bar"), to_pascal_case("fooBar"));
    assert_eq!(to_pascal_case("get"), to_pascal_case("_get"));
}
