use fast_async_trait::lifetimes::{classify_receiver, find_second_lifetime, future_generics, ReceiverKind};
use fast_async_trait::syntax::{FnArg, GenericParam, Generics, ParamKind, PatType, Receiver};

fn receiver(reference: bool, lifetime: &str, mutability: bool) -> FnArg {
    FnArg::Receiver(Receiver {
        attrs: String::new(),
        reference,
        lifetime: lifetime.to_string(),
        mutability,
    })
}

fn typed(pat: &str, ty: &str) -> FnArg {
    FnArg::Typed(PatType { attrs: String::new(), pat: pat.to_string(), ty: ty.to_string() })
}

fn param(kind: ParamKind, name: &str) -> GenericParam {
    GenericParam {
        kind,
        attrs: String::new(),
        name: name.to_string(),
        bounds: String::new(),
        default: String::new(),
    }
}

fn no_generics() -> Generics {
    Generics { params: vec![], predicates: vec![] }
}

#[test]
fn a_receiver_by_value_adds_no_lifetime() {
    let mut inputs = vec![receiver(false, "", false), typed("n", "usize")];
    let mut generics = no_generics();
    let (bounds, main) = future_generics(&mut inputs, &mut generics);
    assert!(bounds.is_empty());
    assert_eq!(main, None);
    assert_eq!(inputs, vec![receiver(false, "", false), typed("n", "usize")]);
    assert_eq!(generics, no_generics());
}

#[test]
fn a_borrow_without_a_lifetime_gets_the_synthesized_one() {
    let mut inputs = vec![receiver(true, "", true), typed("n", "usize")];
    let mut generics = Generics {
        params: vec![param(ParamKind::Type, "T")],
        predicates: vec!["T : Clone".to_string()],
    };
    let (bounds, main) = future_generics(&mut inputs, &mut generics);
    assert_eq!(bounds, vec!["'__self__".to_string()]);
    assert_eq!(main, Some("'__self__".to_string()));
    assert_eq!(inputs, vec![receiver(true, "'__self__", true), typed("n", "usize")]);
    assert_eq!(
        generics.params,
        vec![param(ParamKind::Lifetime, "'__self__"), param(ParamKind::Type, "T")]
    );
    assert_eq!(
        generics.predicates,
        vec!["T : Clone".to_string(), "Self : '__self__".to_string()]
    );
}

#[test]
fn a_borrow_with_a_lifetime_reuses_it() {
    let mut inputs = vec![receiver(true, "'a", false)];
    let mut generics = Generics { params: vec![param(ParamKind::Lifetime, "'a")], predicates: vec![] };
    let (bounds, main) = future_generics(&mut inputs, &mut generics);
    assert_eq!(bounds, vec!["'a".to_string()]);
    assert_eq!(main, Some("'a".to_string()));
    assert_eq!(inputs, vec![receiver(true, "'a", false)]);
    assert_eq!(generics.params, vec![param(ParamKind::Lifetime, "'a")]);
    assert_eq!(generics.predicates, vec!["Self : 'a".to_string()]);
}

#[test]
fn only_the_first_parameter_is_looked_at() {
    let mut inputs = vec![typed("x", "u8"), receiver(true, "", false)];
    let mut generics = no_generics();
    let (bounds, main) = future_generics(&mut inputs, &mut generics);
    assert!(bounds.is_empty());
    assert_eq!(main, None);
    assert_eq!(inputs, vec![typed("x", "u8"), receiver(true, "", false)]);
    assert_eq!(generics, no_generics());
}

#[test]
fn no_parameter_is_no_receiver() {
    let mut inputs: Vec<FnArg> = vec![];
    let mut generics = no_generics();
    let (bounds, main) = future_generics(&mut inputs, &mut generics);
    assert!(bounds.is_empty());
    assert_eq!(main, None);
    assert!(inputs.is_empty());
}

#[test]
fn the_synthesized_lifetime_carries_the_attributes_of_the_receiver() {
    let mut inputs = vec![FnArg::Receiver(Receiver {
        attrs: "# [marker]".to_string(),
        reference: true,
        lifetime: String::new(),
        mutability: false,
    })];
    let mut generics = no_generics();
    let (bounds, _) = future_generics(&mut inputs, &mut generics);
    assert_eq!(generics.params[0].attrs, "# [marker]");
    assert_eq!(bounds, vec!["# [marker] '__self__".to_string()]);
}

#[test]
fn the_receiver_is_classified() {
    assert!(matches!(classify_receiver(&vec![]), ReceiverKind::Owned));
    assert!(matches!(classify_receiver(&vec![receiver(false, "", true)]), ReceiverKind::Owned));
    assert!(matches!(classify_receiver(&vec![receiver(true, "", false)]), ReceiverKind::Borrowed));
    match classify_receiver(&vec![receiver(true, "'x", true)]) {
        ReceiverKind::BorrowedFor(lifetime) => assert_eq!(lifetime, "'x"),
        _ => panic!("expected a borrow for a written lifetime"),
    }
}

#[test]
fn the_second_lifetime_is_found() {
    let l = |n: &str| param(ParamKind::Lifetime, n);
    let t = |n: &str| param(ParamKind::Type, n);
    assert_eq!(find_second_lifetime(&vec![]), None);
    assert_eq!(find_second_lifetime(&vec![l("'a")]), None);
    assert_eq!(find_second_lifetime(&vec![t("T"), l("'a"), t("U")]), None);
    assert_eq!(find_second_lifetime(&vec![l("'a"), l("'b")]), Some(1));
    assert_eq!(find_second_lifetime(&vec![t("T"), l("'a"), t("U"), l("'b"), l("'c")]), Some(3));
}
