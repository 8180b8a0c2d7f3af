use sol_ast::item::{
    ContractKind, FunctionKind, IdentOrStrLit, ImportDirective, ImportItems, PragmaTokens,
    StateMutability, Storage, UserDefinableOperator, UsingDirective, UsingList, VarMut,
    Visibility,
};
use sol_ast::leaf::{Ident, Path, SemverReq, Span, StrLit, Token, Ty};

fn sp(lo: u32, hi: u32) -> Span {
    Span { lo, hi }
}

fn ident(name: &str) -> Ident {
    Ident { name: name.to_string(), span: sp(0, name.len() as u32) }
}

fn str_lit(value: &str) -> StrLit {
    StrLit { value: value.to_string(), span: sp(0, value.len() as u32 + 2) }
}

fn path(segments: &[&str]) -> Path {
    Path { segments: segments.iter().map(|s| ident(s)).collect() }
}

#[test]
fn contract_kind_to_str_injective_and_stable() {
    let kinds = [
        ContractKind::Contract,
        ContractKind::AbstractContract,
        ContractKind::Interface,
        ContractKind::Library,
    ];
    let strs: Vec<&str> = kinds.iter().map(|k| k.to_str()).collect();
    assert_eq!(strs, ["contract", "abstract contract", "interface", "library"]);
    for (i, a) in strs.iter().enumerate() {
        for (j, b) in strs.iter().enumerate() {
            assert_eq!(i == j, a == b);
        }
    }
    for k in kinds {
        assert_eq!(k.to_str(), k.to_str());
    }
}

#[test]
fn function_kind_to_str_injective_and_stable() {
    let kinds = [
        FunctionKind::Constructor,
        FunctionKind::Function,
        FunctionKind::Fallback,
        FunctionKind::Receive,
        FunctionKind::Modifier,
    ];
    let strs: Vec<&str> = kinds.iter().map(|k| k.to_str()).collect();
    assert_eq!(strs, ["constructor", "function", "fallback", "receive", "modifier"]);
    for (i, a) in strs.iter().enumerate() {
        for (j, b) in strs.iter().enumerate() {
            assert_eq!(i == j, a == b);
        }
    }
    for k in kinds {
        assert_eq!(k.to_str(), k.to_str());
    }
}

#[test]
fn storage_to_str_injective_and_stable() {
    let kinds = [Storage::Memory, Storage::Storage, Storage::Calldata];
    let strs: Vec<&str> = kinds.iter().map(|k| k.to_str()).collect();
    assert_eq!(strs, ["memory", "storage", "calldata"]);
    for (i, a) in strs.iter().enumerate() {
        for (j, b) in strs.iter().enumerate() {
            assert_eq!(i == j, a == b);
        }
    }
    for k in kinds {
        assert_eq!(k.to_str(), k.to_str());
    }
}

#[test]
fn state_mutability_to_str_injective_and_stable() {
    let kinds = [StateMutability::Pure, StateMutability::View, StateMutability::Payable];
    let strs: Vec<&str> = kinds.iter().map(|k| k.to_str()).collect();
    assert_eq!(strs, ["pure", "view", "payable"]);
    for (i, a) in strs.iter().enumerate() {
        for (j, b) in strs.iter().enumerate() {
            assert_eq!(i == j, a == b);
        }
    }
    for k in kinds {
        assert_eq!(k.to_str(), k.to_str());
    }
}

#[test]
fn visibility_to_str_injective_and_stable() {
    let kinds =
        [Visibility::Private, Visibility::Internal, Visibility::Public, Visibility::External];
    let strs: Vec<&str> = kinds.iter().map(|k| k.to_str()).collect();
    assert_eq!(strs, ["private", "internal", "public", "external"]);
    for (i, a) in strs.iter().enumerate() {
        for (j, b) in strs.iter().enumerate() {
            assert_eq!(i == j, a == b);
        }
    }
    for k in kinds {
        assert_eq!(k.to_str(), k.to_str());
    }
}

#[test]
fn var_mut_to_str_injective_and_stable() {
    let kinds = [VarMut::Immutable, VarMut::Constant];
    let strs: Vec<&str> = kinds.iter().map(|k| k.to_str()).collect();
    assert_eq!(strs, ["immutable", "constant"]);
    for (i, a) in strs.iter().enumerate() {
        for (j, b) in strs.iter().enumerate() {
            assert_eq!(i == j, a == b);
        }
    }
    for k in kinds {
        assert_eq!(k.to_str(), k.to_str());
    }
}

#[test]
fn ident_and_str_lit_value_agree() {
    let a = IdentOrStrLit::Ident(ident("foo"));
    let b = IdentOrStrLit::StrLit(str_lit("foo"));
    assert_eq!(a.value(), "foo");
    assert_eq!(b.value(), "foo");
    assert_eq!(a.value(), b.value());
}

#[test]
fn ident_or_str_lit_span_follows_variant() {
    let a = IdentOrStrLit::Ident(Ident { name: "foo".to_string(), span: sp(7, 10) });
    let b = IdentOrStrLit::StrLit(StrLit { value: "foo".to_string(), span: sp(3, 8) });
    assert_eq!(a.span(), sp(7, 10));
    assert_eq!(b.span(), sp(3, 8));
}

#[test]
fn as_name_and_value_some_only_for_custom() {
    let version = PragmaTokens::Version(ident("solidity"), SemverReq { tokens: Vec::new() });
    assert!(version.as_name_and_value().is_none());

    let verbatim = PragmaTokens::Verbatim(vec![Token::Other("???".to_string(), sp(0, 3))]);
    assert!(verbatim.as_name_and_value().is_none());

    let custom =
        PragmaTokens::Custom(IdentOrStrLit::Ident(ident("hello")), None);
    let (name, value) = custom.as_name_and_value().unwrap();
    assert_eq!(name.value(), "hello");
    assert!(value.is_none());

    let custom2 = PragmaTokens::Custom(
        IdentOrStrLit::Ident(ident("hello")),
        Some(IdentOrStrLit::StrLit(str_lit("world"))),
    );
    let (name2, value2) = custom2.as_name_and_value().unwrap();
    assert_eq!(name2.value(), "hello");
    assert_eq!(value2.unwrap().value(), "world");
}

#[test]
fn pragma_solidity_tokens_become_version() {
    let tokens = vec![
        Token::Ident(ident("solidity")),
        Token::Other("^".to_string(), sp(9, 10)),
        Token::Other("0.8.0".to_string(), sp(10, 15)),
    ];
    match PragmaTokens::from_tokens(tokens) {
        PragmaTokens::Version(name, req) => {
            assert_eq!(name.as_str(), "solidity");
            assert_eq!(req.tokens.len(), 2);
            match &req.tokens[0] {
                Token::Other(text, _) => assert_eq!(text, "^"),
                _ => panic!("expected the raw requirement tokens"),
            }
            match &req.tokens[1] {
                Token::Other(text, _) => assert_eq!(text, "0.8.0"),
                _ => panic!("expected the raw requirement tokens"),
            }
        }
        _ => panic!("expected the version shape"),
    }
}

#[test]
fn pragma_name_and_value_become_custom() {
    let tokens = vec![Token::Ident(ident("abicoder")), Token::Ident(ident("v2"))];
    match PragmaTokens::from_tokens(tokens) {
        PragmaTokens::Custom(name, value) => {
            assert_eq!(name.value(), "abicoder");
            assert_eq!(value.unwrap().value(), "v2");
        }
        _ => panic!("expected the custom shape"),
    }
}

#[test]
fn pragma_lone_name_becomes_custom_without_value() {
    let tokens = vec![Token::Ident(ident("hello"))];
    match PragmaTokens::from_tokens(tokens) {
        PragmaTokens::Custom(name, value) => {
            assert_eq!(name.value(), "hello");
            assert!(value.is_none());
        }
        _ => panic!("expected the custom shape"),
    }
}

#[test]
fn pragma_string_literal_name_becomes_custom() {
    let tokens = vec![Token::StrLit(str_lit("hello")), Token::Ident(ident("world"))];
    match PragmaTokens::from_tokens(tokens) {
        PragmaTokens::Custom(name, value) => {
            assert!(matches!(name, IdentOrStrLit::StrLit(_)));
            assert_eq!(name.value(), "hello");
            assert_eq!(value.unwrap().value(), "world");
        }
        _ => panic!("expected the custom shape"),
    }
}

#[test]
fn pragma_solidity_only_counts_in_first_position() {
    let tokens = vec![Token::Ident(ident("experimental")), Token::Ident(ident("solidity"))];
    match PragmaTokens::from_tokens(tokens) {
        PragmaTokens::Custom(name, value) => {
            assert_eq!(name.value(), "experimental");
            assert_eq!(value.unwrap().value(), "solidity");
        }
        _ => panic!("expected the custom shape"),
    }
}

#[test]
fn pragma_lone_solidity_is_a_version_with_empty_requirement() {
    let tokens = vec![Token::Ident(ident("solidity"))];
    match PragmaTokens::from_tokens(tokens) {
        PragmaTokens::Version(name, req) => {
            assert_eq!(name.as_str(), "solidity");
            assert!(req.tokens.is_empty());
        }
        _ => panic!("expected the version shape"),
    }
}

#[test]
fn visibility_discriminant_order_is_meaningful() {
    assert!((Visibility::Private as u8) < (Visibility::Internal as u8));
    assert!((Visibility::Internal as u8) < (Visibility::Public as u8));
    assert!((Visibility::Public as u8) < (Visibility::External as u8));
}

#[test]
fn pragma_other_shapes_stay_verbatim_in_order() {
    let tokens = vec![
        Token::Ident(ident("a")),
        Token::Other("+".to_string(), sp(1, 2)),
        Token::Ident(ident("b")),
    ];
    match PragmaTokens::from_tokens(tokens) {
        PragmaTokens::Verbatim(kept) => {
            assert_eq!(kept.len(), 3);
            assert!(matches!(&kept[0], Token::Ident(i) if i.name == "a"));
            assert!(matches!(&kept[1], Token::Other(t, _) if t == "+"));
            assert!(matches!(&kept[2], Token::Ident(i) if i.name == "b"));
        }
        _ => panic!("expected the verbatim shape"),
    }
}

#[test]
fn pragma_empty_token_run_stays_verbatim() {
    match PragmaTokens::from_tokens(Vec::new()) {
        PragmaTokens::Verbatim(kept) => assert!(kept.is_empty()),
        _ => panic!("expected the verbatim shape"),
    }
}

#[test]
fn pragma_lone_other_token_stays_verbatim() {
    let tokens = vec![Token::Other("???".to_string(), sp(0, 3))];
    match PragmaTokens::from_tokens(tokens) {
        PragmaTokens::Verbatim(kept) => {
            assert_eq!(kept.len(), 1);
            assert!(matches!(&kept[0], Token::Other(t, _) if t == "???"));
        }
        _ => panic!("expected the verbatim shape"),
    }
}

#[test]
fn using_directive_with_operator_list() {
    let directive = UsingDirective {
        list: UsingList::Multiple(vec![
            (path(&["A"]), None),
            (path(&["B", "add"]), Some(UserDefinableOperator::Add)),
        ]),
        ty: Some(Ty { span: sp(30, 37) }),
        global: true,
    };
    assert!(directive.global);
    assert!(directive.ty.is_some());
    match &directive.list {
        UsingList::Multiple(entries) => {
            assert_eq!(entries.len(), 2);
            assert!(entries[0].1.is_none());
            assert_eq!(entries[0].0.segments.len(), 1);
            assert_eq!(entries[0].0.segments[0].name, "A");
            assert_eq!(entries[1].1, Some(UserDefinableOperator::Add));
            assert_eq!(entries[1].0.segments.len(), 2);
            assert_eq!(entries[1].0.segments[0].name, "B");
            assert_eq!(entries[1].0.segments[1].name, "add");
        }
        UsingList::Single(_) => panic!("expected the list form"),
    }
}

#[test]
fn glob_import_with_alias() {
    let directive = ImportDirective {
        path: str_lit("foo.sol"),
        items: ImportItems::Glob(Some(ident("Foo"))),
    };
    assert_eq!(directive.path.value, "foo.sol");
    match &directive.items {
        ImportItems::Glob(Some(alias)) => assert_eq!(alias.name, "Foo"),
        _ => panic!("expected a glob import with an alias"),
    }
}
