use contract_macros::{
    method, register_method, synthesize, Action, AttributeArg, Binding, Entry, EntryDecl, Error,
    FallbackPolicy, GeneratedEntry, Literal, MethodDecl, Param, Registry,
};

fn attr(text: &str) -> Vec<AttributeArg> {
    vec![AttributeArg::NameValue { key: "opcode".to_string(), value: Literal::Int(text.to_string()) }]
}

fn handler(name: &str, params: Vec<(&str, &str)>) -> MethodDecl {
    MethodDecl {
        name: name.to_string(),
        visibility: String::new(),
        return_type: Some("i32".to_string()),
        params: params
            .into_iter()
            .map(|(n, t)| Param { binding: Binding::Ident(n.to_string()), ty: t.to_string() })
            .collect(),
        body: "{ 1 }".to_string(),
    }
}

fn entry_decl(return_type: Option<&str>, body: &str) -> EntryDecl {
    EntryDecl { return_type: return_type.map(|t| t.to_string()), body: body.to_string() }
}

fn ping_and_echo() -> Registry {
    let mut r = Registry::new();
    assert!(method(&mut r, &attr("1"), handler("ping", vec![])).is_ok());
    assert!(method(&mut r, &attr("2"), handler("echo", vec![("value", "i32")])).is_ok());
    r
}

#[test]
fn ping_and_echo_dispatch() {
    let mut r = ping_and_echo();
    let g = contract_macros::main(&mut r, entry_decl(Some("i32"), "setup();")).unwrap();
    assert!(g.reads_opcode());
    assert_eq!(
        g,
        GeneratedEntry::Dispatch {
            return_type: Some("i32".to_string()),
            preamble: "setup();".to_string(),
            result_type: "i32".to_string(),
            arms: vec![
                Entry { opcode: 1, name: "ping".to_string(), has_args: false },
                Entry { opcode: 2, name: "echo".to_string(), has_args: true },
            ],
            unmatched: FallbackPolicy::Lenient,
        }
    );
    assert_eq!(g.dispatch(1), Action::Call { handler: "ping".to_string(), decode_argument: false });
    assert_eq!(g.dispatch(2), Action::Call { handler: "echo".to_string(), decode_argument: true });
    assert_eq!(g.dispatch(9), Action::Fallback);
    assert_eq!(g.dispatch(0), Action::Fallback);
    assert_eq!(g.dispatch(255), Action::Fallback);
}

#[test]
fn no_methods_gives_the_body_alone() {
    let mut r = Registry::new();
    let g = contract_macros::main(&mut r, entry_decl(Some("u64"), "let x = 1; x")).unwrap();
    assert_eq!(
        g,
        GeneratedEntry::Direct { return_type: Some("u64".to_string()), body: "let x = 1; x".to_string() }
    );
    assert!(!g.reads_opcode());
    for code in [0u8, 1, 9, 255] {
        assert_eq!(g.dispatch(code), Action::Finish);
    }
    assert!(r.is_closed());
}

#[test]
fn destructuring_parameter_contributes_no_entry() {
    let mut r = ping_and_echo();
    let d = MethodDecl {
        name: "swap".to_string(),
        visibility: "pub".to_string(),
        return_type: None,
        params: vec![Param { binding: Binding::Pattern, ty: "(i32, i32)".to_string() }],
        body: "{}".to_string(),
    };
    assert_eq!(
        method(&mut r, &attr("3"), d),
        Err(Error::UnsupportedParameterPattern { method: "swap".to_string() })
    );
    assert_eq!(r.len(), 2);
    let g = contract_macros::main(&mut r, entry_decl(None, "")).unwrap();
    assert_eq!(g.dispatch(3), Action::Fallback);
}

#[test]
fn undeclared_return_type_defaults_to_i32() {
    let mut r = ping_and_echo();
    match contract_macros::main(&mut r, entry_decl(None, "")).unwrap() {
        GeneratedEntry::Dispatch { return_type, result_type, .. } => {
            assert_eq!(return_type, None);
            assert_eq!(result_type, "i32");
        }
        other => panic!("unexpected {:?}", other),
    }
}

#[test]
fn declared_return_type_is_the_result_type() {
    let mut r = ping_and_echo();
    match contract_macros::main(&mut r, entry_decl(Some("u128"), "")).unwrap() {
        GeneratedEntry::Dispatch { return_type, result_type, .. } => {
            assert_eq!(return_type, Some("u128".to_string()));
            assert_eq!(result_type, "u128");
        }
        other => panic!("unexpected {:?}", other),
    }
}

#[test]
fn second_synthesis_fails() {
    let mut r = ping_and_echo();
    assert!(contract_macros::main(&mut r, entry_decl(None, "")).is_ok());
    assert_eq!(contract_macros::main(&mut r, entry_decl(None, "")), Err(Error::EntryAlreadySynthesized));
    assert_eq!(
        synthesize(&mut r, entry_decl(None, ""), FallbackPolicy::Strict),
        Err(Error::EntryAlreadySynthesized)
    );
    assert_eq!(r.len(), 2);
}

#[test]
fn second_synthesis_fails_on_empty_registry() {
    let mut r = Registry::new();
    assert!(contract_macros::main(&mut r, entry_decl(None, "")).is_ok());
    assert_eq!(contract_macros::main(&mut r, entry_decl(None, "")), Err(Error::EntryAlreadySynthesized));
}

#[test]
fn registration_after_synthesis_fails() {
    let mut r = ping_and_echo();
    let before = r.snapshot();
    assert!(contract_macros::main(&mut r, entry_decl(None, "")).is_ok());
    assert_eq!(method(&mut r, &attr("3"), handler("late", vec![])), Err(Error::RegistrationAfterClose));
    assert_eq!(register_method(&mut r, handler("late", vec![]), 1), Err(Error::RegistrationAfterClose));
    assert_eq!(r.snapshot(), before);
}

#[test]
fn strict_entry_rejects_unregistered_opcode() {
    let mut r = ping_and_echo();
    let g = synthesize(&mut r, entry_decl(Some("i32"), ""), FallbackPolicy::Strict).unwrap();
    assert_eq!(g.dispatch(1), Action::Call { handler: "ping".to_string(), decode_argument: false });
    assert_eq!(g.dispatch(9), Action::Reject);
}

#[test]
fn arms_follow_registration_order() {
    let mut r = Registry::new();
    for (op, name) in [("9", "i"), ("0x02", "b"), ("250", "z")] {
        assert!(method(&mut r, &attr(op), handler(name, vec![])).is_ok());
    }
    match contract_macros::main(&mut r, entry_decl(None, "")).unwrap() {
        GeneratedEntry::Dispatch { arms, .. } => {
            let order: Vec<(u8, String)> = arms.into_iter().map(|e| (e.opcode, e.name)).collect();
            assert_eq!(order, vec![(9, "i".to_string()), (2, "b".to_string()), (250, "z".to_string())]);
        }
        other => panic!("unexpected {:?}", other),
    }
}

#[test]
fn dispatch_takes_the_first_arm_that_matches() {
    let g = GeneratedEntry::Dispatch {
        return_type: None,
        preamble: String::new(),
        result_type: "i32".to_string(),
        arms: vec![
            Entry { opcode: 5, name: "first".to_string(), has_args: true },
            Entry { opcode: 5, name: "second".to_string(), has_args: false },
        ],
        unmatched: FallbackPolicy::Lenient,
    };
    assert_eq!(g.dispatch(5), Action::Call { handler: "first".to_string(), decode_argument: true });
}
