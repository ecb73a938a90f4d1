use contract_macros::{
    method, AttributeArg, Binding, Entry, EntryDecl, FallbackPolicy, GeneratedEntry, Literal,
    MethodDecl, PackedMethod, PackedType, Param, Registry, Transformed,
};

fn strings(items: &[&str]) -> Vec<String> {
    items.iter().map(|s| s.to_string()).collect()
}

fn ping_echo_arms() -> Vec<Entry> {
    vec![
        Entry { opcode: 1, name: "ping".to_string(), has_args: false },
        Entry { opcode: 2, name: "echo".to_string(), has_args: true },
    ]
}

#[test]
fn packed_type_text() {
    let t = PackedType { name: "transfer_args".to_string(), fields: strings(&["[u8; 32]", "u64"]) };
    assert_eq!(
        t.render(),
        "#[repr(C, packed)] pub struct transfer_args([u8; 32], u64, ); unsafe impl Pod for transfer_args {}"
    );
}

#[test]
fn packed_method_text() {
    let m = PackedMethod {
        name: "transfer".to_string(),
        visibility: "pub".to_string(),
        return_type: Some("i32".to_string()),
        argument_type: "transfer_args".to_string(),
        bindings: strings(&["to", "amount"]),
        body: "{ 0 }".to_string(),
    };
    assert_eq!(
        m.render(),
        "pub fn transfer(transfer_args(to, amount, ): transfer_args) -> i32 { { 0 } }"
    );
}

#[test]
fn packed_method_text_without_return_type() {
    let m = PackedMethod {
        name: "set".to_string(),
        visibility: String::new(),
        return_type: None,
        argument_type: "set_args".to_string(),
        bindings: strings(&["v"]),
        body: "store(v);".to_string(),
    };
    assert_eq!(m.render(), " fn set(set_args(v, ): set_args) { store(v); }");
}

#[test]
fn direct_entry_text_has_no_boundary_interaction() {
    let g = GeneratedEntry::Direct { return_type: Some("u64".to_string()), body: "let x = 1; x".to_string() };
    let text = g.render();
    assert_eq!(text, "#[no_mangle] pub fn call() -> u64 { let x = 1; x }");
    assert!(!text.contains("dusk_abi"));
    assert!(!text.contains("match"));
}

#[test]
fn dispatch_entry_text() {
    let g = GeneratedEntry::Dispatch {
        return_type: Some("i32".to_string()),
        preamble: "setup();".to_string(),
        result_type: "i32".to_string(),
        arms: ping_echo_arms(),
        unmatched: FallbackPolicy::Lenient,
    };
    assert_eq!(
        g.render(),
        "#[no_mangle] pub fn call() -> i32 { { setup(); } let code: u8 = dusk_abi::opcode::<u8>(); \
         dusk_abi::ret::<i32>(match code { 1 => ping(), 2 => echo(dusk_abi::argument()), \
         _ => <i32>::default(), }); }"
    );
}

#[test]
fn strict_dispatch_entry_text() {
    let g = GeneratedEntry::Dispatch {
        return_type: None,
        preamble: String::new(),
        result_type: "i32".to_string(),
        arms: vec![Entry { opcode: 255, name: "last".to_string(), has_args: false }],
        unmatched: FallbackPolicy::Strict,
    };
    assert_eq!(
        g.render(),
        "#[no_mangle] pub fn call() { {  } let code: u8 = dusk_abi::opcode::<u8>(); \
         dusk_abi::ret::<i32>(match code { 255 => last(), \
         _ => panic!(\"unregistered opcode\"), }); }"
    );
}

#[test]
fn rendered_text_is_well_formed_source() {
    let mut r = Registry::new();
    let attrs =
        vec![AttributeArg::NameValue { key: "opcode".to_string(), value: Literal::Int("0x2a".to_string()) }];
    let decl = MethodDecl {
        name: "echo".to_string(),
        visibility: "pub(crate)".to_string(),
        return_type: Some("i32".to_string()),
        params: vec![
            Param { binding: Binding::Receiver, ty: "&self".to_string() },
            Param { binding: Binding::Ident("value".to_string()), ty: "i32".to_string() },
            Param { binding: Binding::Ident("scale".to_string()), ty: "u8".to_string() },
        ],
        body: "{ value * scale as i32 }".to_string(),
    };
    match method(&mut r, &attrs, decl).unwrap() {
        Transformed::Packed { packed, method } => {
            let item = syn::parse_str::<syn::ItemStruct>(
                packed.render().split(';').next().map(|s| format!("{};", s)).unwrap().as_str(),
            )
            .unwrap();
            assert_eq!(item.ident.to_string(), "echo_args");
            assert_eq!(item.fields.len(), 2);
            let f = syn::parse_str::<syn::ItemFn>(&method.render()).unwrap();
            assert_eq!(f.sig.ident.to_string(), "echo");
            assert_eq!(f.sig.inputs.len(), 1);
        }
        other => panic!("unexpected {:?}", other),
    }
    let entry = EntryDecl { return_type: None, body: "let _ = 1;".to_string() };
    let g = contract_macros::main(&mut r, entry).unwrap();
    let f = syn::parse_str::<syn::ItemFn>(&g.render()).unwrap();
    assert_eq!(f.sig.ident.to_string(), "call");
    assert!(g.render().contains("42 => echo(dusk_abi::argument()), "));
}
