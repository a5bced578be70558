use neon_class_gen::ast::{Attr, FnParam, ImplBlock, MethodDecl, TypeDesc};
use neon_class_gen::args::{parse_rust_fn_args, ExtractStrategy, NumKind};
use neon_class_gen::classify::NeonMacrosAttrs;
use neon_class_gen::emit::get_gen_method_name;
use neon_class_gen::error::GenError;
use neon_class_gen::group::ImplTree;
use neon_class_gen::ret::{get_lifetime_from_return_type, parse_return_type, AdapterReturnType,
    ReturnStrategy};
use neon_class_gen::{neon_class, Expansion, MacroInput};

fn s(x: &str) -> String {
    x.to_string()
}

fn attr(ns: &str, args: &[&str]) -> Attr {
    Attr { namespace: s(ns), args: args.iter().map(|a| s(a)).collect() }
}

fn ident(t: &str) -> TypeDesc {
    TypeDesc::Ident(s(t))
}

fn typed(name: &str, ty: TypeDesc) -> FnParam {
    FnParam::Typed { name: s(name), ty }
}

fn decl(name: &str, params: Vec<FnParam>, output: Option<TypeDesc>, attrs: Vec<Attr>) -> MethodDecl {
    MethodDecl { name: s(name), params, output, attrs }
}

fn cx_param() -> FnParam {
    typed("cx", TypeDesc::Other(s("&mut FunctionContext")))
}

fn result_ty() -> TypeDesc {
    TypeDesc::Generic { name: s("Result"), lifetime: None }
}

fn js_result_ty(lt: &str) -> TypeDesc {
    TypeDesc::Generic { name: s("JsResult"), lifetime: Some(s(lt)) }
}

/// The declarations of the worked example's annotated block.
fn derived_class_block() -> ImplBlock {
    let items = vec![
        decl(
            "constructor",
            vec![typed("a_path", ident("String")), typed("map_like", ident("MapLike"))],
            Some(result_ty()),
            vec![attr("neon_class", &["constructor"])],
        ),
        decl(
            "start_camel",
            vec![FnParam::Receiver, cx_param(), typed("num", ident("u32"))],
            Some(js_result_ty("ctx")),
            vec![attr("neon_class", &["method"])],
        ),
        decl(
            "another_one",
            vec![FnParam::Receiver, cx_param(), typed("num", ident("u32")), typed(
                "msg",
                ident("String"),
            )],
            Some(js_result_ty("cx")),
            vec![attr("neon_class", &["method"])],
        ),
        decl(
            "plain_method",
            vec![FnParam::Receiver, typed("num", ident("f64"))],
            Some(ident("String")),
            vec![attr("neon_class", &["method"])],
        ),
        decl(
            "method_that_returns_nothing",
            vec![FnParam::Receiver],
            None,
            vec![attr("neon_class", &["method"])],
        ),
        decl(
            "take_numeric_return_result",
            vec![FnParam::Receiver, typed("u_32", ident("u32")), typed("i_32", ident("i32"))],
            Some(result_ty()),
            vec![attr("neon_class", &["method", "throw_on_err"])],
        ),
        decl(
            "take_cx_but_return_native_val",
            vec![FnParam::Receiver, typed("_cx", TypeDesc::Other(s("&mut FunctionContext"))), typed(
                "num",
                ident("f64"),
            )],
            Some(ident("String")),
            vec![attr("neon_class", &["method"])],
        ),
    ];
    ImplBlock { self_ty: ident("TestStruct"), items }
}

#[test]
fn try_build() {
    let r = neon_class(&vec![s("impl_block")], MacroInput::Block(derived_class_block()));
    let be = match r {
        Ok(Expansion::Block(be)) => be,
        other => panic!("expected a block expansion, got {:?}", other.is_ok()),
    };
    assert_eq!(be.struct_name, "TestStruct");
    assert_eq!(be.this_field, "__this_obj");
    let reg = be.registration.expect("a constructor is exposed");
    assert_eq!(reg.name, "register_constructor");
    assert_eq!(reg.ctor_adapter, "__neon_gen_constructor");
    assert_eq!(reg.export_name, "TestStruct");
    let js: Vec<&str> = be.prototype.iter().map(|e| e.js_name.as_str()).collect();
    assert_eq!(
        js,
        vec![
            "startCamel",
            "anotherOne",
            "plainMethod",
            "methodThatReturnsNothing",
            "takeNumericReturnResult",
            "takeCxButReturnNativeVal",
        ],
    );
    let adapters: Vec<&str> = be.prototype.iter().map(|e| e.adapter.as_str()).collect();
    assert_eq!(
        adapters,
        vec![
            "__neon_gen_start_camel",
            "__neon_gen_another_one",
            "__neon_gen_plain_method",
            "__neon_gen_method_that_returns_nothing",
            "__neon_gen_take_numeric_return_result",
            "__neon_gen_take_cx_but_return_native_val",
        ],
    );
    // The casing conversion really converted: no declared name passed through.
    assert_ne!(js[4], "take_numeric_return_result");
}

#[test]
fn enforce_one_constructor() {
    let items = vec![
        decl(
            "constructor",
            vec![typed("path_to_exe", ident("String"))],
            Some(result_ty()),
            vec![attr("neon_class", &["constructor"])],
        ),
        decl(
            "second_ctor_not_allowed",
            vec![typed("num", ident("u32"))],
            Some(result_ty()),
            vec![attr("neon_class", &["constructor"])],
        ),
    ];
    let block = ImplBlock { self_ty: ident("TestStruct"), items };
    let r = neon_class(&vec![s("impl_block")], MacroInput::Block(block));
    match r {
        Err(GenError::MultipleConstructors { existing, duplicate }) => {
            assert_eq!(existing, "constructor");
            assert_eq!(duplicate, "second_ctor_not_allowed");
            let msg = GenError::MultipleConstructors { existing, duplicate }.message();
            assert!(msg.contains("constructor"));
            assert!(msg.contains("second_ctor_not_allowed"));
        },
        _ => panic!("expected the duplicate-constructor failure"),
    }
}

#[test]
fn check_rename_of_neon_class_macro_gives_error() {
    // The annotation was imported as `cant_rename`, so nothing is recognized.
    let items = vec![decl(
        "constructor",
        vec![typed("path_to_exe", ident("String"))],
        Some(result_ty()),
        vec![attr("cant_rename", &["constructor"])],
    )];
    let block = ImplBlock { self_ty: ident("TestStruct"), items };
    let r = neon_class(&vec![s("impl_block")], MacroInput::Block(block));
    match r {
        Err(GenError::NoQualifyingDeclarations { struct_name }) => {
            assert_eq!(struct_name, "TestStruct");
            let msg = GenError::NoQualifyingDeclarations { struct_name }.message();
            assert!(msg.contains("renamed"));
            assert!(msg.contains("TestStruct"));
        },
        _ => panic!("expected the no-qualifying-declarations failure"),
    }
}

#[test]
fn group_with_one_constructor_keeps_all_methods() {
    let mut classified = Vec::new();
    classified.push(
        NeonMacrosAttrs::new(
            decl("make", vec![], Some(result_ty()), vec![attr("neon_class", &["constructor"])]),
            "neon_class",
        )
        .unwrap()
        .unwrap(),
    );
    for name in ["alpha", "beta", "gamma"] {
        classified.push(
            NeonMacrosAttrs::new(
                decl(name, vec![FnParam::Receiver], None, vec![attr("neon_class", &["method"])]),
                "neon_class",
            )
            .unwrap()
            .unwrap(),
        );
    }
    let tree = ImplTree::new(classified).expect("one constructor is allowed");
    assert_eq!(tree.methods.len(), 3);
    assert_eq!(tree.constructor.expect("kept").name, "make");
    assert_eq!(tree.methods[0].name, "alpha");
    assert_eq!(tree.methods[1].name, "beta");
    assert_eq!(tree.methods[2].name, "gamma");
}

#[test]
fn adapter_indices_skip_receiver_and_context() {
    let params = vec![
        FnParam::Receiver,
        cx_param(),
        typed("x", ident("u32")),
        typed("y", ident("String")),
    ];
    let (bindings, cx_is_arg) = parse_rust_fn_args(&params);
    assert!(cx_is_arg);
    assert_eq!(bindings.len(), 2);
    assert_eq!(bindings[0].adapter_index, 0);
    assert_eq!(bindings[0].name, "arg_0");
    assert_eq!(bindings[1].adapter_index, 1);
    assert_eq!(bindings[1].name, "arg_1");
}

#[test]
fn context_after_normal_argument_still_skipped() {
    let params = vec![typed("x", ident("i32")), cx_param(), typed("y", ident("u32"))];
    let (bindings, cx_is_arg) = parse_rust_fn_args(&params);
    assert!(cx_is_arg);
    assert_eq!(bindings.len(), 2);
    assert_eq!(bindings[0].adapter_index, 0);
    assert_eq!(bindings[1].adapter_index, 1);
}

#[test]
fn numeric_types_cast_and_others_deserialize() {
    let params = vec![
        typed("a", ident("u32")),
        typed("b", ident("i32")),
        typed("c", ident("f64")),
        typed("d", ident("String")),
        typed("e", ident("MapLike")),
        typed("f", TypeDesc::Other(s("(u32, u32)"))),
    ];
    let (bindings, cx_is_arg) = parse_rust_fn_args(&params);
    assert!(!cx_is_arg);
    assert_eq!(bindings[0].strategy, ExtractStrategy::DirectNumericCast(NumKind::U32));
    assert_eq!(bindings[1].strategy, ExtractStrategy::DirectNumericCast(NumKind::I32));
    assert_eq!(bindings[2].strategy, ExtractStrategy::DirectNumericCast(NumKind::F64));
    assert_eq!(bindings[3].strategy, ExtractStrategy::GenericDeserialize);
    assert_eq!(bindings[4].strategy, ExtractStrategy::GenericDeserialize);
    assert_eq!(bindings[5].strategy, ExtractStrategy::GenericDeserialize);
}

#[test]
fn argument_names_carry_two_digit_indices() {
    let mut params = Vec::new();
    for i in 0..11 {
        params.push(typed(&format!("p{}", i), ident("u32")));
    }
    let (bindings, _) = parse_rust_fn_args(&params);
    assert_eq!(bindings[9].name, "arg_9");
    assert_eq!(bindings[10].name, "arg_10");
}

#[test]
fn invalid_modifier_is_fatal_and_named() {
    let d = decl(
        "broken",
        vec![FnParam::Receiver],
        None,
        vec![attr("neon_class", &["method", "bad_mod"])],
    );
    match NeonMacrosAttrs::new(d, "neon_class") {
        Err(e) => {
            assert_eq!(e.message(), "Invalid arg bad_mod");
            assert!(matches!(e, GenError::InvalidModifier { token } if token == "bad_mod"));
        },
        Ok(_) => panic!("an unrecognized modifier must fail classification"),
    }
}

#[test]
fn foreign_annotations_are_ignored() {
    let d = decl(
        "other",
        vec![FnParam::Receiver],
        None,
        vec![attr("serde", &["rename_all"]), attr("allow", &["dead_code"])],
    );
    assert!(NeonMacrosAttrs::new(d, "neon_class").unwrap().is_none());
}

#[test]
fn classification_reads_role_and_modifiers() {
    let d = decl(
        "with_throw",
        vec![FnParam::Receiver],
        Some(result_ty()),
        vec![attr("neon_class", &["method", "throw_on_err"])],
    );
    let a = NeonMacrosAttrs::new(d, "neon_class").unwrap().unwrap();
    assert!(a.is_method());
    assert!(!a.is_constructor());
    assert_eq!(a.main, "method");
    assert_eq!(a.args, vec![s("throw_on_err")]);
    assert!(neon_class_gen::classify::throws_on_err(&a.args));
    assert!(!neon_class_gen::classify::throws_on_err(&vec![s("method")]));
}

#[test]
fn unsupported_self_type_is_reported() {
    let block = ImplBlock {
        self_ty: TypeDesc::Other(s("&Weird")),
        items: vec![decl("x", vec![], None, vec![attr("neon_class", &["method"])])],
    };
    let r = neon_class(&vec![s("impl_block")], MacroInput::Block(block));
    match r {
        Err(e @ GenError::UnsupportedSelfType) => {
            assert_eq!(e.message(), "No struct_name for impl block");
        },
        _ => panic!("expected the unsupported-self-type failure"),
    }
}

#[test]
fn unknown_role_expands_to_nothing() {
    let d = decl("x", vec![], None, vec![]);
    let r = neon_class(&vec![s("nonsense")], MacroInput::Fn(d));
    assert!(matches!(r, Ok(Expansion::Empty)));
    let d2 = decl("y", vec![], None, vec![]);
    let r2 = neon_class(&Vec::new(), MacroInput::Fn(d2));
    assert!(matches!(r2, Ok(Expansion::Empty)));
}

#[test]
fn role_on_wrong_item_kind_is_a_mismatch() {
    let block = ImplBlock { self_ty: ident("T"), items: vec![] };
    let r = neon_class(&vec![s("method")], MacroInput::Block(block));
    assert!(matches!(r, Err(GenError::InputMismatch)));
    let d = decl("x", vec![], None, vec![]);
    let r2 = neon_class(&vec![s("impl_block")], MacroInput::Fn(d));
    assert!(matches!(r2, Err(GenError::InputMismatch)));
}

#[test]
fn generated_names_carry_the_fixed_prefix() {
    assert_eq!(get_gen_method_name("constructor"), "__neon_gen_constructor");
    assert_eq!(get_gen_method_name("start_camel"), "__neon_gen_start_camel");
}

#[test]
fn bare_annotation_defaults_role_to_its_own_name() {
    let d = decl("plain", vec![FnParam::Receiver], None, vec![attr("neon_class", &[])]);
    let a = NeonMacrosAttrs::new(d, "neon_class").unwrap().unwrap();
    assert_eq!(a.main, "neon_class");
    assert!(!a.is_constructor());
    assert!(!a.is_method());
}

#[test]
fn return_type_decision_order() {
    // No declared return type: undefined result, value ignored.
    let (t, strat) = parse_return_type(&None, "ctx", false);
    assert!(matches!(t, AdapterReturnType::UndefinedResult));
    assert_eq!(strat, ReturnStrategy::Void);

    // The boundary's own wrapper, matched exactly by name: reused verbatim.
    let (t, strat) = parse_return_type(&Some(js_result_ty("a")), "ctx", false);
    assert!(matches!(t, AdapterReturnType::Declared(_)));
    assert_eq!(strat, ReturnStrategy::PassthroughAdapterResult);

    // A fallible outcome: the modifier decides how the failure surfaces.
    let (_, strat) = parse_return_type(&Some(result_ty()), "ctx", true);
    assert_eq!(strat, ReturnStrategy::Fallible { throws_exception: true });
    let (_, strat) = parse_return_type(&Some(result_ty()), "ctx", false);
    assert_eq!(strat, ReturnStrategy::Fallible { throws_exception: false });

    // Anything else is serialized, with the caller's lifetime.
    let (t, strat) = parse_return_type(&Some(ident("String")), "ctx", false);
    assert_eq!(strat, ReturnStrategy::PlainValue);
    match t {
        AdapterReturnType::ValueResult { lifetime } => assert_eq!(lifetime, "ctx"),
        _ => panic!("a converted value uses the boundary's opaque result type"),
    }
}

#[test]
fn lifetime_comes_from_the_declared_return_type() {
    assert_eq!(get_lifetime_from_return_type(&Some(js_result_ty("cx"))), Some(s("cx")));
    assert_eq!(get_lifetime_from_return_type(&Some(ident("String"))), None);
    assert_eq!(get_lifetime_from_return_type(&None), None);
    assert_eq!(
        get_lifetime_from_return_type(&Some(TypeDesc::Generic {
            name: s("Result"),
            lifetime: None,
        })),
        None,
    );
}

#[test]
fn method_adapters_carry_the_declared_or_default_lifetime() {
    let with_lt = decl(
        "start_camel",
        vec![FnParam::Receiver, cx_param(), typed("num", ident("u32"))],
        Some(js_result_ty("abc")),
        vec![attr("neon_class", &["method"])],
    );
    let a = match neon_class(&vec![s("method")], MacroInput::Fn(with_lt)) {
        Ok(Expansion::Adapter(a)) => a,
        _ => panic!("expected an adapter"),
    };
    assert_eq!(a.lifetime.as_deref(), Some("abc"));
    assert!(a.forwards_context);
    assert_eq!(a.name, "__neon_gen_start_camel");
    assert_eq!(a.target, "start_camel");

    let without_lt = decl(
        "plain_method",
        vec![FnParam::Receiver, typed("num", ident("f64"))],
        Some(ident("String")),
        vec![attr("neon_class", &["method"])],
    );
    let b = match neon_class(&vec![s("method")], MacroInput::Fn(without_lt)) {
        Ok(Expansion::Adapter(a)) => a,
        _ => panic!("expected an adapter"),
    };
    assert_eq!(b.lifetime.as_deref(), Some("ctx"));
    assert!(!b.forwards_context);
}
