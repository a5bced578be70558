use neon_class_gen::args::extract_from_native_input_type;
use neon_class_gen::ast::{Attr, FnParam, ImplBlock, MethodDecl, TypeDesc};
use neon_class_gen::emit::AdapterKind;
use neon_class_gen::ret::ReturnStrategy;
use neon_class_gen::sample::{MapLike, TestStruct, KV};
use neon_class_gen::semantics::{apply_constructor_outcome, apply_extraction,
    apply_return_transform, extract_all, HostErrorKind, NativeOutcome, TransformResult};
use neon_class_gen::value::{deserialize, serialize, HostValue, NativeValue};
use neon_class_gen::{neon_class, Expansion, MacroInput};

fn s(x: &str) -> String {
    x.to_string()
}

fn attr(ns: &str, args: &[&str]) -> Attr {
    Attr { namespace: s(ns), args: args.iter().map(|a| s(a)).collect() }
}

fn ident(t: &str) -> TypeDesc {
    TypeDesc::Ident(s(t))
}

fn typed(name: &str, ty: TypeDesc) -> FnParam {
    FnParam::Typed { name: s(name), ty }
}

fn decl(name: &str, params: Vec<FnParam>, output: Option<TypeDesc>, attrs: Vec<Attr>) -> MethodDecl {
    MethodDecl { name: s(name), params, output, attrs }
}

/// Structural equality of native values, for test assertions.
fn nv_eq(a: &NativeValue, b: &NativeValue) -> bool {
    match (a, b) {
        (NativeValue::Int(x), NativeValue::Int(y)) => x == y,
        (NativeValue::Text(x), NativeValue::Text(y)) => x == y,
        (NativeValue::Record(x), NativeValue::Record(y)) => {
            x.len() == y.len()
                && x.iter().zip(y.iter()).all(|(p, q)| p.0 == q.0 && nv_eq(&p.1, &q.1))
        },
        _ => false,
    }
}

#[test]
fn round_trip_preserves_structured_values() {
    let original = NativeValue::Record(vec![
        (s("a"), NativeValue::Int(1)),
        (s("b"), NativeValue::Text(s("x"))),
        (s("nested"), NativeValue::Record(vec![(s("c"), NativeValue::Int(-7))])),
    ]);
    let host = serialize(&original);
    let back = deserialize(&host).expect("a serialized value deserializes");
    assert!(nv_eq(&original, &back));
}

#[test]
fn round_trip_preserves_numbers_and_strings() {
    for v in [NativeValue::Int(0), NativeValue::Int(i64::MIN), NativeValue::Text(s(""))] {
        let back = deserialize(&serialize(&v)).unwrap();
        assert!(nv_eq(&v, &back));
    }
}

#[test]
fn undefined_does_not_deserialize() {
    let e = deserialize(&HostValue::Undefined).unwrap_err();
    assert_eq!(e, "unsupported host value");
}

#[test]
fn numeric_extraction_reads_a_number_and_casts() {
    let b = extract_from_native_input_type(0, &ident("u32"));
    let args = vec![HostValue::Number(7)];
    let v = apply_extraction(&b, &args).unwrap();
    assert!(nv_eq(&v, &NativeValue::Int(7)));

    // The host's number-to-integer conversion saturates at the type's bounds.
    let neg = apply_extraction(&b, &vec![HostValue::Number(-5)]).unwrap();
    assert!(nv_eq(&neg, &NativeValue::Int(0)));
    let b32 = extract_from_native_input_type(0, &ident("i32"));
    let big = apply_extraction(&b32, &vec![HostValue::Number(5_000_000_000)]).unwrap();
    assert!(nv_eq(&big, &NativeValue::Int(i32::MAX as i64)));
}

#[test]
fn numeric_extraction_rejects_a_non_number() {
    let b = extract_from_native_input_type(0, &ident("f64"));
    let e = apply_extraction(&b, &vec![HostValue::Text(s("nope"))]).unwrap_err();
    assert_eq!(e.kind, HostErrorKind::TypeError);
    assert_eq!(e.message, "failed to downcast to number");
}

#[test]
fn generic_extraction_deserializes_and_reports_failures() {
    let b = extract_from_native_input_type(1, &ident("String"));
    let args = vec![HostValue::Number(0), HostValue::Text(s("hi"))];
    let v = apply_extraction(&b, &args).unwrap();
    assert!(nv_eq(&v, &NativeValue::Text(s("hi"))));

    let bad = vec![HostValue::Number(0), HostValue::Undefined];
    let e = apply_extraction(&b, &bad).unwrap_err();
    assert_eq!(e.kind, HostErrorKind::TypeError);
    assert_eq!(e.message, "unsupported host value");
}

#[test]
fn missing_argument_is_a_type_error() {
    let b = extract_from_native_input_type(2, &ident("u32"));
    let e = apply_extraction(&b, &vec![HostValue::Number(1)]).unwrap_err();
    assert_eq!(e.kind, HostErrorKind::TypeError);
    assert_eq!(e.message, "not enough arguments");
}

#[test]
fn throw_on_err_failure_throws_a_generic_error() {
    let r = apply_return_transform(
        ReturnStrategy::Fallible { throws_exception: true },
        NativeOutcome::Failure(s("boom")),
    );
    match r {
        TransformResult::Throw(e) => {
            assert_eq!(e.kind, HostErrorKind::GenericError);
            assert_eq!(e.message, "boom");
        },
        TransformResult::Return(_) => panic!("a failing call must throw"),
    }
}

#[test]
fn fallible_without_modifier_is_rejected_by_conversion() {
    let r = apply_return_transform(
        ReturnStrategy::Fallible { throws_exception: false },
        NativeOutcome::Failure(s("boom")),
    );
    match r {
        TransformResult::Throw(e) => {
            assert_eq!(e.kind, HostErrorKind::TypeError);
            assert_eq!(e.message, "unsupported native value");
        },
        TransformResult::Return(_) => panic!("the conversion capability rejects the carrier"),
    }
}

#[test]
fn modifier_decides_the_fallible_strategy() {
    let fallible = || Some(TypeDesc::Generic { name: s("Result"), lifetime: None });
    let with_mod = decl(
        "m1",
        vec![FnParam::Receiver],
        fallible(),
        vec![attr("neon_class", &["method", "throw_on_err"])],
    );
    let without = decl("m2", vec![FnParam::Receiver], fallible(), vec![attr(
        "neon_class",
        &["method"],
    )]);
    let a1 = match neon_class(&vec![s("method"), s("throw_on_err")], MacroInput::Fn(with_mod)) {
        Ok(Expansion::Adapter(a)) => a,
        _ => panic!("expected an adapter"),
    };
    let a2 = match neon_class(&vec![s("method")], MacroInput::Fn(without)) {
        Ok(Expansion::Adapter(a)) => a,
        _ => panic!("expected an adapter"),
    };
    assert_eq!(a1.strategy, ReturnStrategy::Fallible { throws_exception: true });
    assert_eq!(a2.strategy, ReturnStrategy::Fallible { throws_exception: false });
}

#[test]
fn void_and_passthrough_and_plain_templates() {
    let r = apply_return_transform(ReturnStrategy::Void, NativeOutcome::Unit);
    assert!(matches!(r, TransformResult::Return(HostValue::Undefined)));

    let r2 = apply_return_transform(
        ReturnStrategy::PassthroughAdapterResult,
        NativeOutcome::Ready(HostValue::Number(3)),
    );
    assert!(matches!(r2, TransformResult::Return(HostValue::Number(3))));

    let r3 = apply_return_transform(
        ReturnStrategy::PlainValue,
        NativeOutcome::Plain(NativeValue::Text(s("x"))),
    );
    match r3 {
        TransformResult::Return(HostValue::Text(t)) => assert_eq!(t, "x"),
        _ => panic!("a plain value serializes to its host counterpart"),
    }
}

#[test]
fn constructor_failure_gets_the_fixed_label() {
    let (payload, r) = apply_constructor_outcome(NativeOutcome::Failure(s("bad path")));
    assert!(payload.is_none());
    match r {
        TransformResult::Throw(e) => {
            assert_eq!(e.kind, HostErrorKind::TypeError);
            assert_eq!(e.message, "Failed to construct bad path");
        },
        TransformResult::Return(_) => panic!("a failing constructor must throw"),
    }
    let (installed, ok) = apply_constructor_outcome(NativeOutcome::Success(NativeValue::Int(5)));
    assert!(nv_eq(&installed.unwrap(), &NativeValue::Int(5)));
    assert!(matches!(ok, TransformResult::Return(HostValue::Undefined)));
}

#[test]
fn map_like_folds_duplicate_keys() {
    let ml = MapLike {
        map: vec![
            KV { k: s("a"), v: s("1") },
            KV { k: s("b"), v: s("2") },
            KV { k: s("a"), v: s("3") },
        ],
    };
    let folded = ml.into_map();
    assert_eq!(folded.len(), 2);
    let a = folded.iter().find(|kv| kv.k == "a").unwrap();
    assert_eq!(a.v, "3");
    let b = folded.iter().find(|kv| kv.k == "b").unwrap();
    assert_eq!(b.v, "2");
}

#[test]
fn take_numeric_rejects_minus_one() {
    let mut ts = TestStruct::constructor(s("p"), MapLike { map: vec![] }).unwrap();
    assert_eq!(ts.take_numeric_return_result(5, -1), Err("Second arg was -1"));
    assert_eq!(ts.my_val, 0);
    assert_eq!(ts.take_numeric_return_result(5, 2), Ok(7));
    assert_eq!(ts.my_val, 2);
}

/// A constructor declaration `(path: String, map: {k,v} pairs)`.
fn p7_ctor_decl() -> MethodDecl {
    decl(
        "constructor",
        vec![typed("path", ident("String")), typed("map", ident("MapLike"))],
        Some(TypeDesc::Generic { name: s("Result"), lifetime: None }),
        vec![attr("neon_class", &["constructor"])],
    )
}

/// A method declaration `take_numeric(u32, i32) -> i32`.
fn p7_method_decl() -> MethodDecl {
    decl(
        "take_numeric",
        vec![FnParam::Receiver, typed("a", ident("u32")), typed("b", ident("i32"))],
        Some(ident("i32")),
        vec![attr("neon_class", &["method"])],
    )
}

#[test]
fn end_to_end_construct_then_take_numeric() {
    let ctor_decl = p7_ctor_decl();
    let method_decl = p7_method_decl();
    let block = ImplBlock {
        self_ty: ident("TestStruct"),
        items: vec![p7_ctor_decl(), p7_method_decl()],
    };

    // The block expansion exposes the constructor and a `takeNumeric` method.
    let be = match neon_class(&vec![s("impl_block")], MacroInput::Block(block)) {
        Ok(Expansion::Block(be)) => be,
        _ => panic!("expected a block expansion"),
    };
    assert_eq!(be.registration.unwrap().ctor_adapter, "__neon_gen_constructor");
    assert_eq!(be.prototype.len(), 1);
    assert_eq!(be.prototype[0].js_name, "takeNumeric");
    assert_eq!(be.prototype[0].adapter, "__neon_gen_take_numeric");

    // Invoke the constructor adapter with ("p", []).
    let ctor = match neon_class(&vec![s("constructor")], MacroInput::Fn(ctor_decl)) {
        Ok(Expansion::Adapter(a)) => a,
        _ => panic!("expected an adapter"),
    };
    assert_eq!(ctor.kind, AdapterKind::Constructor);
    let ctor_args = vec![HostValue::Text(s("p")), HostValue::Object(vec![])];
    let extracted = extract_all(&ctor.bindings, &ctor_args).unwrap();
    assert_eq!(extracted.len(), 2);
    assert!(nv_eq(&extracted[0], &NativeValue::Text(s("p"))));
    let native = TestStruct::constructor(s("p"), MapLike { map: vec![] });
    assert!(native.is_ok());
    let mut ts = native.unwrap();
    let (_, ctor_result) = apply_constructor_outcome(NativeOutcome::Success(NativeValue::Int(0)));
    assert!(matches!(ctor_result, TransformResult::Return(HostValue::Undefined)));

    // Call takeNumeric(3, 4).
    let m = match neon_class(&vec![s("method")], MacroInput::Fn(method_decl)) {
        Ok(Expansion::Adapter(a)) => a,
        _ => panic!("expected an adapter"),
    };
    assert_eq!(m.strategy, ReturnStrategy::PlainValue);
    let call_args = vec![HostValue::Number(3), HostValue::Number(4)];
    let vals = extract_all(&m.bindings, &call_args).unwrap();
    let (a, b) = match (&vals[0], &vals[1]) {
        (NativeValue::Int(a), NativeValue::Int(b)) => (*a as u32, *b as i32),
        _ => panic!("numeric extractions yield numbers"),
    };
    let sum = ts.take_numeric_return_result(a, b).unwrap();
    assert_eq!(sum, 7);
    let out = apply_return_transform(
        ReturnStrategy::PlainValue,
        NativeOutcome::Plain(NativeValue::Int(sum as i64)),
    );
    assert!(matches!(out, TransformResult::Return(HostValue::Number(7))));
}
