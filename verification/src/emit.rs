//! The adapter emitter: synthesizes one adapter description per annotated
//! declaration. An adapter extracts its arguments from the host-side argument
//! list, forwards the call to the original declaration (with the host context
//! when the declaration asks for it), transforms the result, and returns it.
//!
//! For a method adapter the receiver is retrieved from the hidden property on
//! the call's receiver object and downcast before the forward call; for a
//! constructor adapter the successful native value is boxed and installed
//! under that hidden property instead, and a failure becomes a thrown type
//! error prefixed with a fixed diagnostic label.

use vstd::prelude::*;

use crate::args::{parse_rust_fn_args, spec_cx_is_arg, spec_normal_types, spec_strategy, CxIsArg,
    ParameterBinding};
use crate::text::spec_dec_str;
use crate::ast::{strings_view, MethodDecl};
use crate::classify::{spec_throws_on_err, throws_on_err};
use crate::ret::{get_lifetime_from_return_type, parse_return_type, spec_lifetime_or_default,
    spec_return_strategy, AdapterReturnType, ReturnStrategy};

verus! {

/// The fixed prefix of every generated adapter's name.
pub open spec fn spec_gen_prefix() -> Seq<char> {
    "__neon_gen_"@
}

/// The name of the adapter generated for a declaration.
pub open spec fn spec_gen_name(orig: Seq<char>) -> Seq<char> {
    spec_gen_prefix() + orig
}

/// Derives the generated adapter's name from the original declaration's name.
pub fn get_gen_method_name(orig_name: &str) -> (r: String)
    ensures
        r@ == spec_gen_name(orig_name@),
{
    let mut r = String::from_str("__neon_gen_");
    r.append(orig_name);
    r
}

/// Whether an adapter wraps a constructor or a method.
#[derive(PartialEq, Eq, Structural, Clone, Copy, Debug)]
pub enum AdapterKind {
    /// The adapter runs on the host runtime's construction call; its result
    /// is boxed and installed on the new receiver object.
    Constructor,
    /// The adapter runs on a method call; it retrieves and downcasts the
    /// receiver before forwarding.
    Method,
}

/// One synthesized adapter function, described structurally: its body extracts
/// the bound arguments in ascending adapter index, retrieves the receiver
/// (methods only), forwards the call to `target`, applies the return
/// transform, and returns the transformed result.
pub struct AdapterFn {
    /// Constructor or method.
    pub kind: AdapterKind,
    /// The adapter's own name: the fixed generated prefix plus `target`.
    pub name: String,
    /// The original declaration the adapter forwards to.
    pub target: String,
    /// The lifetime the adapter's signature carries; methods only.
    pub lifetime: Option<String>,
    /// The compiled argument extractions, in ascending adapter index.
    pub bindings: Vec<ParameterBinding>,
    /// Whether the forward call passes the host context along.
    pub forwards_context: CxIsArg,
    /// The adapter's declared return type.
    pub return_type: AdapterReturnType,
    /// The transform applied to the forward call's result.
    pub strategy: ReturnStrategy,
}

/// The binding list every emitter produces for a declaration's parameters.
pub open spec fn spec_bindings_match(bindings: Seq<ParameterBinding>, decl: MethodDecl) -> bool {
    bindings.len() == spec_normal_types(decl.params@).len() && forall|j: int|
        0 <= j < bindings.len() ==> (#[trigger] bindings[j]).adapter_index == j
            && bindings[j].name@ == "arg_"@ + spec_dec_str(j as nat) && bindings[j].strategy
            == spec_strategy(spec_normal_types(decl.params@)[j])
}

/// What the emitter guarantees of a method adapter: every part of the adapter
/// is determined by the declaration and the annotation's argument list.
pub open spec fn spec_method_adapter(r: AdapterFn, args: Seq<Seq<char>>, decl: MethodDecl)
    -> bool {
    &&& r.kind == AdapterKind::Method
    &&& r.name@ == spec_gen_name(decl.name@)
    &&& r.target@ == decl.name@
    &&& r.lifetime matches Some(l) && l@ == spec_lifetime_or_default(decl.output)
    &&& spec_bindings_match(r.bindings@, decl)
    &&& r.forwards_context == spec_cx_is_arg(decl.params@)
    &&& r.strategy == spec_return_strategy(decl.output, spec_throws_on_err(args))
    &&& match r.strategy {
        ReturnStrategy::Void => r.return_type is UndefinedResult,
        ReturnStrategy::PassthroughAdapterResult => r.return_type == AdapterReturnType::Declared(
            decl.output->Some_0,
        ),
        _ => r.return_type matches AdapterReturnType::ValueResult { lifetime: l } && l@
            == spec_lifetime_or_default(decl.output),
    }
}

/// What the emitter guarantees of a constructor adapter.
pub open spec fn spec_constructor_adapter(r: AdapterFn, decl: MethodDecl) -> bool {
    &&& r.kind == AdapterKind::Constructor
    &&& r.name@ == spec_gen_name(decl.name@)
    &&& r.target@ == decl.name@
    &&& r.lifetime is None
    &&& spec_bindings_match(r.bindings@, decl)
    &&& r.forwards_context == spec_cx_is_arg(decl.params@)
    &&& r.return_type is UndefinedResult
    &&& r.strategy == ReturnStrategy::Void
}

/// Synthesizes the adapter for a method declaration, from the declaration and
/// its annotation's argument list.
pub fn method(args: &Vec<String>, decl: &MethodDecl) -> (r: AdapterFn)
    ensures
        spec_method_adapter(r, strings_view(args@), *decl),
{
    let name = get_gen_method_name(decl.name.as_str());
    let output_lifetime = match get_lifetime_from_return_type(&decl.output) {
        Some(l) => l,
        None => String::from_str("ctx"),
    };
    let (bindings, cx_is_arg) = parse_rust_fn_args(&decl.params);
    let throws = throws_on_err(args);
    let (return_type, strategy) = parse_return_type(
        &decl.output,
        output_lifetime.as_str(),
        throws,
    );
    AdapterFn {
        kind: AdapterKind::Method,
        name,
        target: decl.name.clone(),
        lifetime: Some(output_lifetime),
        bindings,
        forwards_context: cx_is_arg,
        return_type,
        strategy,
    }
}

/// Synthesizes the adapter for a constructor declaration. The adapter always
/// returns the boundary's undefined result: the constructed native value is
/// boxed and installed on the receiver, not returned.
pub fn constructor(decl: &MethodDecl) -> (r: AdapterFn)
    ensures
        spec_constructor_adapter(r, *decl),
{
    let name = get_gen_method_name(decl.name.as_str());
    let (bindings, cx_is_arg) = parse_rust_fn_args(&decl.params);
    AdapterFn {
        kind: AdapterKind::Constructor,
        name,
        target: decl.name.clone(),
        lifetime: None,
        bindings,
        forwards_context: cx_is_arg,
        return_type: AdapterReturnType::UndefinedResult,
        strategy: ReturnStrategy::Void,
    }
}

} // verus!
