//! The return value transformer: classifies a declaration's return type and
//! selects the adapter's declared return type together with the code template
//! applied to the native call's result.
//!
//! Policy for fallible return types: a return type named `Result` always
//! selects the `Fallible` strategy. With the throw-on-failure modifier the
//! failure variant is unwrapped and becomes a thrown host error; without the
//! modifier the fallible carrier is handed whole to the generic conversion
//! capability, which rejects it, so the failure surfaces as a thrown type
//! error instead. Both paths are deliberate and tested.

use vstd::prelude::*;

use crate::ast::TypeDesc;
use crate::text::str_eq;

verus! {

/// How the native call's result is turned into the adapter's result.
#[derive(PartialEq, Eq, Structural, Clone, Copy, Debug)]
pub enum ReturnStrategy {
    /// No declared return type: the adapter ignores the computed value and
    /// returns the host undefined value.
    Void,
    /// The declaration already returns the boundary's native result-wrapper
    /// type; its value is passed through unchanged.
    PassthroughAdapterResult,
    /// The declaration returns a fallible outcome. With `throws_exception`
    /// the failure is unwrapped into a thrown host error and the success
    /// payload is serialized; without it the whole outcome goes to the
    /// conversion capability, which rejects the failure as a type error.
    Fallible { throws_exception: bool },
    /// The declaration returns a plain native value, serialized through the
    /// generic conversion capability.
    PlainValue,
}

/// The adapter's declared return type.
pub enum AdapterReturnType {
    /// The boundary's result wrapper around its undefined value.
    UndefinedResult,
    /// The declaration's own return type, reused verbatim.
    Declared(TypeDesc),
    /// The boundary's result wrapper around an opaque host value, carrying the
    /// given lifetime.
    ValueResult { lifetime: String },
}

/// The lifetime the declared return type carries, if any.
pub open spec fn spec_return_lifetime(output: Option<TypeDesc>) -> Option<Seq<char>> {
    match output {
        Some(t) => t.spec_lifetime(),
        None => None,
    }
}

/// The lifetime for the emitted adapter: the declared one, or the enclosing
/// call's by default.
pub open spec fn spec_lifetime_or_default(output: Option<TypeDesc>) -> Seq<char> {
    match spec_return_lifetime(output) {
        Some(l) => l,
        None => "ctx"@,
    }
}

/// Whether a declared return type is already the boundary's native result
/// wrapper, matched exactly by name.
pub open spec fn spec_is_passthrough(t: TypeDesc) -> bool {
    t.spec_name() == Some("JsResult"@)
}

/// Whether a declared return type is a fallible outcome, matched by name.
pub open spec fn spec_is_fallible(t: TypeDesc) -> bool {
    t.spec_name() == Some("Result"@)
}

/// The strategy selected for a declared return type and throw-on-failure
/// modifier, in decision order: no return type, the boundary's own wrapper, a
/// fallible outcome, a plain value.
pub open spec fn spec_return_strategy(output: Option<TypeDesc>, throws_on_err: bool)
    -> ReturnStrategy {
    match output {
        None => ReturnStrategy::Void,
        Some(t) => if spec_is_passthrough(t) {
            ReturnStrategy::PassthroughAdapterResult
        } else if spec_is_fallible(t) {
            ReturnStrategy::Fallible { throws_exception: throws_on_err }
        } else {
            ReturnStrategy::PlainValue
        },
    }
}

/// Whether the type goes by the given name.
pub fn type_name_is(t: &TypeDesc, expected: &str) -> (r: bool)
    ensures
        r == (t.spec_name() == Some(expected@)),
{
    match t {
        TypeDesc::Ident(n) => str_eq(n.as_str(), expected),
        TypeDesc::Generic { name, .. } => str_eq(name.as_str(), expected),
        TypeDesc::Other(_) => false,
    }
}

/// Reads the lifetime off the declared return type's first generic argument.
pub fn get_lifetime_from_return_type(output: &Option<TypeDesc>) -> (r: Option<String>)
    ensures
        match r {
            Some(l) => spec_return_lifetime(*output) == Some(l@),
            None => spec_return_lifetime(*output) is None,
        },
{
    match output {
        Some(TypeDesc::Generic { lifetime: Some(l), .. }) => Some(l.clone()),
        _ => None,
    }
}

/// Selects the adapter's declared return type and the result transform for
/// one declaration.
pub fn parse_return_type(output: &Option<TypeDesc>, lifetime: &str, throws_on_err: bool) -> (r: (
    AdapterReturnType,
    ReturnStrategy,
))
    ensures
        r.1 == spec_return_strategy(*output, throws_on_err),
        match r.1 {
            ReturnStrategy::Void => r.0 is UndefinedResult,
            ReturnStrategy::PassthroughAdapterResult => r.0 == AdapterReturnType::Declared(
                output->Some_0,
            ),
            _ => r.0 matches AdapterReturnType::ValueResult { lifetime: l } && l@ == lifetime@,
        },
{
    match output {
        None => (AdapterReturnType::UndefinedResult, ReturnStrategy::Void),
        Some(t) => {
            if type_name_is(t, "JsResult") {
                (AdapterReturnType::Declared(t.duplicate()), ReturnStrategy::PassthroughAdapterResult)
            } else if type_name_is(t, "Result") {
                (
                    AdapterReturnType::ValueResult { lifetime: String::from_str(lifetime) },
                    ReturnStrategy::Fallible { throws_exception: throws_on_err },
                )
            } else {
                (
                    AdapterReturnType::ValueResult { lifetime: String::from_str(lifetime) },
                    ReturnStrategy::PlainValue,
                )
            }
        },
    }
}

} // verus!
