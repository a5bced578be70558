//! The argument marshaling compiler: walks a declaration's parameter list,
//! skips the receiver and the optional host-context parameter, assigns each
//! remaining parameter its positional index in the adapter's incoming argument
//! list, and chooses an extraction strategy from the declared type.

use vstd::prelude::*;

use crate::ast::{FnParam, ParamRole, TypeDesc};
use crate::seqs::{lemma_prefix_full, lemma_prefix_step};
use crate::text::{spec_dec_str, str_eq, usize_to_string};

verus! {

/// Whether a host-context parameter occurs in a parameter list.
pub type CxIsArg = bool;

/// The fixed numeric set: declared types read directly off a host number.
#[derive(PartialEq, Eq, Structural, Clone, Copy, Debug)]
pub enum NumKind {
    U32,
    I32,
    F64,
}

/// How one adapter argument is extracted from the host-side argument list.
#[derive(PartialEq, Eq, Structural, Clone, Copy, Debug)]
pub enum ExtractStrategy {
    /// Read the argument as a host number and cast to the declared numeric
    /// type.
    DirectNumericCast(NumKind),
    /// Read the argument as an opaque host value and run it through the
    /// generic deserialization capability.
    GenericDeserialize,
}

/// One compiled adapter argument: the binding name the emitted extraction
/// statement introduces, the argument's position in the adapter's incoming
/// argument list, and how it is extracted.
pub struct ParameterBinding {
    /// The generated binding name, `arg_` followed by the adapter index.
    pub name: String,
    /// The position after excluding receiver and host-context parameters, in
    /// original order.
    pub adapter_index: usize,
    /// The extraction strategy chosen from the declared type.
    pub strategy: ExtractStrategy,
}

/// Whether a declared type is in the fixed numeric set.
pub open spec fn spec_is_native_numeric(name: Seq<char>) -> bool {
    name == "u32"@ || name == "i32"@ || name == "f64"@
}

/// Which numeric kind a name in the fixed numeric set denotes.
pub open spec fn spec_numeric_kind(name: Seq<char>) -> NumKind {
    if name == "u32"@ {
        NumKind::U32
    } else if name == "i32"@ {
        NumKind::I32
    } else {
        NumKind::F64
    }
}

/// The extraction strategy for a declared type: a direct numeric conversion
/// for the fixed numeric set, generic deserialization for everything else.
pub open spec fn spec_strategy(ty: TypeDesc) -> ExtractStrategy {
    match ty {
        TypeDesc::Ident(n) => if spec_is_native_numeric(n@) {
            ExtractStrategy::DirectNumericCast(spec_numeric_kind(n@))
        } else {
            ExtractStrategy::GenericDeserialize
        },
        _ => ExtractStrategy::GenericDeserialize,
    }
}

/// Whether a bare declared type name is in the fixed numeric set.
pub fn is_native_numeric(name: &str) -> (r: bool)
    ensures
        r == spec_is_native_numeric(name@),
{
    str_eq(name, "u32") || str_eq(name, "f64") || str_eq(name, "i32")
}

/// The declared type of a typed parameter.
pub open spec fn spec_param_type(p: FnParam) -> TypeDesc
    recommends
        p is Typed,
{
    match p {
        FnParam::Typed { ty, .. } => ty,
        FnParam::Receiver => arbitrary(),
    }
}

/// The declared types of the Normal-role parameters, in order.
pub open spec fn spec_normal_types(params: Seq<FnParam>) -> Seq<TypeDesc>
    decreases params.len(),
{
    if params.len() == 0 {
        Seq::empty()
    } else if params.last().spec_role() == ParamRole::Normal {
        spec_normal_types(params.drop_last()).push(spec_param_type(params.last()))
    } else {
        spec_normal_types(params.drop_last())
    }
}

/// How many parameters of the list are skipped (receiver or host context).
pub open spec fn spec_skip_count(params: Seq<FnParam>) -> nat
    decreases params.len(),
{
    if params.len() == 0 {
        0
    } else {
        spec_skip_count(params.drop_last()) + if params.last().spec_role() == ParamRole::Normal {
            0nat
        } else {
            1nat
        }
    }
}

/// Whether a host-context parameter occurs in the list.
pub open spec fn spec_cx_is_arg(params: Seq<FnParam>) -> bool {
    exists|i: int|
        0 <= i < params.len() && (#[trigger] params[i].spec_role()) == ParamRole::HostContext
}

/// Every parameter is either kept or skipped.
pub proof fn lemma_normal_skip_counts(params: Seq<FnParam>)
    ensures
        spec_normal_types(params).len() + spec_skip_count(params) == params.len(),
    decreases params.len(),
{
    if params.len() > 0 {
        lemma_normal_skip_counts(params.drop_last());
    }
}

/// The Normal-role types of a prefix come first among those of the whole list.
pub proof fn lemma_normals_prefix(params: Seq<FnParam>, j: int)
    requires
        0 <= j <= params.len(),
    ensures
        spec_normal_types(params.subrange(0, j)).is_prefix_of(spec_normal_types(params)),
    decreases params.len() - j,
{
    if j == params.len() {
        lemma_prefix_full(params);
    } else {
        lemma_prefix_step(params, j);
        lemma_normals_prefix(params, j + 1);
    }
}

/// The index rule: a Normal-role parameter's adapter-visible index equals its
/// raw position minus the number of receiver and host-context parameters
/// before it, and the type found there is its declared type.
pub proof fn lemma_index_rule(params: Seq<FnParam>, p: int)
    requires
        0 <= p < params.len(),
        params[p].spec_role() == ParamRole::Normal,
    ensures
        ({
            let before = params.subrange(0, p);
            let idx = p - spec_skip_count(before);
            idx == spec_normal_types(before).len() && 0 <= idx < spec_normal_types(params).len()
                && spec_normal_types(params)[idx] == spec_param_type(params[p])
        }),
{
    let before = params.subrange(0, p);
    lemma_normal_skip_counts(before);
    lemma_prefix_step(params, p);
    lemma_normals_prefix(params, p + 1);
    assert(spec_normal_types(params.subrange(0, p + 1)) == spec_normal_types(before).push(
        spec_param_type(params[p]),
    ));
    let pre = spec_normal_types(params.subrange(0, p + 1));
    assert(pre =~= spec_normal_types(params).subrange(0, pre.len() as int));
    assert(spec_normal_types(params)[pre.len() - 1] == pre[pre.len() - 1]);
}

/// Compiles the extraction of one adapter argument from its adapter index and
/// declared type.
pub fn extract_from_native_input_type(arg_idx: usize, ty: &TypeDesc) -> (r: ParameterBinding)
    ensures
        r.name@ == "arg_"@ + spec_dec_str(arg_idx as nat),
        r.adapter_index == arg_idx,
        r.strategy == spec_strategy(*ty),
{
    let mut name = String::from_str("arg_");
    let digits = usize_to_string(arg_idx);
    name.append(digits.as_str());
    let strategy = match ty {
        TypeDesc::Ident(n) => {
            if str_eq(n.as_str(), "u32") {
                ExtractStrategy::DirectNumericCast(NumKind::U32)
            } else if str_eq(n.as_str(), "i32") {
                ExtractStrategy::DirectNumericCast(NumKind::I32)
            } else if str_eq(n.as_str(), "f64") {
                ExtractStrategy::DirectNumericCast(NumKind::F64)
            } else {
                ExtractStrategy::GenericDeserialize
            }
        },
        _ => ExtractStrategy::GenericDeserialize,
    };
    ParameterBinding { name, adapter_index: arg_idx, strategy }
}

/// Compiles a declaration's parameter list into one binding per Normal-role
/// parameter — adapter indices counted after excluding receiver and
/// host-context parameters, in original order — plus the flag telling the
/// emitter to forward the host context to the native call.
#[verifier::loop_isolation(false)]
pub fn parse_rust_fn_args(input_args: &Vec<FnParam>) -> (r: (Vec<ParameterBinding>, CxIsArg))
    ensures
        r.0@.len() == spec_normal_types(input_args@).len(),
        forall|j: int|
            0 <= j < r.0@.len() ==> (#[trigger] r.0@[j]).adapter_index == j && r.0@[j].name@
                == "arg_"@ + spec_dec_str(j as nat) && r.0@[j].strategy == spec_strategy(
                spec_normal_types(input_args@)[j],
            ),
        r.1 == spec_cx_is_arg(input_args@),
{
    let ghost all = input_args@;
    let mut bindings: Vec<ParameterBinding> = Vec::new();
    let mut cx_is_arg = false;
    let mut i: usize = 0;
    while i < input_args.len()
        invariant
            0 <= i <= all.len(),
            bindings@.len() == spec_normal_types(all.subrange(0, i as int)).len(),
            forall|j: int|
                0 <= j < bindings@.len() ==> (#[trigger] bindings@[j]).adapter_index == j
                    && bindings@[j].name@ == "arg_"@ + spec_dec_str(j as nat)
                    && bindings@[j].strategy == spec_strategy(
                    spec_normal_types(all.subrange(0, i as int))[j],
                ),
            cx_is_arg == spec_cx_is_arg(all.subrange(0, i as int)),
        decreases all.len() - i,
    {
        proof {
            lemma_prefix_step(all, i as int);
            lemma_normals_prefix(all, i as int);
            assert(spec_normal_types(all.subrange(0, i as int)).is_prefix_of(
                spec_normal_types(all.subrange(0, i + 1)),
            )) by {
                lemma_prefix_step(all, i as int);
            }
        }
        match &input_args[i] {
            FnParam::Receiver => {
                proof {
                    assert(all.subrange(0, i + 1).last().spec_role() == ParamRole::Receiver);
                }
            },
            FnParam::Typed { name, ty } => {
                if str_eq(name.as_str(), "cx") || str_eq(name.as_str(), "_cx") {
                    cx_is_arg = true;
                    proof {
                        assert(all[i as int].spec_role() == ParamRole::HostContext);
                    }
                } else {
                    proof {
                        assert(all[i as int].spec_role() == ParamRole::Normal);
                    }
                    let b = extract_from_native_input_type(bindings.len(), ty);
                    proof {
                        assert(spec_param_type(all[i as int]) == *ty);
                    }
                    bindings.push(b);
                }
            },
        }
        i = i + 1;
    }
    proof {
        lemma_prefix_full(all);
    }
    (bindings, cx_is_arg)
}

} // verus!
