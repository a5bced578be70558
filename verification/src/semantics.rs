//! The meaning of an emitted adapter, over the value model: how a compiled
//! extraction reads the host-side argument list, and how each return strategy
//! turns the native call's outcome into the adapter's host-visible result.
//! The generator only emits these templates; this module gives each template
//! its semantics, so that what an adapter does can be stated and proved.

use vstd::prelude::*;

use crate::args::{ExtractStrategy, NumKind, ParameterBinding};
use crate::ret::ReturnStrategy;
use crate::seqs::{lemma_prefix_full, lemma_prefix_step};
use crate::value::{deserialize, serialize, spec_deserialize, spec_deserialize_error_msg,
    spec_serialize, HostModel, HostValue, NativeModel, NativeValue};

verus! {

/// The kinds of host-visible errors an adapter can throw.
#[derive(PartialEq, Eq, Structural, Clone, Copy, Debug)]
pub enum HostErrorKind {
    /// A host type error.
    TypeError,
    /// A generic host error.
    GenericError,
}

/// A host-visible error thrown by an adapter.
#[derive(PartialEq, Eq, Debug)]
pub struct HostError {
    pub kind: HostErrorKind,
    pub message: String,
}

/// The mathematical model of a thrown host error.
pub struct HostErrorModel {
    pub kind: HostErrorKind,
    pub message: Seq<char>,
}

impl View for HostError {
    type V = HostErrorModel;

    open spec fn view(&self) -> HostErrorModel {
        HostErrorModel { kind: self.kind, message: self.message@ }
    }
}

/// What an adapter hands the host runtime: a returned value, or a thrown
/// error.
#[derive(Debug)]
pub enum TransformResult {
    Return(HostValue),
    Throw(HostError),
}

/// The mathematical model of an adapter's result.
pub enum TransformModel {
    Return(HostModel),
    Throw(HostErrorModel),
}

impl View for TransformResult {
    type V = TransformModel;

    open spec fn view(&self) -> TransformModel {
        match self {
            TransformResult::Return(h) => TransformModel::Return(h@),
            TransformResult::Throw(e) => TransformModel::Throw(e@),
        }
    }
}

/// The failure text for an argument index beyond the host-side argument list.
pub open spec fn spec_missing_arg_msg() -> Seq<char> {
    "not enough arguments"@
}

/// The failure text for a numeric extraction applied to a non-number.
pub open spec fn spec_not_a_number_msg() -> Seq<char> {
    "failed to downcast to number"@
}

/// The failure text the conversion capability reports for a native value it
/// cannot serialize (such as a fallible outcome handed to it whole).
pub open spec fn spec_convert_reject_msg() -> Seq<char> {
    "unsupported native value"@
}

/// The fixed diagnostic label prefixed to a constructor failure.
pub open spec fn spec_ctor_fail_prefix() -> Seq<char> {
    "Failed to construct "@
}

/// What a host number casts to under each declared numeric type: the host
/// runtime's number-to-integer conversion saturates at the type's bounds, and
/// the host-native numeric type passes through unchanged.
pub open spec fn spec_cast_num(kind: NumKind, n: int) -> int {
    match kind {
        NumKind::U32 => if n < 0 {
            0
        } else if n > u32::MAX as int {
            u32::MAX as int
        } else {
            n
        },
        NumKind::I32 => if n < i32::MIN as int {
            i32::MIN as int
        } else if n > i32::MAX as int {
            i32::MAX as int
        } else {
            n
        },
        NumKind::F64 => n,
    }
}

/// The view of the host-side argument list.
pub open spec fn host_args_view(s: Seq<HostValue>) -> Seq<HostModel> {
    s.map(|i: int, h: HostValue| h@)
}

/// The view of a list of extracted native values.
pub open spec fn native_vals_view(s: Seq<NativeValue>) -> Seq<NativeModel> {
    s.map(|i: int, v: NativeValue| v@)
}

/// What one compiled extraction yields on a host argument list: the numeric
/// strategy reads a host number and casts; the generic strategy reads an
/// opaque value and deserializes it, turning a conversion failure into a host
/// type error carrying the failure text.
pub open spec fn spec_extract(strategy: ExtractStrategy, idx: int, args: Seq<HostModel>) -> Result<
    NativeModel,
    HostErrorModel,
> {
    if !(0 <= idx < args.len()) {
        Err(HostErrorModel { kind: HostErrorKind::TypeError, message: spec_missing_arg_msg() })
    } else {
        match strategy {
            ExtractStrategy::DirectNumericCast(kind) => match args[idx] {
                HostModel::Number(n) => Ok(NativeModel::Int(spec_cast_num(kind, n))),
                _ => Err(
                    HostErrorModel {
                        kind: HostErrorKind::TypeError,
                        message: spec_not_a_number_msg(),
                    },
                ),
            },
            ExtractStrategy::GenericDeserialize => match spec_deserialize(args[idx]) {
                Some(v) => Ok(v),
                None => Err(
                    HostErrorModel {
                        kind: HostErrorKind::TypeError,
                        message: spec_deserialize_error_msg(),
                    },
                ),
            },
        }
    }
}

/// Runs one compiled extraction on a host argument list.
pub fn apply_extraction(binding: &ParameterBinding, args: &Vec<HostValue>) -> (r: Result<
    NativeValue,
    HostError,
>)
    ensures
        match r {
            Ok(v) => spec_extract(
                binding.strategy,
                binding.adapter_index as int,
                host_args_view(args@),
            ) == Ok::<NativeModel, HostErrorModel>(v@),
            Err(e) => spec_extract(
                binding.strategy,
                binding.adapter_index as int,
                host_args_view(args@),
            ) == Err::<NativeModel, HostErrorModel>(e@),
        },
{
    if binding.adapter_index >= args.len() {
        return Err(
            HostError {
                kind: HostErrorKind::TypeError,
                message: String::from_str("not enough arguments"),
            },
        );
    }
    let arg = &args[binding.adapter_index];
    proof {
        assert(host_args_view(args@)[binding.adapter_index as int] == arg@);
    }
    match binding.strategy {
        ExtractStrategy::DirectNumericCast(kind) => match arg {
            HostValue::Number(n) => {
                let c = cast_num(kind, *n);
                Ok(NativeValue::Int(c))
            },
            _ => Err(
                HostError {
                    kind: HostErrorKind::TypeError,
                    message: String::from_str("failed to downcast to number"),
                },
            ),
        },
        ExtractStrategy::GenericDeserialize => match deserialize(arg) {
            Ok(v) => Ok(v),
            Err(m) => Err(HostError { kind: HostErrorKind::TypeError, message: m }),
        },
    }
}

/// Casts a host number to the declared numeric type, saturating at its
/// bounds.
pub fn cast_num(kind: NumKind, n: i64) -> (r: i64)
    ensures
        r as int == spec_cast_num(kind, n as int),
{
    match kind {
        NumKind::U32 => {
            if n < 0 {
                0
            } else if n > u32::MAX as i64 {
                u32::MAX as i64
            } else {
                n
            }
        },
        NumKind::I32 => {
            if n < i32::MIN as i64 {
                i32::MIN as i64
            } else if n > i32::MAX as i64 {
                i32::MAX as i64
            } else {
                n
            }
        },
        NumKind::F64 => n,
    }
}

/// What extracting every bound argument in ascending adapter index yields:
/// the extracted values in order, or the first extraction failure.
pub open spec fn spec_extract_all(bs: Seq<ParameterBinding>, args: Seq<HostModel>) -> Result<
    Seq<NativeModel>,
    HostErrorModel,
>
    decreases bs.len(),
{
    if bs.len() == 0 {
        Ok(Seq::empty())
    } else {
        match spec_extract_all(bs.drop_last(), args) {
            Ok(pre) => match spec_extract(
                bs.last().strategy,
                bs.last().adapter_index as int,
                args,
            ) {
                Ok(v) => Ok(pre.push(v)),
                Err(e) => Err(e),
            },
            Err(e) => Err(e),
        }
    }
}

/// A failure in a prefix of the bindings is the failure of the whole list.
pub proof fn lemma_extract_all_err(bs: Seq<ParameterBinding>, args: Seq<HostModel>, j: int)
    requires
        0 <= j <= bs.len(),
        spec_extract_all(bs.subrange(0, j), args) is Err,
    ensures
        spec_extract_all(bs, args) == spec_extract_all(bs.subrange(0, j), args),
    decreases bs.len() - j,
{
    if j == bs.len() {
        lemma_prefix_full(bs);
    } else {
        lemma_prefix_step(bs, j);
        lemma_extract_all_err(bs, args, j + 1);
    }
}

/// Runs every compiled extraction, in ascending adapter index, stopping at
/// the first failure.
#[verifier::loop_isolation(false)]
pub fn extract_all(bindings: &Vec<ParameterBinding>, args: &Vec<HostValue>) -> (r: Result<
    Vec<NativeValue>,
    HostError,
>)
    ensures
        match r {
            Ok(vs) => spec_extract_all(bindings@, host_args_view(args@)) == Ok::<
                Seq<NativeModel>,
                HostErrorModel,
            >(native_vals_view(vs@)),
            Err(e) => spec_extract_all(bindings@, host_args_view(args@)) == Err::<
                Seq<NativeModel>,
                HostErrorModel,
            >(e@),
        },
{
    let mut out: Vec<NativeValue> = Vec::new();
    let mut i: usize = 0;
    proof {
        assert(bindings@.subrange(0, 0) =~= Seq::<ParameterBinding>::empty());
        assert(native_vals_view(out@) =~= Seq::<NativeModel>::empty());
    }
    while i < bindings.len()
        invariant
            0 <= i <= bindings@.len(),
            spec_extract_all(bindings@.subrange(0, i as int), host_args_view(args@)) == Ok::<
                Seq<NativeModel>,
                HostErrorModel,
            >(native_vals_view(out@)),
        decreases bindings@.len() - i,
    {
        proof {
            lemma_prefix_step(bindings@, i as int);
        }
        match apply_extraction(&bindings[i], args) {
            Ok(v) => {
                let ghost pre = out@;
                out.push(v);
                proof {
                    assert(native_vals_view(out@) =~= native_vals_view(pre).push(out@.last()@));
                }
            },
            Err(e) => {
                proof {
                    lemma_extract_all_err(bindings@, host_args_view(args@), i + 1);
                }
                return Err(e);
            },
        }
        i = i + 1;
    }
    proof {
        lemma_prefix_full(bindings@);
    }
    Ok(out)
}

/// The outcome of the forward call to the original declaration, as the
/// adapter's return transform sees it.
pub enum NativeOutcome {
    /// The declaration returns nothing.
    Unit,
    /// A plain native value.
    Plain(NativeValue),
    /// An already boundary-wrapped success: the declaration returned the
    /// boundary's own result wrapper.
    Ready(HostValue),
    /// An already boundary-wrapped failure.
    ReadyErr(HostError),
    /// The success variant of a fallible outcome.
    Success(NativeValue),
    /// The failure variant of a fallible outcome, formatted.
    Failure(String),
}

/// The mathematical model of a forward call's outcome.
pub enum OutcomeModel {
    Unit,
    Plain(NativeModel),
    Ready(HostModel),
    ReadyErr(HostErrorModel),
    Success(NativeModel),
    Failure(Seq<char>),
}

impl View for NativeOutcome {
    type V = OutcomeModel;

    open spec fn view(&self) -> OutcomeModel {
        match self {
            NativeOutcome::Unit => OutcomeModel::Unit,
            NativeOutcome::Plain(v) => OutcomeModel::Plain(v@),
            NativeOutcome::Ready(h) => OutcomeModel::Ready(h@),
            NativeOutcome::ReadyErr(e) => OutcomeModel::ReadyErr(e@),
            NativeOutcome::Success(v) => OutcomeModel::Success(v@),
            NativeOutcome::Failure(m) => OutcomeModel::Failure(m@),
        }
    }
}

/// Which outcomes a strategy's template can be applied to: the shape of the
/// outcome is fixed by the declaration's return type, which also fixed the
/// strategy.
pub open spec fn spec_outcome_fits(strategy: ReturnStrategy, o: OutcomeModel) -> bool {
    match strategy {
        ReturnStrategy::Void => true,
        ReturnStrategy::PassthroughAdapterResult => o is Ready || o is ReadyErr,
        ReturnStrategy::Fallible { .. } => o is Success || o is Failure,
        ReturnStrategy::PlainValue => o is Plain,
    }
}

/// What each return strategy's template does with the forward call's outcome.
///
/// `Void` ignores the outcome and returns the host undefined value. The
/// passthrough template hands the already-wrapped result through unchanged.
/// A fallible outcome with the throw-on-failure modifier is unwrapped: the
/// success payload is serialized, the failure becomes a thrown generic error
/// carrying its formatted text. Without the modifier the fallible carrier
/// goes whole to the conversion capability, which rejects it, so either
/// variant surfaces as a thrown type error. A plain value is serialized.
pub open spec fn spec_transform(strategy: ReturnStrategy, o: OutcomeModel) -> TransformModel
    recommends
        spec_outcome_fits(strategy, o),
{
    match strategy {
        ReturnStrategy::Void => TransformModel::Return(HostModel::Undefined),
        ReturnStrategy::PassthroughAdapterResult => match o {
            OutcomeModel::Ready(h) => TransformModel::Return(h),
            OutcomeModel::ReadyErr(e) => TransformModel::Throw(e),
            _ => arbitrary(),
        },
        ReturnStrategy::Fallible { throws_exception } => if throws_exception {
            match o {
                OutcomeModel::Success(v) => TransformModel::Return(spec_serialize(v)),
                OutcomeModel::Failure(m) => TransformModel::Throw(
                    HostErrorModel { kind: HostErrorKind::GenericError, message: m },
                ),
                _ => arbitrary(),
            }
        } else {
            TransformModel::Throw(
                HostErrorModel {
                    kind: HostErrorKind::TypeError,
                    message: spec_convert_reject_msg(),
                },
            )
        },
        ReturnStrategy::PlainValue => match o {
            OutcomeModel::Plain(v) => TransformModel::Return(spec_serialize(v)),
            _ => arbitrary(),
        },
    }
}

/// Applies a return strategy's template to the forward call's outcome.
pub fn apply_return_transform(strategy: ReturnStrategy, outcome: NativeOutcome) -> (r:
    TransformResult)
    requires
        spec_outcome_fits(strategy, outcome@),
    ensures
        r@ == spec_transform(strategy, outcome@),
{
    match strategy {
        ReturnStrategy::Void => TransformResult::Return(HostValue::Undefined),
        ReturnStrategy::PassthroughAdapterResult => match outcome {
            NativeOutcome::Ready(h) => TransformResult::Return(h),
            NativeOutcome::ReadyErr(e) => TransformResult::Throw(e),
            _ => TransformResult::Return(HostValue::Undefined),
        },
        ReturnStrategy::Fallible { throws_exception } => {
            if throws_exception {
                match outcome {
                    NativeOutcome::Success(v) => TransformResult::Return(serialize(&v)),
                    NativeOutcome::Failure(m) => TransformResult::Throw(
                        HostError { kind: HostErrorKind::GenericError, message: m },
                    ),
                    _ => TransformResult::Return(HostValue::Undefined),
                }
            } else {
                TransformResult::Throw(
                    HostError {
                        kind: HostErrorKind::TypeError,
                        message: String::from_str("unsupported native value"),
                    },
                )
            }
        },
        ReturnStrategy::PlainValue => match outcome {
            NativeOutcome::Plain(v) => TransformResult::Return(serialize(&v)),
            _ => TransformResult::Return(HostValue::Undefined),
        },
    }
}

/// Law: for a fallible native call that fails with text `m`, the adapter
/// generated with the throw-on-failure modifier throws a generic host error
/// carrying `m`, while the adapter generated without it throws a type error
/// from the conversion capability — both throw, and the two thrown errors
/// always differ.
pub proof fn lemma_throw_on_error_paths(m: Seq<char>)
    ensures
        spec_transform(
            ReturnStrategy::Fallible { throws_exception: true },
            OutcomeModel::Failure(m),
        ) == TransformModel::Throw(
            HostErrorModel { kind: HostErrorKind::GenericError, message: m },
        ),
        spec_transform(
            ReturnStrategy::Fallible { throws_exception: false },
            OutcomeModel::Failure(m),
        ) == TransformModel::Throw(
            HostErrorModel { kind: HostErrorKind::TypeError, message: spec_convert_reject_msg() },
        ),
        spec_transform(
            ReturnStrategy::Fallible { throws_exception: true },
            OutcomeModel::Failure(m),
        ) != spec_transform(
            ReturnStrategy::Fallible { throws_exception: false },
            OutcomeModel::Failure(m),
        ),
{
}

/// What a constructor adapter does with the native constructor's outcome: a
/// successful native value is boxed and installed under the hidden property
/// on the new receiver (so later method calls can retrieve it) and the host
/// undefined value is returned; a failure becomes a thrown type error
/// prefixed with the fixed diagnostic label.
pub fn apply_constructor_outcome(outcome: NativeOutcome) -> (r: (
    Option<NativeValue>,
    TransformResult,
))
    requires
        outcome@ is Success || outcome@ is Failure,
    ensures
        match outcome@ {
            OutcomeModel::Success(v) => r.0 matches Some(p) && p@ == v && r.1@
                == TransformModel::Return(HostModel::Undefined),
            OutcomeModel::Failure(m) => r.0 is None && r.1@ == TransformModel::Throw(
                HostErrorModel {
                    kind: HostErrorKind::TypeError,
                    message: spec_ctor_fail_prefix() + m,
                },
            ),
            _ => false,
        },
{
    match outcome {
        NativeOutcome::Success(v) => (Some(v), TransformResult::Return(HostValue::Undefined)),
        NativeOutcome::Failure(m) => {
            let mut message = String::from_str("Failed to construct ");
            message.append(m.as_str());
            (
                None,
                TransformResult::Throw(HostError { kind: HostErrorKind::TypeError, message }),
            )
        },
        _ => (None, TransformResult::Return(HostValue::Undefined)),
    }
}

} // verus!
