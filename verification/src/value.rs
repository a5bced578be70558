//! A model of the values that cross the embedding boundary, and of the generic
//! conversion capability between them.
//!
//! The generator itself never converts values: the host runtime's conversion
//! capability does, inside the emitted adapters. To state what an emitted
//! adapter does, this module models both sides — structured native values and
//! opaque host values — together with the serialize and deserialize halves of
//! the conversion, and proves that the two halves round-trip.

use vstd::prelude::*;

verus! {

/// A structured native value: the plain data an annotated declaration takes or
/// returns. Numbers are modeled as 64-bit integers.
#[derive(Debug)]
pub enum NativeValue {
    /// A numeric value.
    Int(i64),
    /// A text value.
    Text(String),
    /// A record of named fields, in order.
    Record(Vec<(String, NativeValue)>),
}

/// A host-runtime value, as the embedding boundary sees it.
#[derive(Debug)]
pub enum HostValue {
    /// The host runtime's undefined value.
    Undefined,
    /// A host number.
    Number(i64),
    /// A host string.
    Text(String),
    /// A host object with named properties, in order.
    Object(Vec<(String, HostValue)>),
}

/// The mathematical model of a native value.
pub enum NativeModel {
    Int(int),
    Text(Seq<char>),
    Record(Seq<(Seq<char>, NativeModel)>),
}

/// The mathematical model of a host value.
pub enum HostModel {
    Undefined,
    Number(int),
    Text(Seq<char>),
    Object(Seq<(Seq<char>, HostModel)>),
}

impl View for NativeValue {
    type V = NativeModel;

    open spec fn view(&self) -> NativeModel
        decreases self,
    {
        match self {
            NativeValue::Int(n) => NativeModel::Int(*n as int),
            NativeValue::Text(s) => NativeModel::Text(s@),
            NativeValue::Record(fields) => NativeModel::Record(
                Seq::new(
                    fields@.len(),
                    |i: int|
                        (
                            fields@[i].0@,
                            if 0 <= i < fields@.len() {
                                fields@[i].1@
                            } else {
                                NativeModel::Int(0)
                            },
                        ),
                ),
            ),
        }
    }
}

impl View for HostValue {
    type V = HostModel;

    open spec fn view(&self) -> HostModel
        decreases self,
    {
        match self {
            HostValue::Undefined => HostModel::Undefined,
            HostValue::Number(n) => HostModel::Number(*n as int),
            HostValue::Text(s) => HostModel::Text(s@),
            HostValue::Object(props) => HostModel::Object(
                Seq::new(
                    props@.len(),
                    |i: int|
                        (
                            props@[i].0@,
                            if 0 <= i < props@.len() {
                                props@[i].1@
                            } else {
                                HostModel::Undefined
                            },
                        ),
                ),
            ),
        }
    }
}

/// What serializing a native value through the conversion capability yields.
pub open spec fn spec_serialize(v: NativeModel) -> HostModel
    decreases v,
{
    match v {
        NativeModel::Int(n) => HostModel::Number(n),
        NativeModel::Text(s) => HostModel::Text(s),
        NativeModel::Record(fields) => HostModel::Object(
            Seq::new(
                fields.len(),
                |i: int|
                    (
                        fields[i].0,
                        if 0 <= i < fields.len() {
                            spec_serialize(fields[i].1)
                        } else {
                            HostModel::Undefined
                        },
                    ),
            ),
        ),
    }
}

/// What deserializing a host value through the conversion capability yields:
/// `None` when the host value has no structured native counterpart.
pub open spec fn spec_deserialize(h: HostModel) -> Option<NativeModel>
    decreases h,
{
    match h {
        HostModel::Undefined => None,
        HostModel::Number(n) => Some(NativeModel::Int(n)),
        HostModel::Text(s) => Some(NativeModel::Text(s)),
        HostModel::Object(props) => if forall|i: int|
            0 <= i < props.len() ==> spec_deserialize(#[trigger] props[i].1) is Some {
            Some(
                NativeModel::Record(
                    Seq::new(
                        props.len(),
                        |i: int|
                            (
                                props[i].0,
                                if 0 <= i < props.len() {
                                    spec_deserialize(props[i].1)->Some_0
                                } else {
                                    NativeModel::Int(0)
                                },
                            ),
                    ),
                ),
            )
        } else {
            None
        },
    }
}

/// The failure text the conversion capability reports for a host value with no
/// structured native counterpart.
pub open spec fn spec_deserialize_error_msg() -> Seq<char> {
    "unsupported host value"@
}

/// Serializes a native value into its host counterpart.
#[verifier::loop_isolation(false)]
pub fn serialize(v: &NativeValue) -> (r: HostValue)
    ensures
        r@ == spec_serialize(v@),
    decreases *v,
{
    match v {
        NativeValue::Int(n) => HostValue::Number(*n),
        NativeValue::Text(s) => HostValue::Text(s.clone()),
        NativeValue::Record(fields) => {
            let mut props: Vec<(String, HostValue)> = Vec::new();
            let mut i: usize = 0;
            while i < fields.len()
                invariant
                    0 <= i <= fields@.len(),
                    props@.len() == i,
                    forall|j: int|
                        0 <= j < i ==> #[trigger] props@[j].0@ == fields@[j].0@ && props@[j].1@
                            == spec_serialize(fields@[j].1@),
                decreases fields@.len() - i,
            {
                let key = fields[i].0.clone();
                let val = serialize(&fields[i].1);
                props.push((key, val));
                i = i + 1;
            }
            let r = HostValue::Object(props);
            proof {
                assert(r@->Object_0 =~= spec_serialize(v@)->Object_0);
            }
            r
        },
    }
}

/// Deserializes a host value back into a structured native value, reporting
/// the conversion failure text when the host value has no native counterpart.
#[verifier::loop_isolation(false)]
pub fn deserialize(h: &HostValue) -> (r: Result<NativeValue, String>)
    ensures
        match r {
            Ok(v) => spec_deserialize(h@) == Some(v@),
            Err(e) => spec_deserialize(h@) is None && e@ == spec_deserialize_error_msg(),
        },
    decreases *h,
{
    match h {
        HostValue::Undefined => Err(String::from_str("unsupported host value")),
        HostValue::Number(n) => Ok(NativeValue::Int(*n)),
        HostValue::Text(s) => Ok(NativeValue::Text(s.clone())),
        HostValue::Object(props) => {
            let mut fields: Vec<(String, NativeValue)> = Vec::new();
            let mut i: usize = 0;
            while i < props.len()
                invariant
                    0 <= i <= props@.len(),
                    fields@.len() == i,
                    forall|j: int|
                        0 <= j < i ==> fields@[j].0@ == props@[j].0@ && Some(fields@[j].1@)
                            == spec_deserialize(#[trigger] props@[j].1@),
                decreases props@.len() - i,
            {
                let key = props[i].0.clone();
                match deserialize(&props[i].1) {
                    Ok(v) => {
                        fields.push((key, v));
                    },
                    Err(e) => {
                        proof {
                            assert(h@->Object_0[i as int].1 == props@[i as int].1@);
                            assert(spec_deserialize(h@) is None);
                        }
                        return Err(e);
                    },
                }
                i = i + 1;
            }
            let r = NativeValue::Record(fields);
            proof {
                assert(forall|j: int|
                    0 <= j < props@.len() ==> #[trigger] h@->Object_0[j].1 == props@[j].1@);
                assert forall|j: int| 0 <= j < h@->Object_0.len() implies spec_deserialize(
                    #[trigger] h@->Object_0[j].1,
                ) is Some by {
                    assert(Some(fields@[j].1@) == spec_deserialize(props@[j].1@));
                }
                assert(spec_deserialize(h@) is Some);
                assert(r@->Record_0 =~= spec_deserialize(h@)->Some_0->Record_0);
            }
            Ok(r)
        },
    }
}

/// Round trip: deserializing the serialization of any native value gives back
/// exactly that value.
pub proof fn lemma_conversion_round_trip(v: NativeModel)
    ensures
        spec_deserialize(spec_serialize(v)) == Some(v),
    decreases v,
{
    match v {
        NativeModel::Int(n) => {},
        NativeModel::Text(s) => {},
        NativeModel::Record(fields) => {
            let ser = spec_serialize(v)->Object_0;
            assert forall|i: int| 0 <= i < ser.len() implies spec_deserialize(
                #[trigger] ser[i].1,
            ) is Some by {
                lemma_conversion_round_trip(fields[i].1);
            }
            let back = spec_deserialize(spec_serialize(v))->Some_0->Record_0;
            assert forall|i: int| 0 <= i < back.len() implies back[i] == fields[i] by {
                lemma_conversion_round_trip(fields[i].1);
            }
            assert(back =~= fields);
        },
    }
}

} // verus!
