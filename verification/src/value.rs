//! The values a record decodes to, and the numeric policy that decides in
//! which form an integer is handed on.

use crate::ordered_map::{distinct_keys, entry_models, OrderedMap};
use vstd::prelude::*;

verus! {

/// A decoded record or a part of one.
#[derive(Debug, PartialEq)]
pub enum DecodedValue {
    /// No value.
    Null,
    Bool(bool),
    /// A signed integer of up to 64 bits.
    SignedInt(i64),
    /// An unsigned integer of up to 128 bits.
    UnsignedInt(u128),
    /// A double-precision number, held as its IEEE 754 bit pattern.
    Float64(u64),
    Utf8String(String),
    /// Binary data, kept as it stands.
    ByteString(Vec<u8>),
    /// The elements in the order of the record.
    Sequence(Vec<DecodedValue>),
    /// The entries by text key, in the order in which the keys first occur.
    Mapping(OrderedMap),
}

/// What a decoded value says, whatever holds it: an integer is the number,
/// text its characters, binary data its bytes.
pub enum ValueModel {
    Null,
    Bool(bool),
    Integer(int),
    /// A double-precision number as its bit pattern.
    Float(u64),
    Text(Seq<char>),
    Bytes(Seq<u8>),
    Sequence(Seq<ValueModel>),
    Mapping(Seq<(Seq<char>, ValueModel)>),
}

impl DecodedValue {
    /// What this value says.
    pub open spec fn model(&self) -> ValueModel
        decreases self,
    {
        match self {
            DecodedValue::Null => ValueModel::Null,
            DecodedValue::Bool(value) => ValueModel::Bool(*value),
            DecodedValue::SignedInt(value) => ValueModel::Integer(*value as int),
            DecodedValue::UnsignedInt(value) => ValueModel::Integer(*value as int),
            DecodedValue::Float64(bits) => ValueModel::Float(*bits),
            DecodedValue::Utf8String(text) => ValueModel::Text(text@),
            DecodedValue::ByteString(bytes) => ValueModel::Bytes(bytes@),
            DecodedValue::Sequence(items) => ValueModel::Sequence(
                Seq::new(
                    items@.len(),
                    |i: int|
                        if 0 <= i < items@.len() {
                            items@[i].model()
                        } else {
                            ValueModel::Null
                        },
                ),
            ),
            DecodedValue::Mapping(entries) => ValueModel::Mapping(entries.models()),
        }
    }
}

impl View for DecodedValue {
    type V = ValueModel;

    open spec fn view(&self) -> ValueModel {
        self.model()
    }
}

/// What each of `items` says, in the same order.
pub open spec fn models(items: Seq<DecodedValue>) -> Seq<ValueModel> {
    Seq::new(items.len(), |i: int| items[i]@)
}

/// A sequence says what its elements say, in their order, and a mapping what
/// its entries say under their keys, in their order.
pub proof fn containers_say_what_their_parts_say(value: DecodedValue)
    ensures
        value matches DecodedValue::Sequence(items) ==> value@ == ValueModel::Sequence(
            models(items@),
        ),
        value matches DecodedValue::Mapping(entries) ==> value@ == ValueModel::Mapping(
            entry_models(entries@),
        ),
{
    reveal_with_fuel(DecodedValue::model, 2);
    match value {
        DecodedValue::Sequence(items) => {
            assert(value@->Sequence_0 =~= models(items@));
        },
        DecodedValue::Mapping(entries) => {
            entries.models_follow_entries();
        },
        _ => {},
    }
}

/// The integer forms of the receiving side, from the narrowest to the widest.
#[derive(Debug, Clone, Copy, PartialEq, Eq, Structural)]
pub enum HostInteger {
    /// The small-integer form: 32 bits, signed.
    Small(i32),
    /// 64 bits, signed.
    Wide(i64),
    /// 128 bits, unsigned: for what no signed form holds.
    Huge(u128),
}

impl HostInteger {
    /// The number this form holds.
    pub open spec fn value(self) -> int {
        match self {
            HostInteger::Small(v) => v as int,
            HostInteger::Wide(v) => v as int,
            HostInteger::Huge(v) => v as int,
        }
    }
}

/// True when some integer form holds `v`.
pub open spec fn representable(v: int) -> bool {
    i64::MIN <= v <= u128::MAX
}

/// The narrowest integer form that holds `v` without loss.
pub open spec fn narrowest_form(v: int) -> HostInteger {
    if i32::MIN <= v <= i32::MAX {
        HostInteger::Small(v as i32)
    } else if i64::MIN <= v <= i64::MAX {
        HostInteger::Wide(v as i64)
    } else {
        HostInteger::Huge(v as u128)
    }
}

/// The narrowest form holds exactly the number it was chosen for, and no
/// narrower form could: the small form is chosen for every number of 32
/// signed bits, the wide form only beyond those, the huge form only beyond 64
/// signed bits.
pub proof fn narrowest_form_is_lossless(v: int)
    requires
        representable(v),
    ensures
        narrowest_form(v).value() == v,
        narrowest_form(v) is Small <==> i32::MIN <= v <= i32::MAX,
        narrowest_form(v) is Wide <==> (i64::MIN <= v <= i64::MAX && !(i32::MIN <= v <= i32::MAX)),
        narrowest_form(v) is Huge <==> v > i64::MAX,
{
}

impl DecodedValue {
    /// The number this value stands for, if it is an integer.
    pub open spec fn integer(&self) -> Option<int> {
        match self@ {
            ValueModel::Integer(v) => Some(v),
            _ => None,
        }
    }

    /// The value of a boolean record field.
    pub fn from_bool(value: bool) -> (decoded: DecodedValue)
        ensures
            decoded == DecodedValue::Bool(value),
            decoded@ == ValueModel::Bool(value),
    {
        DecodedValue::Bool(value)
    }

    /// The value of a signed 32-bit field.
    pub fn from_i32(value: i32) -> (decoded: DecodedValue)
        ensures
            decoded == DecodedValue::SignedInt(value as i64),
            decoded@ == ValueModel::Integer(value as int),
    {
        DecodedValue::SignedInt(value as i64)
    }

    /// The value of a signed 64-bit field.
    pub fn from_i64(value: i64) -> (decoded: DecodedValue)
        ensures
            decoded == DecodedValue::SignedInt(value),
            decoded@ == ValueModel::Integer(value as int),
    {
        DecodedValue::SignedInt(value)
    }

    /// The value of an unsigned 16-bit field.
    pub fn from_u16(value: u16) -> (decoded: DecodedValue)
        ensures
            decoded == DecodedValue::UnsignedInt(value as u128),
            decoded@ == ValueModel::Integer(value as int),
    {
        DecodedValue::UnsignedInt(value as u128)
    }

    /// The value of an unsigned 32-bit field.
    pub fn from_u32(value: u32) -> (decoded: DecodedValue)
        ensures
            decoded == DecodedValue::UnsignedInt(value as u128),
            decoded@ == ValueModel::Integer(value as int),
    {
        DecodedValue::UnsignedInt(value as u128)
    }

    /// The value of an unsigned 64-bit field. The number is kept as it is,
    /// also where it lies beyond the signed range.
    pub fn from_u64(value: u64) -> (decoded: DecodedValue)
        ensures
            decoded == DecodedValue::UnsignedInt(value as u128),
            decoded@ == ValueModel::Integer(value as int),
    {
        DecodedValue::UnsignedInt(value as u128)
    }

    /// The value of an unsigned 128-bit field, with every bit kept.
    pub fn from_u128(value: u128) -> (decoded: DecodedValue)
        ensures
            decoded == DecodedValue::UnsignedInt(value),
            decoded@ == ValueModel::Integer(value as int),
    {
        DecodedValue::UnsignedInt(value)
    }

    /// The value of a double-precision field, given as its bit pattern.
    pub fn from_double_bits(bits: u64) -> (decoded: DecodedValue)
        ensures
            decoded == DecodedValue::Float64(bits),
            decoded@ == ValueModel::Float(bits),
    {
        DecodedValue::Float64(bits)
    }

    /// The value of a text field.
    pub fn from_text(text: String) -> (decoded: DecodedValue)
        ensures
            decoded == DecodedValue::Utf8String(text),
            decoded@ == ValueModel::Text(text@),
    {
        DecodedValue::Utf8String(text)
    }

    /// The value of a binary field: the bytes as they stand.
    pub fn from_bytes(bytes: Vec<u8>) -> (decoded: DecodedValue)
        ensures
            decoded == DecodedValue::ByteString(bytes),
            decoded@ == ValueModel::Bytes(bytes@),
    {
        DecodedValue::ByteString(bytes)
    }

    /// The value of an array field whose elements decoded to `items`.
    pub fn from_sequence(items: Vec<DecodedValue>) -> (decoded: DecodedValue)
        ensures
            decoded == DecodedValue::Sequence(items),
            decoded@ == ValueModel::Sequence(models(items@)),
    {
        let decoded = DecodedValue::Sequence(items);
        proof {
            containers_say_what_their_parts_say(decoded);
        }
        decoded
    }

    /// The value of a map field whose entries were stored in `entries`.
    pub fn from_map(entries: OrderedMap) -> (decoded: DecodedValue)
        ensures
            decoded == DecodedValue::Mapping(entries),
            decoded@ == ValueModel::Mapping(entry_models(entries@)),
            distinct_keys(entry_models(entries@)),
    {
        proof {
            use_type_invariant(&entries);
        }
        let decoded = DecodedValue::Mapping(entries);
        proof {
            containers_say_what_their_parts_say(decoded);
        }
        decoded
    }

    /// The form in which an integer is handed on: the narrowest that holds it
    /// without loss. A signed value within 32 bits takes the small form and one
    /// beyond keeps its 64 bits; an unsigned value takes the first form that
    /// holds it and is never rounded. A value that is no integer has no form.
    pub fn host_integer(&self) -> (form: Option<HostInteger>)
        ensures
            form == match self.integer() {
                Some(v) => Some(narrowest_form(v)),
                None => None,
            },
            form matches Some(f) ==> Some(f.value()) == self.integer(),
    {
        match self {
            DecodedValue::SignedInt(v) => {
                if *v >= -2147483648i64 && *v <= 2147483647i64 {
                    Some(HostInteger::Small(*v as i32))
                } else {
                    Some(HostInteger::Wide(*v))
                }
            },
            DecodedValue::UnsignedInt(v) => {
                if *v <= 2147483647u128 {
                    Some(HostInteger::Small(*v as i32))
                } else if *v <= 9223372036854775807u128 {
                    Some(HostInteger::Wide(*v as i64))
                } else {
                    Some(HostInteger::Huge(*v))
                }
            },
            _ => None,
        }
    }
}

} // verus!
