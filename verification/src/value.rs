use vstd::prelude::*;
use crate::address::Address;
use crate::tag::Identifier;
use move_core_types::account_address::AccountAddress;
use move_core_types::value::{MoveStruct, MoveValue};

verus! {

/// A decoded value of any type, as move-core-types holds it.
#[verifier::external_type_specification]
#[verifier::external_body]
pub struct ExMoveValue(move_core_types::value::MoveValue);

/// The error of the canonical codec.
#[verifier::external_type_specification]
#[verifier::external_body]
pub struct ExCodecError(bcs::Error);

/// A decoded value whose type is not known beforehand: a tree whose leaves
/// are integers, booleans and addresses, and whose inner nodes are vectors
/// and structs, a struct holding the values of its fields in their order.
#[derive(Debug)]
pub enum Value {
    U8(u8),
    U64(u64),
    U128(u128),
    Bool(bool),
    Address(Address),
    Signer(Address),
    Vector(Vec<Value>),
    Struct(Vec<Value>),
}

/// What a `Value` stands for.
pub enum ValueModel {
    U8(u8),
    U64(u64),
    U128(u128),
    Bool(bool),
    Address(Address),
    Signer(Address),
    Vector(Seq<ValueModel>),
    Struct(Seq<ValueModel>),
}

pub open spec fn value_model(v: Value) -> ValueModel
    decreases v, 1nat,
{
    match v {
        Value::U8(x) => ValueModel::U8(x),
        Value::U64(x) => ValueModel::U64(x),
        Value::U128(x) => ValueModel::U128(x),
        Value::Bool(x) => ValueModel::Bool(x),
        Value::Address(a) => ValueModel::Address(a),
        Value::Signer(a) => ValueModel::Signer(a),
        Value::Vector(items) => ValueModel::Vector(
            Seq::new(
                items@.len(),
                |i: int|
                    if 0 <= i < items@.len() {
                        value_model(items@[i])
                    } else {
                        ValueModel::Bool(false)
                    },
            ),
        ),
        Value::Struct(items) => ValueModel::Struct(
            Seq::new(
                items@.len(),
                |i: int|
                    if 0 <= i < items@.len() {
                        value_model(items@[i])
                    } else {
                        ValueModel::Bool(false)
                    },
            ),
        ),
    }
}

impl View for Value {
    type V = ValueModel;

    open spec fn view(&self) -> ValueModel {
        value_model(*self)
    }
}

/// One field of a decoded resource: its name and its value.
#[derive(Debug)]
pub struct Field {
    pub name: Identifier,
    pub value: Value,
}

/// The canonical bytes of a value, where it has any: what `bcs::to_bytes`
/// returns for it.
pub uninterp spec fn canonical_bytes(value: ValueModel) -> Option<Seq<u8>>;

/// The bytes that write `n` in `len` bytes, least significant byte first.
pub open spec fn le_bytes(n: nat, len: nat) -> Seq<u8>
    decreases len,
{
    if len == 0 {
        Seq::empty()
    } else {
        seq![(n % 256) as u8] + le_bytes(n / 256, (len - 1) as nat)
    }
}

/// `le_bytes` writes as many bytes as it is asked for.
pub proof fn lemma_le_bytes_len(n: nat, len: nat)
    ensures
        le_bytes(n, len).len() == len,
    decreases len,
{
    if len > 0 {
        lemma_le_bytes_len(n / 256, (len - 1) as nat);
    }
}

/// The value of a vector of bytes.
pub open spec fn bytes_model(bytes: Seq<u8>) -> ValueModel {
    ValueModel::Vector(Seq::new(bytes.len(), |i: int| ValueModel::U8(bytes[i])))
}

/// The value of a struct of two fields: a counter, and a vector of bytes.
pub open spec fn counted_bytes_model(count: u64, bytes: Seq<u8>) -> ValueModel {
    ValueModel::Struct(seq![ValueModel::U64(count), bytes_model(bytes)])
}

/// The canonical bytes of a struct of a counter and of fewer than 128
/// bytes: the counter in eight bytes, least significant first; the number of
/// the bytes, in one byte; the bytes themselves.
pub open spec fn counted_bytes_encoding(count: u64, bytes: Seq<u8>) -> Seq<u8> {
    le_bytes(count as nat, 8) + seq![bytes.len() as u8] + bytes
}

/// Whether `written` is what encoding `value` owes where `value` is a struct
/// of a counter and of fewer than 128 bytes: the bytes of that struct.
pub open spec fn writes_counted_bytes(value: ValueModel, written: Option<Seq<u8>>) -> bool {
    forall|count: u64, bytes: Seq<u8>|
        value == #[trigger] counted_bytes_model(count, bytes) && bytes.len() < 128 ==> written
            == Some(counted_bytes_encoding(count, bytes))
}

/// Builds the same value as move-core-types holds it, variant for variant.
/// Nothing is claimed of the result.
#[verifier::external_body]
fn outside_value(value: &Value) -> (converted: MoveValue) {
    match value {
        Value::U8(x) => MoveValue::U8(*x),
        Value::U64(x) => MoveValue::U64(*x),
        Value::U128(x) => MoveValue::U128(*x),
        Value::Bool(x) => MoveValue::Bool(*x),
        Value::Address(a) => MoveValue::Address(AccountAddress::new(a.value.to_be_bytes())),
        Value::Signer(a) => MoveValue::Signer(AccountAddress::new(a.value.to_be_bytes())),
        Value::Vector(items) => MoveValue::Vector(items.iter().map(outside_value).collect()),
        Value::Struct(items) => MoveValue::Struct(
            MoveStruct::Runtime(items.iter().map(outside_value).collect()),
        ),
    }
}

/// Calls `bcs::to_bytes` on the value as move-core-types holds it. Believed
/// without proof: the call's outcome depends on the value alone, so it is
/// `canonical_bytes` of it; and a struct of a counter and of fewer than 128
/// bytes is written as the codec's format says, field after field, an
/// integer least significant byte first, a vector behind its length.
#[verifier::external_body]
pub(crate) fn encode_value(value: &Value) -> (encoded: Result<Vec<u8>, bcs::Error>)
    ensures
        match canonical_bytes(value@) {
            Some(bytes) => encoded matches Ok(v) && v@ == bytes,
            None => encoded is Err,
        },
        writes_counted_bytes(
            value@,
            match encoded {
                Ok(v) => Some(v@),
                Err(_) => None,
            },
        ),
{
    bcs::to_bytes(&outside_value(value))
}

impl Value {
    /// The value of a vector of the given bytes.
    pub fn vector_u8(bytes: &Vec<u8>) -> (value: Value)
        ensures
            value@ == bytes_model(bytes@),
    {
        let n: usize = bytes.len();
        let mut items: Vec<Value> = Vec::new();
        let mut i: usize = 0;
        while i < n
            invariant
                n == bytes@.len(),
                i <= n,
                items@.len() == i,
                forall|k: int| 0 <= k < i ==> (#[trigger] items@[k])@ == ValueModel::U8(bytes@[k]),
            decreases n - i,
        {
            items.push(Value::U8(bytes[i]));
            i = i + 1;
        }
        let value = Value::Vector(items);
        assert(value@->Vector_0 =~= bytes_model(bytes@)->Vector_0);
        value
    }
}

} // verus!
