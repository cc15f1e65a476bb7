use vstd::prelude::*;
use crate::error::{QueryError, ErrorModel};
use crate::tag::Identifier;
use crate::value::{
    canonical_bytes, counted_bytes_encoding, counted_bytes_model, encode_value, lemma_le_bytes_len,
    Value, ValueModel,
};

verus! {

/// The identifier of an event stream: twenty-four bytes.
#[derive(Debug)]
pub struct EventKey {
    pub bytes: Vec<u8>,
}

impl View for EventKey {
    type V = Seq<u8>;

    open spec fn view(&self) -> Seq<u8> {
        self.bytes@
    }
}

/// The handle of an event stream inside a resource: how many events the
/// stream has, and the stream's key.
#[derive(Debug)]
pub struct EventHandle {
    pub count: u64,
    pub key: EventKey,
}

/// The length of an event key.
pub const EVENT_KEY_LENGTH: usize = 24;

/// The length of an event handle's canonical bytes: eight bytes of the
/// counter, one byte for the key's length, and the key.
pub const EVENT_HANDLE_LENGTH: usize = 33;

/// The number that bytes write, least significant byte first.
pub open spec fn le_value(s: Seq<u8>) -> nat
    decreases s.len(),
{
    if s.len() == 0 {
        0
    } else {
        s[0] as nat + 256 * le_value(s.drop_first())
    }
}

/// Whether bytes are laid out as an event handle is: the counter in eight
/// bytes, then the length of a key in one byte, then exactly the key.
pub open spec fn is_event_handle(bytes: Seq<u8>) -> bool {
    bytes.len() == EVENT_HANDLE_LENGTH && bytes[8] == EVENT_KEY_LENGTH
}

/// The counter in the bytes of an event handle.
pub open spec fn event_count_in(bytes: Seq<u8>) -> nat {
    le_value(bytes.subrange(0, 8))
}

/// The key in the bytes of an event handle.
pub open spec fn event_key_in(bytes: Seq<u8>) -> Seq<u8> {
    bytes.subrange(9, EVENT_HANDLE_LENGTH as int)
}

/// Calls `bcs::from_bytes` for `EventHandle` of diem-types. Believed without
/// proof: the call succeeds exactly on bytes that are an eight-byte counter,
/// least significant byte first, the one byte 24, and twenty-four bytes of
/// key, with nothing after them; and it hands back that counter and that key.
#[verifier::external_body]
fn decode_event_handle(bytes: &[u8]) -> (decoded: Result<EventHandle, bcs::Error>)
    ensures
        decoded is Ok <==> is_event_handle(bytes@),
        decoded matches Ok(handle) ==> handle.count == event_count_in(bytes@) && handle.key@
            == event_key_in(bytes@),
{
    match bcs::from_bytes::<diem_types::event::EventHandle>(bytes) {
        Ok(handle) => Ok(EventHandle { count: handle.count(), key: EventKey { bytes: handle.key().to_vec() } }),
        Err(e) => Err(e),
    }
}

/// Calls `to_string` on the codec's error, for a diagnostic. Nothing is
/// claimed of the text.
#[verifier::external_body]
fn codec_error_text(error: &bcs::Error) -> (text: String) {
    error.to_string()
}

/// Whether `result` is what narrowing the field `field` to an event handle
/// owes, given the canonical bytes of the field's value, if it has any: a
/// value without canonical bytes is a fault of the server; bytes that are not
/// an event handle's are the asker's mistake, reported with the field's name;
/// an event handle's bytes give its key.
pub open spec fn key_result_fits(
    result: Result<EventKey, QueryError>,
    field: Seq<u8>,
    encoding: Option<Seq<u8>>,
) -> bool {
    match encoding {
        None => result matches Err(e) && e@ is Internal,
        Some(bytes) => if is_event_handle(bytes) {
            result matches Ok(key) && key@ == event_key_in(bytes)
        } else {
            result matches Err(e) && e@ is BadRequest && e@->BadRequest_field == field
        },
    }
}

/// Whether `result` is what narrowing owes for a value that is a struct of a
/// counter and of fewer than 128 bytes: with twenty-four bytes it is an
/// event handle, and they are its key; with any other number of bytes it is
/// none, which is the asker's mistake.
pub open spec fn handle_result_fits(result: Result<EventKey, QueryError>, value: ValueModel) -> bool {
    forall|count: u64, key: Seq<u8>|
        value == #[trigger] counted_bytes_model(count, key) && key.len() < 128 ==> if key.len()
            == EVENT_KEY_LENGTH {
            result matches Ok(k) && k@ == key
        } else {
            result matches Err(e) && e@ is BadRequest
        }
}

/// The canonical bytes of a struct of a counter and of fewer than 128 bytes
/// are an event handle's exactly when the bytes are twenty-four, and then
/// they are the key.
pub proof fn lemma_counted_bytes_layout(count: u64, key: Seq<u8>)
    requires
        key.len() < 128,
    ensures
        is_event_handle(counted_bytes_encoding(count, key)) <==> key.len() == EVENT_KEY_LENGTH,
        key.len() == EVENT_KEY_LENGTH ==> event_key_in(counted_bytes_encoding(count, key)) == key,
{
    lemma_le_bytes_len(count as nat, 8);
    let written = counted_bytes_encoding(count, key);
    assert(written.len() == 9 + key.len());
    assert(written[8] == key.len() as u8);
    if key.len() == EVENT_KEY_LENGTH {
        assert(event_key_in(written) =~= key);
    }
}

/// Reads the bytes as an event handle and gives the handle's key.
pub fn event_key_of_bytes(field: &Identifier, bytes: &[u8]) -> (result: Result<EventKey, QueryError>)
    ensures
        key_result_fits(result, field@, Some(bytes@)),
{
    match decode_event_handle(bytes) {
        Ok(handle) => Ok(handle.key),
        Err(e) => Err(
            QueryError::BadRequest { field: field.duplicate(), diagnostic: codec_error_text(&e) },
        ),
    }
}

/// Narrows a decoded value of unknown type to an event handle, and gives the
/// handle's key: the value is encoded to its canonical bytes, and the bytes
/// are decoded as an event handle.
pub fn reinterpret_as_event_handle(field: &Identifier, value: &Value) -> (result:
    Result<EventKey, QueryError>)
    ensures
        key_result_fits(result, field@, canonical_bytes(value@)),
        handle_result_fits(result, value@),
{
    match encode_value(value) {
        Ok(bytes) => {
            let result = event_key_of_bytes(field, bytes.as_slice());
            assert forall|count: u64, key: Seq<u8>|
                value@ == #[trigger] counted_bytes_model(count, key) && key.len() < 128 implies if key.len()
                == EVENT_KEY_LENGTH {
                result matches Ok(k) && k@ == key
            } else {
                result matches Err(e) && e@ is BadRequest
            } by {
                lemma_counted_bytes_layout(count, key);
            }
            result
        },
        Err(e) => Err(QueryError::Internal { diagnostic: codec_error_text(&e) }),
    }
}

/// Narrowing never reports a fault of the server for a value that has
/// canonical bytes: it gives the key that the bytes hold, or reports the
/// asker's mistake.
pub proof fn lemma_narrowing_outcomes(result: Result<EventKey, QueryError>, field: Seq<u8>, bytes: Seq<u8>)
    requires
        key_result_fits(result, field, Some(bytes)),
    ensures
        is_event_handle(bytes) ==> result is Ok && result->Ok_0@ == bytes.subrange(9, 33),
        !is_event_handle(bytes) ==> result is Err && result->Err_0@ is BadRequest,
        !(result is Err && result->Err_0@ is Internal),
{
}

} // verus!
