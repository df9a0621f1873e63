//! What a generated decode adapter answers, and what a generated encode
//! adapter writes.
//!
//! The decode adapter looks at the tag of the store's response only. A byte
//! blob goes to the codec: what the codec decodes is the answer, and what it
//! rejects is a type mismatch whose detail names the type and the codec. Any
//! other response is a type mismatch whose detail names the type alone. The
//! encode adapter writes the codec's bytes as one argument.

use vstd::prelude::*;
use vstd::string::*;
use crate::text::occurs_in;

verus! {

/// A response of the store.
#[derive(Debug)]
pub enum StoreValue {
    Nil,
    Int(i64),
    Data(Vec<u8>),
    Bulk(Vec<StoreValue>),
    Status(String),
    Okay,
    Error(String),
}

/// The kind of a decode error.
#[derive(Clone, Copy, Debug, PartialEq, Eq, Structural)]
pub enum DecodeErrorKind {
    TypeMismatch,
}

/// Why a response could not be decoded.
#[derive(Clone, Debug, PartialEq, Eq)]
pub struct DecodeError {
    pub kind: DecodeErrorKind,
    /// A short description of the kind of failure.
    pub message: String,
    /// The type asked for and the response that was found.
    pub detail: String,
}

/// The message of every type mismatch.
pub open spec fn mismatch_message() -> Seq<char> {
    "Response was of incompatible type"@
}

/// The detail of the error for a byte blob that the codec rejects.
pub open spec fn rejected_detail(
    subject: Seq<char>,
    codec: Seq<char>,
    rendering: Seq<char>,
) -> Seq<char> {
    "Response type not deserializable to "@ + subject + " with "@ + codec
        + ". (response was "@ + rendering + ")"@
}

/// The detail of the error for a response that is no byte blob.
pub open spec fn unexpected_detail(subject: Seq<char>, rendering: Seq<char>) -> Seq<char> {
    "Response type was not deserializable to "@ + subject + ". (response was "@ + rendering
        + ")"@
}

/// The detail of the error for `value`, whose debug rendering is `rendering`.
pub open spec fn mismatch_detail(
    subject: Seq<char>,
    codec: Seq<char>,
    value: StoreValue,
    rendering: Seq<char>,
) -> Seq<char> {
    if value is Data {
        rejected_detail(subject, codec, rendering)
    } else {
        unexpected_detail(subject, rendering)
    }
}

/// Appends to `out` the detail of the error for a byte blob that the codec
/// rejects.
pub fn append_rejected_detail(out: &mut String, subject: &str, codec: &str, rendering: &str)
    ensures
        final(out)@ == old(out)@ + rejected_detail(subject@, codec@, rendering@),
{
    let ghost before = out@;
    out.append("Response type not deserializable to ");
    out.append(subject);
    out.append(" with ");
    out.append(codec);
    out.append(". (response was ");
    out.append(rendering);
    out.append(")");
    assert(out@ =~= before + rejected_detail(subject@, codec@, rendering@));
}

/// Appends to `out` the detail of the error for a response that is no byte
/// blob.
pub fn append_unexpected_detail(out: &mut String, subject: &str, rendering: &str)
    ensures
        final(out)@ == old(out)@ + unexpected_detail(subject@, rendering@),
{
    let ghost before = out@;
    out.append("Response type was not deserializable to ");
    out.append(subject);
    out.append(". (response was ");
    out.append(rendering);
    out.append(")");
    assert(out@ =~= before + unexpected_detail(subject@, rendering@));
}

/// The answer of the decode adapter of the type called `subject`, generated
/// for `codec`, to the response `value` whose debug rendering is `rendering`.
/// `decoded` is what the codec made of the bytes of a byte blob, `None` where
/// it rejected them; it is not looked at for any other response.
pub fn decode_outcome<T>(
    subject: &str,
    codec: &str,
    value: &StoreValue,
    rendering: &str,
    decoded: Option<T>,
) -> (answer: Result<T, DecodeError>)
    ensures
        (*value is Data && decoded is Some) ==> answer == Ok::<T, DecodeError>(decoded->0),
        !(*value is Data && decoded is Some) ==> {
            &&& answer matches Err(e)
            &&& e.kind == DecodeErrorKind::TypeMismatch
            &&& e.message@ == mismatch_message()
            &&& e.detail@ == mismatch_detail(subject@, codec@, *value, rendering@)
        },
{
    let mut detail = String::new();
    match value {
        StoreValue::Data(_) => {
            match decoded {
                Some(v) => {
                    return Ok(v);
                },
                None => {
                    append_rejected_detail(&mut detail, subject, codec, rendering);
                },
            }
        },
        _ => {
            append_unexpected_detail(&mut detail, subject, rendering);
        },
    }
    assert(detail@ =~= mismatch_detail(subject@, codec@, *value, rendering@));
    Err(
        DecodeError {
            kind: DecodeErrorKind::TypeMismatch,
            message: String::from_str("Response was of incompatible type"),
            detail,
        },
    )
}

/// What the encode adapter does with the bytes that the codec made of a
/// value: it writes them to the sink as one argument, behind those that the
/// sink holds.
pub fn encode_outcome(serialized: Vec<u8>, sink: &mut Vec<Vec<u8>>)
    ensures
        final(sink)@ == old(sink)@.push(serialized),
{
    sink.push(serialized);
}

/// The detail of the error for a rejected byte blob holds the name of the
/// type and the name of the codec.
pub proof fn law_rejected_blob_names_type_and_codec(
    subject: Seq<char>,
    codec: Seq<char>,
    value: StoreValue,
    rendering: Seq<char>,
)
    requires
        value is Data,
    ensures
        occurs_in(subject, mismatch_detail(subject, codec, value, rendering)),
        occurs_in(codec, mismatch_detail(subject, codec, value, rendering)),
{
    let detail = mismatch_detail(subject, codec, value, rendering);
    let lead = "Response type not deserializable to "@;
    let at_name = lead.len() as int;
    let at_codec = (lead + subject + " with "@).len() as int;
    assert(detail.subrange(at_name, at_name + subject.len()) =~= subject);
    assert(detail.subrange(at_codec, at_codec + codec.len()) =~= codec);
}

/// The detail of the error for a response that is no byte blob holds the
/// name of the type, and is the same whichever codec the adapter was
/// generated for.
pub proof fn law_other_response_names_type_only(
    subject: Seq<char>,
    codec: Seq<char>,
    other_codec: Seq<char>,
    value: StoreValue,
    rendering: Seq<char>,
)
    requires
        !(value is Data),
    ensures
        occurs_in(subject, mismatch_detail(subject, codec, value, rendering)),
        mismatch_detail(subject, codec, value, rendering) == mismatch_detail(
            subject,
            other_codec,
            value,
            rendering,
        ),
{
    let detail = mismatch_detail(subject, codec, value, rendering);
    let at_name = "Response type was not deserializable to "@.len() as int;
    assert(detail.subrange(at_name, at_name + subject.len()) =~= subject);
}

} // verus!
