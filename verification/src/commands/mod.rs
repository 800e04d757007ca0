//! From piped input to a payload: the bytes to serve and their content type.
//!
//! The host hands a command its input in one of four shapes. Text, booleans
//! and binary data can be served; everything else is refused before a server
//! is made. The content type of data comes from the input's metadata where it
//! has one, else from the kind of value, and carries a UTF-8 charset. Where
//! no data is given, as no input at all or as a value of kind nothing, the
//! payload is empty plain text, whatever the metadata says.

use vstd::prelude::*;
use vstd::string::*;
use vstd::utf8::*;

pub mod serve;

verus! {

/// A value of the host, as far as a payload can be made from it.
#[derive(Debug)]
pub enum InputValue {
    String(String),
    Nothing,
    Bool(bool),
    Binary(Vec<u8>),
    /// Any other kind of value.
    Other,
}

/// What the host knows about a piece of input.
#[derive(Debug)]
pub struct Metadata {
    pub content_type: Option<String>,
}

/// The input of a command.
#[derive(Debug)]
pub enum PipelineInput {
    /// No input at all.
    Empty,
    /// One value.
    Value(InputValue, Option<Metadata>),
    /// A stream of values.
    ListStream(Option<Metadata>),
    /// A stream of bytes, read to its end into one value.
    ByteStream(InputValue, Option<Metadata>),
}

/// The input is of a kind that cannot be served.
#[derive(Clone, Copy, Debug, PartialEq, Eq)]
pub enum PayloadError {
    /// A value that is neither text, nothing, a boolean nor binary data.
    UnsupportedValue,
    /// A stream of values.
    UnsupportedListStream,
    /// A byte stream that came out as neither binary data nor text.
    UnexpectedStreamValue,
    /// The content type cannot be sent as a header value.
    InvalidContentType,
}

/// The charset that every content type taken from metadata or from the kind
/// of value is given.
pub open spec fn charset_suffix() -> Seq<char> {
    "; charset=utf-8"@
}

/// The content type of input with metadata `meta`: the metadata's content
/// type, or `default` where there is none, and the charset.
pub open spec fn mime_of(meta: Option<Metadata>, default: Seq<char>) -> Seq<char> {
    match meta {
        Some(Metadata { content_type: Some(given) }) => given@ + charset_suffix(),
        _ => default + charset_suffix(),
    }
}

/// The payload where no data is given: no bytes, as plain text in UTF-8.
pub open spec fn no_data() -> (Seq<u8>, Seq<char>) {
    (Seq::empty(), "text/plain; charset=utf-8"@)
}

/// The payload of a boolean: `true` or `false`, spelled out in ASCII.
pub open spec fn boolean_payload(b: bool) -> Seq<u8> {
    if b {
        seq![0x74u8, 0x72, 0x75, 0x65]
    } else {
        seq![0x66u8, 0x61, 0x6c, 0x73, 0x65]
    }
}

/// The payload of one value.
pub open spec fn value_payload(val: InputValue, meta: Option<Metadata>) -> Result<
    (Seq<u8>, Seq<char>),
    PayloadError,
> {
    match val {
        InputValue::String(text) => Ok((encode_utf8(text@), mime_of(meta, "text/plain"@))),
        InputValue::Nothing => Ok(no_data()),
        InputValue::Bool(b) => Ok((boolean_payload(b), mime_of(meta, "text/plain"@))),
        InputValue::Binary(bytes) => Ok((bytes@, mime_of(meta, "application/octet-stream"@))),
        InputValue::Other => Err(PayloadError::UnsupportedValue),
    }
}

/// The payload of a byte stream that was read into `val`.
pub open spec fn stream_payload(val: InputValue, meta: Option<Metadata>) -> Result<
    (Seq<u8>, Seq<char>),
    PayloadError,
> {
    match val {
        InputValue::Binary(bytes) => Ok((bytes@, mime_of(meta, "application/octet-stream"@))),
        InputValue::String(text) => Ok((encode_utf8(text@), mime_of(meta, "text/plain"@))),
        _ => Err(PayloadError::UnexpectedStreamValue),
    }
}

/// The payload of a command's input.
pub open spec fn payload_of(input: PipelineInput) -> Result<(Seq<u8>, Seq<char>), PayloadError> {
    match input {
        PipelineInput::Empty => Ok(no_data()),
        PipelineInput::Value(val, meta) => value_payload(val, meta),
        PipelineInput::ListStream(_) => Err(PayloadError::UnsupportedListStream),
        PipelineInput::ByteStream(val, meta) => stream_payload(val, meta),
    }
}

/// `parsed` is the payload `expected`, or the same refusal.
pub open spec fn is_payload(
    parsed: Result<(Vec<u8>, String), PayloadError>,
    expected: Result<(Seq<u8>, Seq<char>), PayloadError>,
) -> bool {
    match parsed {
        Ok((data, mime)) => expected == Ok::<(Seq<u8>, Seq<char>), PayloadError>((data@, mime@)),
        Err(error) => expected == Err::<(Seq<u8>, Seq<char>), PayloadError>(error),
    }
}

impl PayloadError {
    /// What went wrong, for the user.
    pub fn message(&self) -> (text: &'static str)
        ensures
            text@ == match *self {
                PayloadError::UnsupportedValue => "Not Implemented! (Value::*)"@,
                PayloadError::UnsupportedListStream => "Not Implemented! (PipelineData::ListStream)"@,
                PayloadError::UnexpectedStreamValue => "How did you get here?"@,
                PayloadError::InvalidContentType => "Invalid content type"@,
            },
    {
        match self {
            PayloadError::UnsupportedValue => "Not Implemented! (Value::*)",
            PayloadError::UnsupportedListStream => "Not Implemented! (PipelineData::ListStream)",
            PayloadError::UnexpectedStreamValue => "How did you get here?",
            PayloadError::InvalidContentType => "Invalid content type",
        }
    }

    /// The text to show at the place of the value at fault, where a value
    /// is at fault.
    pub fn label(&self) -> (text: Option<&'static str>)
        ensures
            match *self {
                PayloadError::UnsupportedValue => text matches Some(t) && t@
                    == "Unimplemented data type."@,
                PayloadError::UnsupportedListStream => text is None,
                PayloadError::UnexpectedStreamValue => text matches Some(t) && t@
                    == "Literally how?"@,
                PayloadError::InvalidContentType => text is None,
            },
    {
        match self {
            PayloadError::UnsupportedValue => Some("Unimplemented data type."),
            PayloadError::UnsupportedListStream => None,
            PayloadError::UnexpectedStreamValue => Some("Literally how?"),
            PayloadError::InvalidContentType => None,
        }
    }
}

/// The payload where no data is given.
pub fn empty_payload() -> (payload: (Vec<u8>, String))
    ensures
        (payload.0@, payload.1@) == no_data(),
{
    (Vec::new(), String::from_str("text/plain; charset=utf-8"))
}

/// The content type for input with metadata `meta`.
pub fn parse_pipeline_mime(meta: Option<Metadata>, default: &str) -> (mime: String)
    ensures
        mime@ == mime_of(meta, default@),
{
    let mut mime = match meta {
        Some(Metadata { content_type: Some(given) }) => given,
        _ => String::from_str(default),
    };
    mime.append("; charset=utf-8");
    mime
}

/// The payload of one value.
pub fn parse_value(val: InputValue, meta: Option<Metadata>) -> (parsed: Result<
    (Vec<u8>, String),
    PayloadError,
>)
    ensures
        is_payload(parsed, value_payload(val, meta)),
{
    match val {
        InputValue::String(text) => Ok(
            (text.as_str().as_bytes_vec(), parse_pipeline_mime(meta, "text/plain")),
        ),
        InputValue::Nothing => Ok(empty_payload()),
        InputValue::Bool(b) => {
            let text = if b { "true" } else { "false" };
            proof {
                lemma_boolean_text();
            }
            Ok((text.as_bytes_vec(), parse_pipeline_mime(meta, "text/plain")))
        },
        InputValue::Binary(bytes) => Ok(
            (bytes, parse_pipeline_mime(meta, "application/octet-stream")),
        ),
        InputValue::Other => Err(PayloadError::UnsupportedValue),
    }
}

/// The payload of a byte stream that was read into `val`.
pub fn parse_byte_stream(val: InputValue, meta: Option<Metadata>) -> (parsed: Result<
    (Vec<u8>, String),
    PayloadError,
>)
    ensures
        is_payload(parsed, stream_payload(val, meta)),
{
    match val {
        InputValue::Binary(bytes) => Ok(
            (bytes, parse_pipeline_mime(meta, "application/octet-stream")),
        ),
        InputValue::String(text) => Ok(
            (text.as_str().as_bytes_vec(), parse_pipeline_mime(meta, "text/plain")),
        ),
        _ => Err(PayloadError::UnexpectedStreamValue),
    }
}

/// A stream of values has no payload.
pub fn parse_list_stream(meta: Option<Metadata>) -> (parsed: Result<
    (Vec<u8>, String),
    PayloadError,
>)
    ensures
        parsed == Err::<(Vec<u8>, String), PayloadError>(PayloadError::UnsupportedListStream),
{
    Err(PayloadError::UnsupportedListStream)
}

/// The payload of a command's input.
pub fn parse_pipeline_data(input: PipelineInput) -> (parsed: Result<
    (Vec<u8>, String),
    PayloadError,
>)
    ensures
        is_payload(parsed, payload_of(input)),
{
    match input {
        PipelineInput::Empty => Ok(empty_payload()),
        PipelineInput::Value(val, meta) => parse_value(val, meta),
        PipelineInput::ListStream(meta) => parse_list_stream(meta),
        PipelineInput::ByteStream(val, meta) => parse_byte_stream(val, meta),
    }
}

proof fn lemma_boolean_text()
    ensures
        encode_utf8("true"@) == boolean_payload(true),
        encode_utf8("false"@) == boolean_payload(false),
{
    reveal_strlit("true");
    reveal_strlit("false");
    is_ascii_chars_encode_utf8("true"@);
    is_ascii_chars_encode_utf8("false"@);
    assert(encode_utf8("true"@) =~= boolean_payload(true));
    assert(encode_utf8("false"@) =~= boolean_payload(false));
}

} // verus!
