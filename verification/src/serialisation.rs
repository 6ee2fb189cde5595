//! Serialisation to and from the MessagePack wire format.
//!
//! The byte-level encoding and the type-directed traversal of values are the
//! work of the `rmp_serialize` crate; this module adapts its encoder and
//! decoder objects to buffer- and stream-oriented entry points and folds its
//! two error types into the single [`SerialisationError`] enum.

use vstd::prelude::*;

verus! {

// The errors of the underlying codec are opaque values carried through
// unchanged, so the types are declared here without their contents.

/// `std::io::Error`, carried inside the codec's write error.
#[verifier::external_type_specification]
#[verifier::external_body]
pub struct ExIoError(std::io::Error);

/// `rmp_serialize::decode::Error`, returned by a failed decode traversal.
#[verifier::external_type_specification]
#[verifier::external_body]
pub struct ExDecodeError(rmp_serialize::decode::Error);

/// A failed encode traversal, variant for variant the codec's own write
/// error (`rmp_serialize::encode::Error`), each carrying the I/O error
/// that caused it.
#[derive(Debug)]
pub enum EncodeError {
    /// I/O error while writing a marker byte.
    InvalidMarkerWrite(std::io::Error),
    /// I/O error while writing the data that follows a marker.
    InvalidDataWrite(std::io::Error),
}

/// Serialisation error.
#[derive(Debug)]
pub enum SerialisationError {
    /// Error during serialisation (encoding).
    Serialise(EncodeError),
    /// Error during deserialisation (decoding).
    Deserialise(rmp_serialize::decode::Error),
}

impl From<EncodeError> for SerialisationError {
    fn from(err: EncodeError) -> (r: SerialisationError) {
        SerialisationError::Serialise(err)
    }
}

impl vstd::std_specs::convert::FromSpecImpl<EncodeError> for SerialisationError {
    open spec fn obeys_from_spec() -> bool {
        true
    }

    open spec fn from_spec(err: EncodeError) -> SerialisationError {
        SerialisationError::Serialise(err)
    }
}

impl From<rmp_serialize::decode::Error> for SerialisationError {
    fn from(err: rmp_serialize::decode::Error) -> (r: SerialisationError) {
        SerialisationError::Deserialise(err)
    }
}

impl vstd::std_specs::convert::FromSpecImpl<rmp_serialize::decode::Error> for SerialisationError {
    open spec fn obeys_from_spec() -> bool {
        true
    }

    open spec fn from_spec(err: rmp_serialize::decode::Error) -> SerialisationError {
        SerialisationError::Deserialise(err)
    }
}

impl SerialisationError {
    /// A short description of the error kind.
    pub fn description(&self) -> (r: &'static str)
        ensures
            self is Serialise ==> r@ == "Serialise error"@,
            self is Deserialise ==> r@ == "Deserialise error"@,
    {
        match self {
            SerialisationError::Serialise(_) => "Serialise error",
            SerialisationError::Deserialise(_) => "Deserialise error",
        }
    }
}

/// `std::io::Cursor`, the sequential reader that [`deserialise`] lays over
/// its input slice.
#[verifier::external_type_specification]
#[verifier::external_body]
#[verifier::reject_recursive_types(T)]
pub struct ExCursor<T>(std::io::Cursor<T>);

/// Relies on `std::io::Cursor::new`: a reader that yields the bytes of
/// `data` in order, positioned at the first.
#[verifier::external_body]
fn cursor_over<'a>(data: &'a [u8]) -> (r: std::io::Cursor<&'a [u8]>) {
    std::io::Cursor::new(data)
}

/// Relies on `rmp_serialize::Encoder` and `rustc_serialize::Encodable::encode`:
/// one MessagePack encode traversal of `data`, appending the encoded bytes to
/// `write`; on failure the writer may have received a prefix of them.
#[verifier::external_body]
fn encode_into_writer<T: rustc_serialize::Encodable, W: std::io::Write>(
    data: &T,
    write: &mut W,
) -> (r: Result<(), EncodeError>) {
    let mut encoder = rmp_serialize::Encoder::new(write);
    match data.encode(&mut encoder) {
        Ok(()) => Ok(()),
        Err(rmp::encode::ValueWriteError::InvalidMarkerWrite(err)) => {
            Err(EncodeError::InvalidMarkerWrite(err))
        }
        Err(rmp::encode::ValueWriteError::InvalidDataWrite(err)) => {
            Err(EncodeError::InvalidDataWrite(err))
        }
    }
}

/// Relies on `rmp_serialize::Decoder` and `rustc_serialize::Decodable::decode`:
/// one MessagePack decode traversal reading sequentially from `read`, which
/// returns `Err` rather than panicking on malformed, truncated or mismatched
/// input.
#[verifier::external_body]
fn decode_from_reader<R: std::io::Read, T: rustc_serialize::Decodable>(
    read: &mut R,
) -> (r: Result<T, rmp_serialize::decode::Error>) {
    let mut decoder = rmp_serialize::Decoder::new(read);
    rustc_serialize::Decodable::decode(&mut decoder)
}

/// Serialise an Encodable type.
///
/// Returns the encoded form of `data` in a fresh buffer: the same bytes that
/// [`serialise_into`] would append to an empty sink, since this is exactly
/// what the body does.
pub fn serialise<T: rustc_serialize::Encodable>(data: &T) -> (r: Result<
    Vec<u8>,
    SerialisationError,
>)
    ensures
        r matches Err(e) ==> e is Serialise,
{
    let mut buffer: Vec<u8> = Vec::new();
    match serialise_into(data, &mut buffer) {
        Ok(()) => Ok(buffer),
        Err(e) => Err(e),
    }
}

/// Deserialise a Decodable type.
///
/// Reads the whole of `data` through a cursor exactly as [`deserialise_from`]
/// would; every failure is a [`SerialisationError::Deserialise`].
pub fn deserialise<T: rustc_serialize::Decodable>(data: &[u8]) -> (r: Result<
    T,
    SerialisationError,
>)
    ensures
        r matches Err(e) ==> e is Deserialise,
{
    let mut cursor = cursor_over(data);
    deserialise_from(&mut cursor)
}

/// Serialise an Encodable type directly into a Write.
///
/// Every failure, whether of the encode traversal or of the sink, surfaces as
/// a [`SerialisationError::Serialise`]; never as a `Deserialise`.
pub fn serialise_into<T: rustc_serialize::Encodable, W: std::io::Write>(
    data: &T,
    write: &mut W,
) -> (r: Result<(), SerialisationError>)
    ensures
        r matches Err(e) ==> e is Serialise,
{
    match encode_into_writer(data, write) {
        Ok(()) => Ok(()),
        Err(e) => Err(SerialisationError::Serialise(e)),
    }
}

/// Deserialise a Decodable type directly from a Read.
///
/// Every failure, whether of the source or of the decode traversal, surfaces
/// as a [`SerialisationError::Deserialise`]; never as a `Serialise`.
pub fn deserialise_from<R: std::io::Read, T: rustc_serialize::Decodable>(read: &mut R) -> (r:
    Result<T, SerialisationError>)
    ensures
        r matches Err(e) ==> e is Deserialise,
{
    match decode_from_reader(read) {
        Ok(value) => Ok(value),
        Err(e) => Err(SerialisationError::Deserialise(e)),
    }
}

} // verus!
