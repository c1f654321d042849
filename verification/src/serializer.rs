use vstd::prelude::*;

use crate::codec::spec_decimal;
use crate::models::Person;
use crate::storage::StorageError;

verus! {

/// Byte image of a person under the length-prefixed binary format used by
/// the host's account codec: a four-byte little-endian count of the
/// name's UTF-8 bytes, those bytes, then the age in four little-endian
/// bytes.  Defined only while the name's byte length fits the prefix.
pub open spec fn borsh_person_bytes(name: Seq<char>, age: u32) -> Seq<u8> {
    let utf8 = vstd::utf8::encode_utf8(name);
    vstd::bytes::spec_u32_to_le_bytes(utf8.len() as u32) + utf8 + vstd::bytes::spec_u32_to_le_bytes(
        age,
    )
}

/// Byte image of a person under the fixed-width binary format: an
/// eight-byte little-endian count of the name's UTF-8 bytes, those bytes,
/// then the age in four little-endian bytes.
pub open spec fn bincode_person_bytes(name: Seq<char>, age: u32) -> Seq<u8> {
    let utf8 = vstd::utf8::encode_utf8(name);
    vstd::bytes::spec_u64_to_le_bytes(utf8.len() as u64) + utf8 + vstd::bytes::spec_u32_to_le_bytes(
        age,
    )
}

/// A lower-case hexadecimal digit.
pub open spec fn hex_digit(n: u8) -> u8 {
    if n < 10 {
        (48 + n) as u8
    } else {
        (87 + n) as u8
    }
}

/// How one byte of a string appears inside a JSON string literal: quote
/// and backslash are escaped, the named control characters take their
/// short escapes, the remaining control bytes a `\u00..` escape, and
/// everything else (including UTF-8 continuation bytes) passes through.
pub open spec fn json_escape_byte(b: u8) -> Seq<u8> {
    if b == 34 {
        seq![92u8, 34u8]
    } else if b == 92 {
        seq![92u8, 92u8]
    } else if b == 8 {
        seq![92u8, 98u8]
    } else if b == 9 {
        seq![92u8, 116u8]
    } else if b == 10 {
        seq![92u8, 110u8]
    } else if b == 12 {
        seq![92u8, 102u8]
    } else if b == 13 {
        seq![92u8, 114u8]
    } else if b < 32 {
        seq![92u8, 117u8, 48u8, 48u8, hex_digit(b / 16), hex_digit(b % 16)]
    } else {
        seq![b]
    }
}

/// A byte string escaped for a JSON string literal, byte by byte.
pub open spec fn json_escaped(bytes: Seq<u8>) -> Seq<u8>
    decreases bytes.len(),
{
    if bytes.len() == 0 {
        Seq::empty()
    } else {
        json_escape_byte(bytes[0]) + json_escaped(bytes.drop_first())
    }
}

/// Byte image of a person in JSON: a two-element array of the quoted,
/// escaped name and the age in decimal, with no whitespace.
pub open spec fn json_person_bytes(name: Seq<char>, age: u32) -> Seq<u8> {
    seq![91u8, 34u8] + json_escaped(vstd::utf8::encode_utf8(name)) + seq![34u8, 44u8]
        + spec_decimal(age as nat) + seq![93u8]
}

/// A byte-exact, invertible encoding of a person.  Each implementation
/// names its byte image and the inputs it accepts, and its decoder
/// recovers exactly the person that produced a given image.
pub trait Serializer: Sized {
    /// The byte image this format gives a person.
    spec fn spec_bytes(name: Seq<char>, age: u32) -> Seq<u8>;

    /// Which persons this format can encode at all.
    spec fn encodable(name: Seq<char>, age: u32) -> bool;

    /// Encode a person, or report that the format cannot hold it.
    fn to_bytes(&self, value: &Person) -> (r: Result<Vec<u8>, StorageError>)
        ensures
            r matches Ok(b) ==> Self::encodable(value.name@, value.age) && b@ == Self::spec_bytes(
                value.name@,
                value.age,
            ),
            r is Err ==> !Self::encodable(value.name@, value.age),
    ;

    /// Decode a byte image back into the person that produced it.
    fn from_bytes(&self, bytes: &[u8]) -> (r: Result<Person, StorageError>)
        ensures
            forall|n: Seq<char>, a: u32|
                Self::encodable(n, a) && bytes@ == #[trigger] Self::spec_bytes(n, a) ==> (r
                    matches Ok(p) && p.name@ == n && p.age == a),
    ;
}

/// The length-prefixed binary format of the host's account codec.
pub struct Borsh;

/// The fixed-width binary format.
pub struct Bincode;

/// The JSON text format.
pub struct Json;

/// Relies on `borsh::to_vec` for a `(String, u32)` pair: a four-byte
/// little-endian length prefix, the name's UTF-8 bytes, then the number;
/// it fails exactly when the byte length does not fit the prefix.
#[verifier::external_body]
fn borsh_encode_pair(name: &String, age: u32) -> (r: Result<Vec<u8>, StorageError>)
    ensures
        r matches Ok(b) ==> vstd::utf8::encode_utf8(name@).len() <= u32::MAX && b@
            == borsh_person_bytes(name@, age),
        r is Err ==> vstd::utf8::encode_utf8(name@).len() > u32::MAX,
{
    borsh::to_vec(&(name.clone(), age)).map_err(|_| StorageError::EncodeFailed)
}

/// Relies on `borsh::from_slice` for a `(String, u32)` pair: applied to
/// exactly the bytes the encoder produced for a pair, it returns that
/// pair (it consumes the whole input and validates the UTF-8).
#[verifier::external_body]
fn borsh_decode_pair(bytes: &[u8]) -> (r: Result<(String, u32), StorageError>)
    ensures
        r matches Err(_) ==> forall|n: Seq<char>, a: u32|
            vstd::utf8::encode_utf8(n).len() <= u32::MAX ==> bytes@ != #[trigger] borsh_person_bytes(n, a),
        r matches Ok(p) ==> forall|n: Seq<char>, a: u32|
            bytes@ == #[trigger] borsh_person_bytes(n, a) ==> p.0@ == n && p.1 == a,
{
    borsh::from_slice::<(String, u32)>(bytes).map_err(|_| StorageError::DecodeFailed)
}

/// Relies on `bincode::serialize` for a `(String, u32)` pair: an
/// eight-byte little-endian length, the UTF-8 bytes, then the number;
/// writing into a vector cannot fail.
#[verifier::external_body]
fn bincode_encode_pair(name: &String, age: u32) -> (r: Result<Vec<u8>, StorageError>)
    ensures
        r is Ok,
        r matches Ok(b) ==> b@ == bincode_person_bytes(name@, age),
{
    bincode::serialize(&(name.clone(), age)).map_err(|_| StorageError::EncodeFailed)
}

/// Relies on `bincode::deserialize` for a `(String, u32)` pair: applied
/// to exactly the bytes the encoder produced for a pair, it returns that
/// pair.
#[verifier::external_body]
fn bincode_decode_pair(bytes: &[u8]) -> (r: Result<(String, u32), StorageError>)
    ensures
        r matches Err(_) ==> forall|n: Seq<char>, a: u32|
            bytes@ != #[trigger] bincode_person_bytes(n, a),
        r matches Ok(p) ==> forall|n: Seq<char>, a: u32|
            bytes@ == #[trigger] bincode_person_bytes(n, a) ==> p.0@ == n && p.1 == a,
{
    bincode::deserialize::<(String, u32)>(bytes).map_err(|_| StorageError::DecodeFailed)
}

/// Relies on `serde_json::to_vec` for a `(String, u32)` pair: a compact
/// two-element array with the string escaped as `json_escape_byte` says;
/// writing into a vector cannot fail.
#[verifier::external_body]
fn json_encode_pair(name: &String, age: u32) -> (r: Result<Vec<u8>, StorageError>)
    ensures
        r is Ok,
        r matches Ok(b) ==> b@ == json_person_bytes(name@, age),
{
    serde_json::to_vec(&(name.clone(), age)).map_err(|_| StorageError::EncodeFailed)
}

/// Relies on `serde_json::from_slice` for a `(String, u32)` pair: applied
/// to exactly the bytes the encoder produced for a pair, it returns that
/// pair (the escapes reverse and the trailing end is checked).
#[verifier::external_body]
fn json_decode_pair(bytes: &[u8]) -> (r: Result<(String, u32), StorageError>)
    ensures
        r matches Err(_) ==> forall|n: Seq<char>, a: u32| bytes@ != #[trigger] json_person_bytes(n, a),
        r matches Ok(p) ==> forall|n: Seq<char>, a: u32|
            bytes@ == #[trigger] json_person_bytes(n, a) ==> p.0@ == n && p.1 == a,
{
    serde_json::from_slice::<(String, u32)>(bytes).map_err(|_| StorageError::DecodeFailed)
}

impl Serializer for Borsh {
    open spec fn spec_bytes(name: Seq<char>, age: u32) -> Seq<u8> {
        borsh_person_bytes(name, age)
    }

    open spec fn encodable(name: Seq<char>, age: u32) -> bool {
        vstd::utf8::encode_utf8(name).len() <= u32::MAX
    }

    fn to_bytes(&self, value: &Person) -> (r: Result<Vec<u8>, StorageError>) {
        borsh_encode_pair(&value.name, value.age)
    }

    fn from_bytes(&self, bytes: &[u8]) -> (r: Result<Person, StorageError>) {
        match borsh_decode_pair(bytes) {
            Ok(p) => Ok(Person { name: p.0, age: p.1 }),
            Err(e) => Err(e),
        }
    }
}

impl Serializer for Bincode {
    open spec fn spec_bytes(name: Seq<char>, age: u32) -> Seq<u8> {
        bincode_person_bytes(name, age)
    }

    open spec fn encodable(name: Seq<char>, age: u32) -> bool {
        true
    }

    fn to_bytes(&self, value: &Person) -> (r: Result<Vec<u8>, StorageError>) {
        bincode_encode_pair(&value.name, value.age)
    }

    fn from_bytes(&self, bytes: &[u8]) -> (r: Result<Person, StorageError>) {
        match bincode_decode_pair(bytes) {
            Ok(p) => Ok(Person { name: p.0, age: p.1 }),
            Err(e) => Err(e),
        }
    }
}

impl Serializer for Json {
    open spec fn spec_bytes(name: Seq<char>, age: u32) -> Seq<u8> {
        json_person_bytes(name, age)
    }

    open spec fn encodable(name: Seq<char>, age: u32) -> bool {
        true
    }

    fn to_bytes(&self, value: &Person) -> (r: Result<Vec<u8>, StorageError>) {
        json_encode_pair(&value.name, value.age)
    }

    fn from_bytes(&self, bytes: &[u8]) -> (r: Result<Person, StorageError>) {
        match json_decode_pair(bytes) {
            Ok(p) => Ok(Person { name: p.0, age: p.1 }),
            Err(e) => Err(e),
        }
    }
}

} // verus!
