//! Identifiers for stored records.
//!
//! An [`Id`] is an opaque string token. It is either derived from the
//! content of the stored bytes or generated server-side as a random unique
//! token; the storage layer treats it as the record's key either way.

use vstd::prelude::*;

verus! {

use crate::json::{hex_char, hex_digit, push_char};

/// Key naming one stored record.
#[derive(Debug)]
pub struct Id(pub String);

impl View for Id {
    type V = Seq<char>;

    open spec fn view(&self) -> Seq<char> {
        self.0@
    }
}

/// True of the character set that a generated identifier is drawn from:
/// lowercase hexadecimal digits.
pub open spec fn is_lower_hex_char(c: char) -> bool {
    ('0' <= c && c <= '9') || ('a' <= c && c <= 'f')
}

/// True of every server-generated identifier: 32 lowercase hexadecimal
/// characters, the simple textual form of a version-4 UUID.
pub open spec fn is_generated_id(s: Seq<char>) -> bool {
    s.len() == 32 && forall|i: int| 0 <= i < s.len() ==> is_lower_hex_char(#[trigger] s[i])
}

/// Relies on `uuid::Uuid::new_v4` and the `Simple` formatter: a fresh
/// random UUID rendered as 32 lowercase hexadecimal characters. The value
/// is random, so nothing beyond its shape is promised.
#[verifier::external_body]
fn new_uuid_simple() -> (r: String)
    ensures
        is_generated_id(r@),
{
    uuid::Uuid::new_v4().as_simple().to_string()
}

impl Id {
    /// Wrap an existing token.
    pub fn new(token: String) -> (r: Id)
        ensures
            r@ == token@,
    {
        Id(token)
    }

    /// Generate a fresh server-side identifier: 32 lowercase hex characters.
    pub fn new_uuid() -> (r: Id)
        ensures
            is_generated_id(r@),
    {
        Id(new_uuid_simple())
    }

    /// The token as a string slice.
    pub fn as_str(&self) -> (r: &str)
        ensures
            r@ == self@,
    {
        self.0.as_str()
    }

    /// Derive the content identifier of a byte payload: the digest of the
    /// bytes, base-encoded. Byte-identical payloads map to the same
    /// identifier, which is what makes dedup by key sound.
    pub fn from_content(bytes: &Vec<u8>) -> (r: Id)
        ensures
            r@ == spec_content_id(bytes@),
    {
        Id(bytes_to_lower_hex(&sha256(bytes)))
    }
}

/// The digest that content identifiers are derived from. What the digest
/// of given bytes is can only be computed, never stated; that it is a
/// function of the bytes alone is the fact dedup rests on.
pub uninterp spec fn digest_of(bytes: Seq<u8>) -> Seq<u8>;

/// Relies on `ring::digest::digest` with SHA-256: the digest depends on
/// the input bytes alone and is 32 bytes long.
#[verifier::external_body]
fn sha256(bytes: &Vec<u8>) -> (r: Vec<u8>)
    ensures
        r@ == digest_of(bytes@),
        r@.len() == 32,
{
    ring::digest::digest(&ring::digest::SHA256, bytes.as_slice()).as_ref().to_vec()
}

/// The lowercase hexadecimal rendering of a byte string, two digits per
/// byte.
pub open spec fn hex_of(bytes: Seq<u8>) -> Seq<char>
    decreases bytes.len(),
{
    if bytes.len() == 0 {
        Seq::empty()
    } else {
        hex_of(bytes.drop_last()) + seq![
            hex_char(bytes.last() as int / 16),
            hex_char(bytes.last() as int % 16),
        ]
    }
}

/// The content identifier of a byte payload: its digest, base-encoded as
/// lowercase hexadecimal.
pub open spec fn spec_content_id(bytes: Seq<u8>) -> Seq<char> {
    hex_of(digest_of(bytes))
}

/// Render a byte string as lowercase hexadecimal.
fn bytes_to_lower_hex(bytes: &Vec<u8>) -> (r: String)
    ensures
        r@ == hex_of(bytes@),
{
    let mut out = String::new();
    let mut i: usize = 0;
    proof {
        assert(bytes@.take(0) =~= Seq::<u8>::empty());
    }
    while i < bytes.len()
        invariant
            i <= bytes.len(),
            out@ == hex_of(bytes@.take(i as int)),
        decreases bytes.len() - i,
    {
        let b = bytes[i] as u32;
        push_hex_digit(&mut out, b / 16);
        push_hex_digit(&mut out, b % 16);
        proof {
            assert(bytes@.take(i as int + 1).drop_last() =~= bytes@.take(i as int));
            assert(bytes@.take(i as int + 1).last() == bytes@[i as int]);
            assert(out@ =~= hex_of(bytes@.take(i as int + 1)));
        }
        i = i + 1;
    }
    proof {
        assert(bytes@.take(bytes@.len() as int) =~= bytes@);
    }
    out
}

/// Append one hexadecimal digit character.
fn push_hex_digit(out: &mut String, d: u32)
    requires
        d < 16,
    ensures
        final(out)@ == old(out)@.push(hex_char(d as int)),
{
    push_char(out, hex_digit(d));
}

} // verus!
