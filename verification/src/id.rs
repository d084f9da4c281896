//! Identifiers for peers, client connections and screens.
use crate::pinning::hex_lower;
use crate::text::{decimal, u64_to_string};
use vstd::prelude::*;

verus! {

/// Identifier for a paired peer machine: a UUID, held as its 128-bit value.
#[derive(Debug, Clone, Copy, PartialEq, Eq, Hash, Structural)]
pub struct PeerId(pub u128);

/// The bits of a UUID that hold its version and variant.
pub open spec fn uuid_version_variant_mask() -> u128 {
    0x0000_0000_0000_F000_C000_0000_0000_0000
}

/// Version 4 (random) and the RFC 4122 variant, in those bits.
pub open spec fn uuid_v4_marker() -> u128 {
    0x0000_0000_0000_4000_8000_0000_0000_0000
}

/// `uuid::Uuid::new_v4`, read back as its 128-bit value. The value is random;
/// the crate's source sets the version nibble to 4 and the variant bits to
/// RFC 4122, and that is all this states of it.
#[verifier::external_body]
fn new_v4_uuid() -> (v: u128)
    ensures
        v & uuid_version_variant_mask() == uuid_v4_marker(),
{
    uuid::Uuid::new_v4().as_u128()
}

impl PeerId {
    /// A fresh random (version 4) identifier.
    pub fn new() -> (id: Self)
        ensures
            id.0 & uuid_version_variant_mask() == uuid_v4_marker(),
    {
        PeerId(new_v4_uuid())
    }

    /// The nil identifier (all zero bits).
    pub fn nil() -> (id: Self)
        ensures
            id.0 == 0,
    {
        PeerId(0)
    }
}

impl Default for PeerId {
    fn default() -> (id: Self)
        ensures
            id.0 == 0,
    {
        PeerId(0)
    }
}

/// The 16 bytes of a UUID's 128-bit value, most significant first.
pub open spec fn uuid_bytes(v: u128) -> Seq<u8> {
    Seq::new(16, |i: int| ((v >> ((8 * (15 - i)) as u128)) & 0xff) as u8)
}

/// A UUID's text: 32 lowercase hex digits in groups of 8, 4, 4, 4 and 12,
/// joined by hyphens.
pub open spec fn uuid_hyphenated(v: u128) -> Seq<char> {
    let h = hex_lower(uuid_bytes(v));
    h.subrange(0, 8) + seq!['-'] + h.subrange(8, 12) + seq!['-'] + h.subrange(12, 16) + seq!['-']
        + h.subrange(16, 20) + seq!['-'] + h.subrange(20, 32)
}

/// `uuid::Uuid::from_u128` then its `Display`: the crate writes the bytes
/// most significant first, as lowercase hex in the hyphenated groups.
#[verifier::external_body]
fn uuid_text(v: u128) -> (s: String)
    ensures
        s@ == uuid_hyphenated(v),
{
    uuid::Uuid::from_u128(v).to_string()
}

impl PeerId {
    /// The identifier as text, in the hyphenated UUID form.
    pub fn to_text(&self) -> (s: String)
        ensures
            s@ == uuid_hyphenated(self.0),
    {
        uuid_text(self.0)
    }
}

/// Law: a fresh identifier is never the nil identifier.
pub proof fn lemma_new_is_not_nil(v: u128)
    requires
        v & uuid_version_variant_mask() == uuid_v4_marker(),
    ensures
        v != 0,
{
    assert(v & 0x0000_0000_0000_F000_C000_0000_0000_0000u128 == 0x0000_0000_0000_4000_8000_0000_0000_0000u128 ==> v != 0) by (bit_vector);
}

/// Identifier for a client connection (an in-flight session, distinct from
/// the long-lived [`PeerId`]).
#[derive(Debug, Clone, Copy, PartialEq, Eq, Hash, Structural)]
pub struct ClientId(pub u64);

/// Identifier for a logical screen.
#[derive(Debug, Clone, Copy, PartialEq, Eq, Hash, Structural)]
pub struct ScreenId(pub u32);

impl ClientId {
    /// The identifier as text: "client#" and the number.
    pub fn to_text(&self) -> (s: String)
        ensures
            s@ == seq!['c', 'l', 'i', 'e', 'n', 't', '#'] + decimal(self.0 as nat),
    {
        proof {
            reveal_strlit("client#");
        }
        let mut s = String::from_str("client#");
        s.append(u64_to_string(self.0).as_str());
        s
    }
}

impl ScreenId {
    /// The identifier as text: "screen#" and the number.
    pub fn to_text(&self) -> (s: String)
        ensures
            s@ == seq!['s', 'c', 'r', 'e', 'e', 'n', '#'] + decimal(self.0 as nat),
    {
        proof {
            reveal_strlit("screen#");
        }
        let mut s = String::from_str("screen#");
        s.append(u64_to_string(self.0 as u64).as_str());
        s
    }
}

} // verus!
