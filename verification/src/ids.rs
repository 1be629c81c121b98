//! Stable identities of overlays and text widgets.
//!
//! An identity is a 128-bit UUID held as its big-endian integer value. A
//! durable identity is a non-nil UUID of version 4.

use vstd::prelude::*;

verus! {

/// The version field of a UUID given by its big-endian integer value: the
/// high nibble of byte 6, that is bits 76 to 79.
pub open spec fn uuid_version(bits: u128) -> u128 {
    (bits >> 76u128) & 0xfu128
}

/// A durable identity is a non-nil version-4 UUID.
pub open spec fn is_durable_identity(bits: u128) -> bool {
    bits != 0 && uuid_version(bits) == 4
}

/// The lowercase hexadecimal digit of a value below sixteen.
pub open spec fn hex_digit(n: u128) -> char {
    if n < 10 {
        (48 + n) as char
    } else {
        (87 + n) as char
    }
}

/// The `k`-th of the 32 hexadecimal digits of a 128-bit value, most
/// significant first.
pub open spec fn uuid_nibble(bits: u128, k: int) -> u128 {
    (bits >> ((4 * (31 - k)) as u128)) & 0xfu128
}

/// Which digit stands at position `i` of the hyphenated text: the position
/// less the hyphens before it.
pub open spec fn digit_position(i: int) -> int {
    if i < 8 {
        i
    } else if i < 13 {
        i - 1
    } else if i < 18 {
        i - 2
    } else if i < 23 {
        i - 3
    } else {
        i - 4
    }
}

/// The lowercase hyphenated text of the UUID with the given integer value, as
/// `uuid::Uuid`'s `Display` writes it: its 32 hexadecimal digits, most
/// significant first, with a hyphen after the 8th, 12th, 16th and 20th.
pub open spec fn hyphenated_uuid(bits: u128) -> Seq<char> {
    Seq::new(
        36,
        |i: int|
            if i == 8 || i == 13 || i == 18 || i == 23 {
                '-'
            } else {
                hex_digit(uuid_nibble(bits, digit_position(i)))
            },
    )
}

/// The result of `uuid::Uuid::parse_str` on the given text, as an integer value.
pub uninterp spec fn parsed_uuid(text: Seq<char>) -> Option<u128>;

/// Draws a fresh random UUID with `uuid::Uuid::new_v4`. The crate masks the
/// random bits and sets the version nibble to 4 (and the RFC 4122 variant), so
/// every outcome is a durable identity; nothing is claimed about which one.
#[verifier::external_body]
fn random_v4_bits() -> (bits: u128)
    ensures
        is_durable_identity(bits),
{
    uuid::Uuid::new_v4().as_u128()
}

/// Writes the UUID with the given integer value through `uuid::Uuid`'s
/// `Display` implementation (lowercase, hyphenated). The crate documents that
/// `Uuid::parse_str` reads every format it writes, so parsing the text gives
/// the same value back.
#[verifier::external_body]
fn uuid_text(bits: u128) -> (text: String)
    ensures
        text@ == hyphenated_uuid(bits),
        parsed_uuid(text@) == Some(bits),
{
    uuid::Uuid::from_u128(bits).to_string()
}

/// Parses UUID text with `uuid::Uuid::parse_str`, returning its integer value.
#[verifier::external_body]
fn parse_uuid_text(text: &str) -> (parsed: Option<u128>)
    ensures
        parsed == parsed_uuid(text@),
{
    match uuid::Uuid::parse_str(text) {
        Ok(uuid) => Some(uuid.as_u128()),
        Err(_) => None,
    }
}

/// Computes the version field of a UUID value (`Uuid::get_version_num`).
fn version_of(bits: u128) -> (version: u128)
    ensures
        version == uuid_version(bits),
{
    (bits >> 76u128) & 0xfu128
}

/// The identity of an overlay.
#[derive(Clone, Copy, Debug, Eq, Hash, PartialEq, Structural)]
pub struct OverlayId(u128);

/// The stable identity of a text widget.
#[derive(Clone, Copy, Debug, Eq, Hash, PartialEq, Structural)]
pub struct TextWidgetId(u128);

impl OverlayId {
    /// The UUID value of this identity.
    pub closed spec fn bits(self) -> u128 {
        self.0
    }

    /// The identity with the given UUID value.
    pub closed spec fn spec_from_bits(bits: u128) -> Self {
        OverlayId(bits)
    }

    pub broadcast proof fn lemma_from_bits(bits: u128)
        ensures
            #[trigger] Self::spec_from_bits(bits).bits() == bits,
    {
    }

    pub broadcast proof fn lemma_from_own_bits(id: Self)
        ensures
            #[trigger] Self::spec_from_bits(id.bits()) == id,
    {
    }

    /// Whether this identity is a non-nil version-4 UUID.
    pub open spec fn spec_is_valid(self) -> bool {
        is_durable_identity(self.bits())
    }

    /// An identity with the given UUID value.
    pub fn from_u128(bits: u128) -> (id: Self)
        ensures
            id.bits() == bits,
            id == Self::spec_from_bits(bits),
    {
        OverlayId(bits)
    }

    /// A fresh random version-4 identity.
    pub fn generate() -> (id: Self)
        ensures
            id.spec_is_valid(),
    {
        OverlayId(random_v4_bits())
    }

    /// The UUID value of this identity.
    pub fn as_u128(self) -> (bits: u128)
        ensures
            bits == self.bits(),
    {
        self.0
    }

    /// Whether this identity is a non-nil version-4 UUID.
    pub fn is_valid(self) -> (valid: bool)
        ensures
            valid == self.spec_is_valid(),
    {
        self.0 != 0 && version_of(self.0) == 4
    }

    /// The lowercase hyphenated UUID text of this identity; it parses back
    /// to this identity.
    pub fn to_string(self) -> (text: String)
        ensures
            text@ == hyphenated_uuid(self.bits()),
            parsed_uuid(text@) == Some(self.bits()),
    {
        uuid_text(self.0)
    }

    /// Two identities are equal exactly when their UUID values are.
    pub proof fn lemma_bits_injective(a: Self, b: Self)
        ensures
            a == b <==> a.bits() == b.bits(),
    {
    }
}

impl TextWidgetId {
    /// The UUID value of this identity.
    pub closed spec fn bits(self) -> u128 {
        self.0
    }

    /// The identity with the given UUID value.
    pub closed spec fn spec_from_bits(bits: u128) -> Self {
        TextWidgetId(bits)
    }

    pub broadcast proof fn lemma_from_bits(bits: u128)
        ensures
            #[trigger] Self::spec_from_bits(bits).bits() == bits,
    {
    }

    pub broadcast proof fn lemma_from_own_bits(id: Self)
        ensures
            #[trigger] Self::spec_from_bits(id.bits()) == id,
    {
    }

    /// Whether this identity is a non-nil version-4 UUID.
    pub open spec fn spec_is_valid(self) -> bool {
        is_durable_identity(self.bits())
    }

    /// An identity with the given UUID value.
    pub fn from_u128(bits: u128) -> (id: Self)
        ensures
            id.bits() == bits,
            id == Self::spec_from_bits(bits),
    {
        TextWidgetId(bits)
    }

    /// A fresh random version-4 identity.
    pub fn generate() -> (id: Self)
        ensures
            id.spec_is_valid(),
    {
        TextWidgetId(random_v4_bits())
    }

    /// The UUID value of this identity.
    pub fn as_u128(self) -> (bits: u128)
        ensures
            bits == self.bits(),
    {
        self.0
    }

    /// Whether this identity is a non-nil version-4 UUID.
    pub fn is_valid(self) -> (valid: bool)
        ensures
            valid == self.spec_is_valid(),
    {
        self.0 != 0 && version_of(self.0) == 4
    }

    /// The lowercase hyphenated UUID text of this identity; it parses back
    /// to this identity.
    pub fn to_string(self) -> (text: String)
        ensures
            text@ == hyphenated_uuid(self.bits()),
            parsed_uuid(text@) == Some(self.bits()),
    {
        uuid_text(self.0)
    }

    /// Two identities are equal exactly when their UUID values are.
    pub proof fn lemma_bits_injective(a: Self, b: Self)
        ensures
            a == b <==> a.bits() == b.bits(),
    {
    }
}

/// The overlay identity named by a URL path segment: the text must parse as a
/// UUID that is a durable (non-nil, version-4) identity.
pub open spec fn spec_parse_overlay_id(text: Seq<char>) -> Option<u128> {
    match parsed_uuid(text) {
        Some(bits) => if is_durable_identity(bits) { Some(bits) } else { None },
        None => None,
    }
}

/// Parses the overlay identity in a browser-source URL path segment.
pub fn parse_overlay_id(text: &str) -> (id: Option<OverlayId>)
    ensures
        match id {
            Some(id) => spec_parse_overlay_id(text@) == Some(id.bits()),
            None => spec_parse_overlay_id(text@).is_none(),
        },
{
    match parse_uuid_text(text) {
        Some(bits) => {
            let id = OverlayId::from_u128(bits);
            if id.is_valid() {
                Some(id)
            } else {
                None
            }
        },
        None => None,
    }
}


} // verus!
