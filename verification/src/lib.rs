//! Codec for the Bussin Binary Protocol: a fixed 8-byte header, a
//! length-prefixed path, and a tagged settings block, each encoded to raw
//! bytes independently and concatenated in header, path, settings order.
//!
//! The codec is purely computational: every encode or decode is a function
//! from values to bytes or from bytes to values (or a typed error), with no
//! I/O and no shared state.

use vstd::prelude::*;

pub mod actions;
pub mod endian;
pub mod settings;
pub mod types;

pub use actions::BussAction;
pub use settings::BussSettings;

verus! {

use crate::actions::{
    BussActionError, lemma_action_byte_round_trip, spec_action_byte, spec_action_from_byte,
};
use crate::endian::{
    lemma_u32_be_bytes_round_trip, lemma_u32_be_round_trip, spec_u32_from_be_bytes,
    spec_u32_to_be_bytes, u32_from_be_bytes, u32_to_be_bytes,
};

/// Fixed 4-byte constant identifying a buffer as a message of this protocol.
/// A decoder must check the first four header bytes against it and reject the
/// message on a mismatch.
pub const MAGIC_NUMBER: u32 = 0x00042069;

/// Major part of the current protocol version.
pub const VERSION_MAJOR: u8 = 1;

/// Minor part of the current protocol version.
pub const VERSION_MINOR: u8 = 0;

/// Why a decode was rejected. A failed decode yields no partial value; the
/// caller must discard the message.
#[derive(Copy, Clone, Debug, PartialEq, Eq, Structural)]
pub enum DecodeError {
    /// The first four bytes do not equal the protocol's magic constant.
    BadMagicNumber,
    /// The action byte is outside the defined set; the offending byte is
    /// kept for diagnostics.
    UnhandledAction(u8),
}

/// Conversion of a protocol value to its raw wire bytes.
pub trait ToBytes {
    /// Whether the value can be carried by the wire format at all (for
    /// example, a settings count must fit its 16-bit prefix).
    spec fn wire_valid(&self) -> bool;

    /// The exact bytes the value encodes to.
    spec fn wire_bytes(&self) -> Seq<u8>;

    /// Convert to bytes.
    fn to_bytes(self) -> (bytes: Vec<u8>)
        requires
            self.wire_valid(),
        ensures
            bytes@ == self.wire_bytes(),
    ;
}

/// Conversion of raw wire bytes to a protocol value, or a typed error.
pub trait FromBytes<T>: Sized {
    /// The exact value (or error) the bytes decode to.
    spec fn parse_spec(bytes: T) -> Result<Self, DecodeError>;

    /// Parse a value of this type from the given bytes.
    fn from_bytes(bytes: T) -> (r: Result<Self, DecodeError>)
        ensures
            r == Self::parse_spec(bytes),
    ;
}

/// The protocol header: always the first 8 bytes of a message.
#[derive(Copy, Clone, Debug, PartialEq, Eq, Structural)]
pub struct BussHeader {
    /// Set to `0x00042069`. A receiver must check the first 4 bytes against
    /// this sequence and reject the request otherwise.
    pub magic_number: u32,
    /// Major part of the protocol version the message speaks.
    pub version_major: u8,
    /// Minor part of the protocol version the message speaks.
    pub version_minor: u8,
    /// Action the client wants executed, or the response code the server
    /// replied with.
    pub action: BussAction,
    /// Reserved. Encoders emit zero; decoders pass a nonzero value through
    /// unchanged rather than rejecting it.
    pub padding: u8,
}

/// The 8 wire bytes of a header: big-endian magic number, major version,
/// minor version, action byte, padding.
pub open spec fn spec_header_bytes(h: BussHeader) -> Seq<u8> {
    spec_u32_to_be_bytes(h.magic_number) + seq![
        h.version_major,
        h.version_minor,
        spec_action_byte(h.action),
        h.padding,
    ]
}

/// The header an 8-byte buffer decodes to: `BadMagicNumber` when the leading
/// big-endian word is not the magic constant, `UnhandledAction` when the
/// action byte is undefined, and otherwise the header with every field read
/// from its fixed offset.
pub open spec fn spec_header_decode(s: Seq<u8>) -> Result<BussHeader, DecodeError>
    recommends
        s.len() == 8,
{
    let magic = spec_u32_from_be_bytes(s.subrange(0, 4));
    if magic != MAGIC_NUMBER {
        Err(DecodeError::BadMagicNumber)
    } else {
        match spec_action_from_byte(s[6]) {
            Ok(a) => Ok(
                (BussHeader {
                    magic_number: magic,
                    version_major: s[4],
                    version_minor: s[5],
                    action: a,
                    padding: s[7],
                }),
            ),
            Err(_) => Err(DecodeError::UnhandledAction(s[6])),
        }
    }
}

impl BussHeader {
    /// A fresh header: the magic constant, the current protocol version,
    /// `Noop`, and zero padding.
    pub fn new() -> (h: BussHeader)
        ensures
            h.magic_number == MAGIC_NUMBER,
            h.version_major == VERSION_MAJOR,
            h.version_minor == VERSION_MINOR,
            h.action == BussAction::Noop,
            h.padding == 0,
    {
        BussHeader {
            magic_number: MAGIC_NUMBER,
            version_major: VERSION_MAJOR,
            version_minor: VERSION_MINOR,
            action: BussAction::Noop,
            padding: 0,
        }
    }

    /// Set the action to be performed; every other field stays as it was.
    pub fn set_action(&mut self, action: BussAction)
        ensures
            final(self).action == action,
            final(self).magic_number == old(self).magic_number,
            final(self).version_major == old(self).version_major,
            final(self).version_minor == old(self).version_minor,
            final(self).padding == old(self).padding,
    {
        self.action = action;
    }
}

impl Default for BussHeader {
    /// Same as [`BussHeader::new`].
    fn default() -> (h: Self)
        ensures
            h.magic_number == MAGIC_NUMBER,
            h.version_major == VERSION_MAJOR,
            h.version_minor == VERSION_MINOR,
            h.action == BussAction::Noop,
            h.padding == 0,
    {
        BussHeader::new()
    }
}

impl ToBytes for BussHeader {
    /// Every header value fits the fixed 8-byte layout.
    open spec fn wire_valid(&self) -> bool {
        true
    }

    open spec fn wire_bytes(&self) -> Seq<u8> {
        spec_header_bytes(*self)
    }

    fn to_bytes(self) -> (bytes: Vec<u8>) {
        let mut bytes = u32_to_be_bytes(self.magic_number);
        bytes.push(self.version_major);
        bytes.push(self.version_minor);
        bytes.push(self.action.to_byte());
        bytes.push(self.padding);
        proof {
            assert(bytes@ =~= spec_header_bytes(self));
        }
        bytes
    }
}

impl FromBytes<&[u8; 8]> for BussHeader {
    open spec fn parse_spec(bytes: &[u8; 8]) -> Result<BussHeader, DecodeError> {
        spec_header_decode(bytes@)
    }

    fn from_bytes(bytes: &[u8; 8]) -> (r: Result<BussHeader, DecodeError>) {
        let magic = u32_from_be_bytes(bytes[0], bytes[1], bytes[2], bytes[3]);
        proof {
            assert(bytes@.subrange(0, 4) =~= seq![bytes@[0], bytes@[1], bytes@[2], bytes@[3]]);
        }
        if magic != MAGIC_NUMBER {
            return Err(DecodeError::BadMagicNumber);
        }
        let action = match BussAction::try_from_byte(bytes[6]) {
            Ok(a) => a,
            Err(BussActionError::Unhandled(b)) => {
                return Err(DecodeError::UnhandledAction(b));
            },
        };
        Ok(
            BussHeader {
                magic_number: magic,
                version_major: bytes[4],
                version_minor: bytes[5],
                action,
                padding: bytes[7],
            },
        )
    }
}

/// Law: decoding the encoding of any header that carries the magic constant
/// yields that header back, padding included.
pub proof fn lemma_header_round_trip(h: BussHeader)
    requires
        h.magic_number == MAGIC_NUMBER,
    ensures
        spec_header_decode(spec_header_bytes(h)) == Ok::<BussHeader, DecodeError>(h),
{
    let s = spec_header_bytes(h);
    assert(s.subrange(0, 4) =~= spec_u32_to_be_bytes(h.magic_number));
    lemma_u32_be_round_trip(h.magic_number);
    lemma_action_byte_round_trip(h.action);
    assert(s[4] == h.version_major && s[5] == h.version_minor && s[6] == spec_action_byte(h.action)
        && s[7] == h.padding);
}

/// Law: an 8-byte buffer whose first four bytes differ from
/// `0x00 0x04 0x20 0x69` decodes to `BadMagicNumber`, whatever the
/// remaining four bytes hold.
pub proof fn lemma_header_decode_bad_magic(s: Seq<u8>)
    requires
        s.len() == 8,
        s.subrange(0, 4) != seq![0x00u8, 0x04u8, 0x20u8, 0x69u8],
    ensures
        spec_header_decode(s) == Err::<BussHeader, DecodeError>(DecodeError::BadMagicNumber),
{
    let m = s.subrange(0, 4);
    if spec_u32_from_be_bytes(m) == MAGIC_NUMBER {
        lemma_u32_be_bytes_round_trip(m);
        assert((((0x00042069u32 >> 24) & 0xff) == 0x00) && (((0x00042069u32 >> 16) & 0xff) == 0x04)
            && (((0x00042069u32 >> 8) & 0xff) == 0x20) && ((0x00042069u32 & 0xff) == 0x69))
            by (bit_vector);
        assert(spec_u32_to_be_bytes(MAGIC_NUMBER) =~= seq![0x00u8, 0x04u8, 0x20u8, 0x69u8]);
        assert(false);
    }
}

} // verus!
