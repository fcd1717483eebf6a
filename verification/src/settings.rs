//! The settings registry and the settings block codec.
//!
//! Settings are tagged entries carried alongside a message to alter the
//! peer's behaviour or convey extra information. The tag is one byte: values
//! 0x00-0xFE are reserved for standard settings, and 0xFF is the custom
//! escape whose body starts with an application-defined sub-tag. A block is
//! encoded as a 16-bit big-endian entry count followed by each entry's tag
//! byte and body, in collection order.

use vstd::prelude::*;

use crate::ToBytes;
use crate::endian::{spec_u16_to_be_bytes, spec_u64_to_be_bytes, u16_to_be_bytes, u64_to_be_bytes};

verus! {

/// The settings kind registry. Tags 0x00-0xFE are reserved for standard
/// settings (two are defined today); tag 0xFF marks a custom setting.
#[derive(Copy, Clone, Debug, PartialEq, Eq, Structural)]
pub enum BussSettings {
    /// The number of bytes in the body that follows the settings block.
    BodyLength,
    /// The host domain name the request is addressed to.
    Host,
    /// The custom escape: interpretation is delegated to an
    /// application-defined sub-tag carried in the body.
    Custom,
}

/// The tag byte of each settings kind.
pub open spec fn spec_settings_byte(s: BussSettings) -> u8 {
    match s {
        BussSettings::BodyLength => 0x00,
        BussSettings::Host => 0x01,
        BussSettings::Custom => 0xff,
    }
}

impl BussSettings {
    /// The byte this kind is tagged with on the wire.
    pub fn to_byte(&self) -> (b: u8)
        ensures
            b == spec_settings_byte(*self),
    {
        match *self {
            BussSettings::BodyLength => 0x00,
            BussSettings::Host => 0x01,
            BussSettings::Custom => 0xff,
        }
    }
}

/// What every settings entry provides: its kind and its body bytes. The
/// block codec never interprets a body; each kind owns its own body rule.
pub trait BaseSettings {
    /// The kind of this entry.
    spec fn type_spec(&self) -> BussSettings;

    /// The exact body bytes of this entry.
    spec fn body_spec(&self) -> Seq<u8>;

    /// Get the settings kind this entry represents.
    fn get_type(&self) -> (t: BussSettings)
        ensures
            t == self.type_spec(),
    ;

    /// Get the body of this entry in bytes.
    fn get_body(&self) -> (b: Vec<u8>)
        ensures
            b@ == self.body_spec(),
    ;
}

/// A user-defined setting: an application sub-tag and raw payload bytes.
/// Its body is the sub-tag byte followed by the payload, with no further
/// structure enforced by the protocol.
pub struct CustomSettings {
    /// The application-defined sub-tag.
    custom_tag: u8,
    /// The payload bytes of the custom setting.
    bytes: Vec<u8>,
}

impl CustomSettings {
    /// The sub-tag of this setting.
    pub closed spec fn spec_tag(&self) -> u8 {
        self.custom_tag
    }

    /// The payload bytes of this setting.
    pub closed spec fn spec_payload(&self) -> Seq<u8> {
        self.bytes@
    }

    /// A custom setting carrying the given sub-tag and payload.
    pub fn new(custom_tag: u8, bytes: Vec<u8>) -> (s: CustomSettings)
        ensures
            s.spec_tag() == custom_tag,
            s.spec_payload() == bytes@,
    {
        CustomSettings { custom_tag, bytes }
    }
}

impl BaseSettings for CustomSettings {
    open spec fn type_spec(&self) -> BussSettings {
        BussSettings::Custom
    }

    open spec fn body_spec(&self) -> Seq<u8> {
        seq![self.spec_tag()] + self.spec_payload()
    }

    fn get_type(&self) -> (t: BussSettings) {
        BussSettings::Custom
    }

    fn get_body(&self) -> (b: Vec<u8>) {
        let mut b: Vec<u8> = Vec::new();
        b.push(self.custom_tag);
        let mut i: usize = 0;
        while i < self.bytes.len()
            invariant
                i <= self.bytes@.len(),
                b@ == seq![self.spec_tag()] + self.spec_payload().take(i as int),
            decreases self.bytes@.len() - i,
        {
            b.push(self.bytes[i]);
            proof {
                assert(self.spec_payload().take(i as int + 1) =~= self.spec_payload().take(
                    i as int,
                ).push(self.spec_payload()[i as int]));
                assert(b@ =~= seq![self.spec_tag()] + self.spec_payload().take(i as int + 1));
            }
            i = i + 1;
        }
        proof {
            assert(self.spec_payload().take(self.spec_payload().len() as int) =~= self
                .spec_payload());
        }
        b
    }
}

/// The standard BodyLength setting: the number of bytes in the message body
/// that follows the settings block. Its body is the length as a fixed-width
/// 64-bit big-endian integer, so the encoding is the same on every platform.
pub struct BodyLength {
    /// Number of body bytes advertised.
    length: usize,
}

impl BodyLength {
    /// The advertised body length.
    pub closed spec fn spec_length(&self) -> usize {
        self.length
    }

    /// A BodyLength setting advertising `size` body bytes.
    pub fn new(size: usize) -> (b: BodyLength)
        ensures
            b.spec_length() == size,
    {
        BodyLength { length: size }
    }

    /// Returns the advertised body length.
    pub fn get_length(&self) -> (n: usize)
        ensures
            n == self.spec_length(),
    {
        self.length
    }
}

impl BaseSettings for BodyLength {
    open spec fn type_spec(&self) -> BussSettings {
        BussSettings::BodyLength
    }

    open spec fn body_spec(&self) -> Seq<u8> {
        spec_u64_to_be_bytes(self.spec_length() as u64)
    }

    fn get_type(&self) -> (t: BussSettings) {
        BussSettings::BodyLength
    }

    fn get_body(&self) -> (b: Vec<u8>) {
        u64_to_be_bytes(self.length as u64)
    }
}

/// One entry of a settings collection. The tag space is closed except for
/// the custom escape, so the defined entry shapes form a closed set.
pub enum SettingsEntry {
    /// A standard BodyLength setting.
    BodyLength(BodyLength),
    /// A custom setting.
    Custom(CustomSettings),
}

impl BaseSettings for SettingsEntry {
    open spec fn type_spec(&self) -> BussSettings {
        match self {
            SettingsEntry::BodyLength(b) => b.type_spec(),
            SettingsEntry::Custom(c) => c.type_spec(),
        }
    }

    open spec fn body_spec(&self) -> Seq<u8> {
        match self {
            SettingsEntry::BodyLength(b) => b.body_spec(),
            SettingsEntry::Custom(c) => c.body_spec(),
        }
    }

    fn get_type(&self) -> (t: BussSettings) {
        match self {
            SettingsEntry::BodyLength(b) => b.get_type(),
            SettingsEntry::Custom(c) => c.get_type(),
        }
    }

    fn get_body(&self) -> (b: Vec<u8>) {
        match self {
            SettingsEntry::BodyLength(b) => b.get_body(),
            SettingsEntry::Custom(c) => c.get_body(),
        }
    }
}

/// The wire bytes of one settings entry: its tag byte, then its body.
pub open spec fn spec_entry_bytes(e: SettingsEntry) -> Seq<u8> {
    seq![spec_settings_byte(e.type_spec())] + e.body_spec()
}

/// The concatenated wire bytes of a sequence of entries, in order.
pub open spec fn spec_entries_bytes(entries: Seq<SettingsEntry>) -> Seq<u8>
    decreases entries.len(),
{
    if entries.len() == 0 {
        Seq::empty()
    } else {
        spec_entry_bytes(entries[0]) + spec_entries_bytes(entries.drop_first())
    }
}

/// Law: appending an entry to a collection appends exactly that entry's tag
/// and body to the encoded block's entry bytes.
pub proof fn lemma_entries_bytes_push(entries: Seq<SettingsEntry>, e: SettingsEntry)
    ensures
        spec_entries_bytes(entries.push(e)) == spec_entries_bytes(entries) + spec_entry_bytes(e),
    decreases entries.len(),
{
    if entries.len() == 0 {
        assert(entries.push(e)[0] == e);
        assert(entries.push(e).drop_first() =~= Seq::<SettingsEntry>::empty());
        assert(spec_entries_bytes(Seq::<SettingsEntry>::empty()) == Seq::<u8>::empty());
        assert(spec_entries_bytes(entries.push(e)) == spec_entry_bytes(e) + spec_entries_bytes(
            Seq::<SettingsEntry>::empty(),
        ));
        assert(spec_entry_bytes(e) + Seq::<u8>::empty() =~= Seq::<u8>::empty()
            + spec_entry_bytes(e));
    } else {
        let tail = entries.drop_first();
        lemma_entries_bytes_push(tail, e);
        assert(entries.push(e)[0] == entries[0]);
        assert(entries.push(e).drop_first() =~= tail.push(e));
        assert(spec_entries_bytes(entries.push(e)) == spec_entry_bytes(entries[0])
            + spec_entries_bytes(tail.push(e)));
        assert(spec_entries_bytes(entries) == spec_entry_bytes(entries[0])
            + spec_entries_bytes(tail));
        assert(spec_entry_bytes(entries[0]) + (spec_entries_bytes(tail) + spec_entry_bytes(e))
            =~= (spec_entry_bytes(entries[0]) + spec_entries_bytes(tail)) + spec_entry_bytes(e));
    }
}

/// The wire bytes of a whole settings collection: the 16-bit big-endian
/// entry count, then each entry's tag and body in collection order.
pub open spec fn spec_settings_bytes(entries: Seq<SettingsEntry>) -> Seq<u8>
    recommends
        entries.len() <= 0xFFFF,
{
    spec_u16_to_be_bytes(entries.len() as u16) + spec_entries_bytes(entries)
}

/// An ordered collection of settings entries; the order is the wire order.
pub struct Settings {
    /// List of settings.
    entries: Vec<SettingsEntry>,
}

impl View for Settings {
    type V = Seq<SettingsEntry>;

    closed spec fn view(&self) -> Seq<SettingsEntry> {
        self.entries@
    }
}

impl Settings {
    /// An empty settings collection.
    pub fn new() -> (s: Settings)
        ensures
            s@ == Seq::<SettingsEntry>::empty(),
    {
        Settings { entries: Vec::new() }
    }

    /// Append a settings entry; every earlier entry keeps its place.
    pub fn add(&mut self, entry: SettingsEntry)
        ensures
            final(self)@ == old(self)@.push(entry),
    {
        self.entries.push(entry);
    }

    /// The entries of the collection, in wire order.
    pub fn iter(&self) -> (entries: &Vec<SettingsEntry>)
        ensures
            entries@ == self@,
    {
        &self.entries
    }
}

impl Default for Settings {
    /// Same as [`Settings::new`].
    fn default() -> (s: Self)
        ensures
            s@ == Seq::<SettingsEntry>::empty(),
    {
        Settings::new()
    }
}

impl ToBytes for Settings {
    /// The entry count must fit the 16-bit count prefix.
    open spec fn wire_valid(&self) -> bool {
        self@.len() <= 0xFFFF
    }

    open spec fn wire_bytes(&self) -> Seq<u8> {
        spec_settings_bytes(self@)
    }

    fn to_bytes(self) -> (bytes: Vec<u8>) {
        let count: u16 = self.entries.len() as u16;
        let mut bytes = u16_to_be_bytes(count);
        let mut i: usize = 0;
        while i < self.entries.len()
            invariant
                i <= self.entries@.len(),
                self.entries@.len() <= 0xFFFF,
                count == self.entries@.len() as u16,
                bytes@ == spec_u16_to_be_bytes(count) + spec_entries_bytes(
                    self.entries@.take(i as int),
                ),
            decreases self.entries@.len() - i,
        {
            let entry = &self.entries[i];
            bytes.push(entry.get_type().to_byte());
            let mut body = entry.get_body();
            bytes.append(&mut body);
            proof {
                lemma_entries_bytes_push(self.entries@.take(i as int), self.entries@[i as int]);
                assert(self.entries@.take(i as int + 1) =~= self.entries@.take(i as int).push(
                    self.entries@[i as int],
                ));
                assert(bytes@ =~= spec_u16_to_be_bytes(count) + spec_entries_bytes(
                    self.entries@.take(i as int + 1),
                ));
            }
            i = i + 1;
        }
        proof {
            assert(self.entries@.take(self.entries@.len() as int) =~= self.entries@);
        }
        bytes
    }
}

} // verus!
