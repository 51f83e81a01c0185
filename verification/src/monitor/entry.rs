//! The entry records that follow the header: one measured quantity each.

use vstd::prelude::*;
use vstd::slice::slice_subrange;

use crate::text::{decode_text, is_lossy_reading, text_bytes, utf8_lossy};
use crate::wire::{le_u32, read_u32};

verus! {

/// Bytes in each of the five text buffers of an entry record.
pub const TEXT_CAPACITY: usize = 260;

/// Bytes in an entry record as this decoder reads it. The stride from one
/// record to the next is the header's to say.
pub const ENTRY_SIZE: usize = 1324;

/// Byte offset of the source name.
pub const SRC_NAME_AT: usize = 0;

/// Byte offset of the source units.
pub const SRC_UNITS_AT: usize = 260;

/// Byte offset of the localized source name.
pub const LOCALIZED_SRC_NAME_AT: usize = 520;

/// Byte offset of the localized source units.
pub const LOCALIZED_SRC_UNITS_AT: usize = 780;

/// Byte offset of the recommended display format.
pub const RECOMMENDED_FORMAT_AT: usize = 1040;

/// Byte offset of the current value.
pub const DATA_AT: usize = 1300;

/// Byte offset of the lower limit.
pub const MIN_LIMIT_AT: usize = 1304;

/// Byte offset of the upper limit.
pub const MAX_LIMIT_AT: usize = 1308;

/// Byte offset of the flags.
pub const FLAGS_AT: usize = 1312;

/// Byte offset of the GPU index.
pub const GPU_AT: usize = 1316;

/// Byte offset of the source id.
pub const SRC_ID_AT: usize = 1320;

/// The entry is shown in the on-screen display.
pub const SHOW_IN_OSD: u32 = 0x1;

/// The entry is shown on the keyboard display.
pub const SHOW_IN_LCD: u32 = 0x2;

/// The entry is shown in the tray.
pub const SHOW_IN_TRAY: u32 = 0x4;

/// Every flag this decoder knows.
pub const ALL_FLAGS: u32 = 0x7;

/// The visibility flags of an entry. Bits that name no flag are never kept.
#[derive(Clone, Copy, Debug, PartialEq, Eq, Hash)]
pub struct EntryFlags {
    bits: u32,
}

impl EntryFlags {
    #[verifier::type_invariant]
    spec fn known_bits_only(self) -> bool {
        self.bits <= ALL_FLAGS
    }

    /// The flags as a bit set.
    pub closed spec fn spec_bits(&self) -> u32 {
        self.bits
    }

    /// Whether every bit of `mask` is set.
    pub open spec fn spec_contains(&self, mask: u32) -> bool {
        self.spec_bits() & mask == mask
    }

    /// No flag.
    pub fn empty() -> (flags: EntryFlags)
        ensures
            flags.spec_bits() == 0,
    {
        EntryFlags { bits: 0 }
    }

    /// The flags among `bits`; bits that name no flag are dropped.
    pub fn from_bits_truncate(bits: u32) -> (flags: EntryFlags)
        ensures
            flags.spec_bits() == bits & ALL_FLAGS,
            flags.spec_bits() == bits % 8,
    {
        assert(bits & 0x7 <= 0x7 && bits & 0x7 == bits % 8) by (bit_vector);
        EntryFlags { bits: bits & ALL_FLAGS }
    }

    /// The flags as a bit set, which holds no bit beyond `ALL_FLAGS`.
    #[verifier::when_used_as_spec(spec_bits)]
    pub fn bits(&self) -> (bits: u32)
        ensures
            bits == self.spec_bits(),
            bits <= ALL_FLAGS,
            bits & ALL_FLAGS == bits,
    {
        proof {
            use_type_invariant(self);
        }
        let bits = self.bits;
        assert(bits & 0x7 == bits) by (bit_vector)
            requires
                bits <= 0x7,
        ;
        bits
    }

    /// Whether every flag of `mask` is set.
    #[verifier::when_used_as_spec(spec_contains)]
    pub fn contains(&self, mask: u32) -> (held: bool)
        ensures
            held == self.spec_contains(mask),
    {
        self.bits & mask == mask
    }
}

/// A decoded entry. The texts are copies, so an entry stays what it was when
/// the mapping changes or goes. The three measurements are kept as the 32
/// bits that the record holds for each: IEEE 754 single precision.
#[derive(Clone, Debug, PartialEq, Eq)]
pub struct Entry {
    pub src_name: String,
    pub src_units: String,
    pub localized_src_name: String,
    pub localized_src_units: String,
    pub recommended_format: String,
    /// The current value, as its bit pattern.
    pub data: u32,
    /// The lower limit, as its bit pattern.
    pub min_limit: u32,
    /// The upper limit, as its bit pattern.
    pub max_limit: u32,
    pub flags: EntryFlags,
    pub gpu: u32,
    pub src_id: u32,
}

/// An entry as plain values.
pub struct EntryView {
    pub src_name: Seq<char>,
    pub src_units: Seq<char>,
    pub localized_src_name: Seq<char>,
    pub localized_src_units: Seq<char>,
    pub recommended_format: Seq<char>,
    pub data: u32,
    pub min_limit: u32,
    pub max_limit: u32,
    pub flags: u32,
    pub gpu: u32,
    pub src_id: u32,
}

impl View for Entry {
    type V = EntryView;

    open spec fn view(&self) -> EntryView {
        EntryView {
            src_name: self.src_name@,
            src_units: self.src_units@,
            localized_src_name: self.localized_src_name@,
            localized_src_units: self.localized_src_units@,
            recommended_format: self.recommended_format@,
            data: self.data,
            min_limit: self.min_limit,
            max_limit: self.max_limit,
            flags: self.flags.spec_bits(),
            gpu: self.gpu,
            src_id: self.src_id,
        }
    }
}

/// The bytes of the text in the buffer that starts at `at` in `record`.
pub open spec fn text_field(record: Seq<u8>, at: int) -> Seq<u8> {
    text_bytes(record.subrange(at, at + TEXT_CAPACITY))
}

/// The entry that `record` holds.
pub open spec fn entry_at(record: Seq<u8>) -> EntryView {
    EntryView {
        src_name: utf8_lossy(text_field(record, SRC_NAME_AT as int)),
        src_units: utf8_lossy(text_field(record, SRC_UNITS_AT as int)),
        localized_src_name: utf8_lossy(text_field(record, LOCALIZED_SRC_NAME_AT as int)),
        localized_src_units: utf8_lossy(text_field(record, LOCALIZED_SRC_UNITS_AT as int)),
        recommended_format: utf8_lossy(text_field(record, RECOMMENDED_FORMAT_AT as int)),
        data: le_u32(record, DATA_AT as int),
        min_limit: le_u32(record, MIN_LIMIT_AT as int),
        max_limit: le_u32(record, MAX_LIMIT_AT as int),
        flags: le_u32(record, FLAGS_AT as int) & ALL_FLAGS,
        gpu: le_u32(record, GPU_AT as int),
        src_id: le_u32(record, SRC_ID_AT as int),
    }
}

/// Each text of `entry` is the lenient reading of its buffer in `record`: the
/// plain decoding wherever the buffer holds well-formed UTF-8.
pub open spec fn texts_read_from(record: Seq<u8>, entry: EntryView) -> bool {
    &&& is_lossy_reading(text_field(record, SRC_NAME_AT as int), entry.src_name)
    &&& is_lossy_reading(text_field(record, SRC_UNITS_AT as int), entry.src_units)
    &&& is_lossy_reading(
        text_field(record, LOCALIZED_SRC_NAME_AT as int),
        entry.localized_src_name,
    )
    &&& is_lossy_reading(
        text_field(record, LOCALIZED_SRC_UNITS_AT as int),
        entry.localized_src_units,
    )
    &&& is_lossy_reading(
        text_field(record, RECOMMENDED_FORMAT_AT as int),
        entry.recommended_format,
    )
}

/// No text of `entry` has more characters than a text buffer has bytes.
pub open spec fn texts_within_capacity(entry: EntryView) -> bool {
    &&& entry.src_name.len() <= TEXT_CAPACITY
    &&& entry.src_units.len() <= TEXT_CAPACITY
    &&& entry.localized_src_name.len() <= TEXT_CAPACITY
    &&& entry.localized_src_units.len() <= TEXT_CAPACITY
    &&& entry.recommended_format.len() <= TEXT_CAPACITY
}

fn read_text(record: &[u8], at: usize) -> (text: String)
    requires
        at + TEXT_CAPACITY <= record.len(),
    ensures
        is_lossy_reading(text_field(record@, at as int), text@),
        text@.len() <= TEXT_CAPACITY,
{
    decode_text(slice_subrange(record, at, at + TEXT_CAPACITY))
}

impl Entry {
    /// Decodes the entry record at the start of `record`. Only a slice too
    /// short for a record gives nothing; no content is rejected, and a text
    /// buffer without a terminator is read to its end and no further.
    pub fn new(record: &[u8]) -> (result: Option<Entry>)
        ensures
            result is Some <==> record@.len() >= ENTRY_SIZE,
            result matches Some(entry) ==> entry@ == entry_at(record@) && texts_read_from(
                record@,
                entry@,
            ) && texts_within_capacity(entry@),
    {
        if record.len() < ENTRY_SIZE {
            return None;
        }
        let src_name = read_text(record, SRC_NAME_AT);
        let src_units = read_text(record, SRC_UNITS_AT);
        let localized_src_name = read_text(record, LOCALIZED_SRC_NAME_AT);
        let localized_src_units = read_text(record, LOCALIZED_SRC_UNITS_AT);
        let recommended_format = read_text(record, RECOMMENDED_FORMAT_AT);
        Some(
            Entry {
                src_name,
                src_units,
                localized_src_name,
                localized_src_units,
                recommended_format,
                data: read_u32(record, DATA_AT),
                min_limit: read_u32(record, MIN_LIMIT_AT),
                max_limit: read_u32(record, MAX_LIMIT_AT),
                flags: EntryFlags::from_bits_truncate(read_u32(record, FLAGS_AT)),
                gpu: read_u32(record, GPU_AT),
                src_id: read_u32(record, SRC_ID_AT),
            },
        )
    }
}

} // verus!
