//! The header record at the start of the mapping.

use vstd::prelude::*;
use vstd::string::*;
use vstd::utf8::*;

use crate::text::{
    ascii_chars, decimal, is_ascii_bytes, is_lossy_reading, lemma_ascii_decodes, lossy_string,
    push_decimal, push_upper_hex, upper_hex, utf8_lossy,
};
use crate::wire::{
    i32_le_bytes, le_i32, le_u32, lemma_i32_round_trip, lemma_u32_round_trip, read_i32, read_u32,
    u32_le_bytes,
};

verus! {

/// Bytes in a header record.
pub const HEADER_SIZE: usize = 32;

/// The tag of a live snapshot: the characters `MAHM`, first character in the
/// highest byte.
pub const EXPECTED_SIGNATURE: u32 = 0x4D41_484D;

/// The tag that the publisher leaves while it runs without publishing.
pub const DEAD_SIGNATURE: u32 = 0xDEAD;

/// Byte offset of the signature.
pub const SIGNATURE_AT: usize = 0;

/// Byte offset of the packed version.
pub const VERSION_AT: usize = 4;

/// Byte offset of the header size.
pub const HEADER_SIZE_AT: usize = 8;

/// Byte offset of the entry count.
pub const ENTRY_COUNT_AT: usize = 12;

/// Byte offset of the entry stride.
pub const ENTRY_SIZE_AT: usize = 16;

/// Byte offset of the GPU entry count.
pub const GPU_ENTRY_COUNT_AT: usize = 20;

/// Byte offset of the GPU entry stride.
pub const GPU_ENTRY_SIZE_AT: usize = 24;

/// Byte offset of the capture time.
pub const TIME_AT: usize = 28;

/// Why a mapping holds no usable header.
#[derive(Clone, Copy, Debug, PartialEq, Eq)]
pub enum InvalidHeaderError {
    /// The publisher is there but publishes nothing.
    Dead,
    /// The signature is neither the live tag nor the dead one; it is carried along.
    InvalidSignature(u32),
    /// The mapping ends before the header record does.
    Truncated,
}

impl InvalidHeaderError {
    /// What `to_string` says of the error.
    pub open spec fn message(&self) -> Seq<char> {
        match self {
            InvalidHeaderError::Dead => "memory dead"@,
            InvalidHeaderError::InvalidSignature(found) => "invalid signature: 0x"@ + upper_hex(
                *found as nat,
            ),
            InvalidHeaderError::Truncated => "header truncated"@,
        }
    }

    /// The error in words; a signature that is none is shown in upper-case
    /// hexadecimal.
    pub fn to_string(&self) -> (text: String)
        ensures
            text@ == self.message(),
    {
        match self {
            InvalidHeaderError::Dead => String::from_str("memory dead"),
            InvalidHeaderError::InvalidSignature(found) => {
                let mut text = String::from_str("invalid signature: 0x");
                push_upper_hex(&mut text, *found);
                text
            },
            InvalidHeaderError::Truncated => String::from_str("header truncated"),
        }
    }
}

/// A decoded header. The values are copied out of the mapping, so a header
/// stays what it was when the mapping changes or goes.
#[derive(Clone, Copy, Debug, PartialEq, Eq)]
pub struct Header {
    /// The signature word as read.
    pub signature: u32,
    /// The version word as read: major in the high half, minor in the low.
    pub version: u32,
    /// Byte offset of the first entry record.
    pub header_size: u32,
    pub gpu_entry_count: u32,
    pub gpu_entry_size: u32,
    pub entry_count: u32,
    /// Bytes from one entry record to the next.
    pub entry_size: u32,
    /// Capture time in seconds since the Unix epoch, UTC.
    pub time: i64,
}

/// The header whose fields are the words of `bytes`, whatever the signature.
pub open spec fn header_at(bytes: Seq<u8>) -> Header {
    Header {
        signature: le_u32(bytes, SIGNATURE_AT as int),
        version: le_u32(bytes, VERSION_AT as int),
        header_size: le_u32(bytes, HEADER_SIZE_AT as int),
        gpu_entry_count: le_u32(bytes, GPU_ENTRY_COUNT_AT as int),
        gpu_entry_size: le_u32(bytes, GPU_ENTRY_SIZE_AT as int),
        entry_count: le_u32(bytes, ENTRY_COUNT_AT as int),
        entry_size: le_u32(bytes, ENTRY_SIZE_AT as int),
        time: le_i32(bytes, TIME_AT as int) as i64,
    }
}

/// What decoding a mapping that starts with `bytes` gives.
pub open spec fn decode_header(bytes: Seq<u8>) -> Result<Header, InvalidHeaderError> {
    if bytes.len() < HEADER_SIZE {
        Err(InvalidHeaderError::Truncated)
    } else if le_u32(bytes, SIGNATURE_AT as int) == EXPECTED_SIGNATURE {
        Ok(header_at(bytes))
    } else if le_u32(bytes, SIGNATURE_AT as int) == DEAD_SIGNATURE {
        Err(InvalidHeaderError::Dead)
    } else {
        Err(InvalidHeaderError::InvalidSignature(le_u32(bytes, SIGNATURE_AT as int)))
    }
}

/// The header record that holds the fields of `header`.
pub open spec fn header_bytes(header: Header) -> Seq<u8> {
    u32_le_bytes(header.signature) + u32_le_bytes(header.version) + u32_le_bytes(
        header.header_size,
    ) + u32_le_bytes(header.entry_count) + u32_le_bytes(header.entry_size) + u32_le_bytes(
        header.gpu_entry_count,
    ) + u32_le_bytes(header.gpu_entry_size) + i32_le_bytes(header.time as i32)
}

/// The four bytes of `word`, highest first.
pub open spec fn be_bytes(word: u32) -> Seq<u8> {
    seq![
        (word / 0x100_0000) as u8,
        (word / 0x1_0000 % 0x100) as u8,
        (word / 0x100 % 0x100) as u8,
        (word % 0x100) as u8,
    ]
}

/// The major version: the high 16 bits of the version word.
pub open spec fn version_major(word: u32) -> u32 {
    word / 0x1_0000
}

/// The minor version: the low 16 bits of the version word.
pub open spec fn version_minor(word: u32) -> u32 {
    word % 0x1_0000
}

/// The version as shown: major, a dot, minor, both in decimal.
pub open spec fn version_text(word: u32) -> Seq<char> {
    decimal(version_major(word) as nat) + seq!['.'] + decimal(version_minor(word) as nat)
}

/// The date and time that chrono shows for the moment `secs` seconds after
/// the Unix epoch, in UTC: year, month and day, a space, hours, minutes and
/// seconds.
pub uninterp spec fn utc_date_time(secs: i64) -> Seq<char>;

/// chrono's `NaiveDateTime::from_timestamp_opt` with no nanoseconds, shown by
/// the `Display` of the value it gives.
///
/// Trusted: the text depends on `secs` alone, and there is one for every
/// moment that 32 bits of seconds can name; chrono gives up only some 262,000
/// years from the epoch.
#[allow(deprecated)]
#[verifier::external_body]
fn date_time_string(secs: i64) -> (text: Option<String>)
    ensures
        text matches Some(shown) ==> shown@ == utc_date_time(secs),
        i32::MIN <= secs <= i32::MAX ==> text is Some,
{
    match chrono::NaiveDateTime::from_timestamp_opt(secs, 0) {
        Some(moment) => Some(moment.to_string()),
        None => None,
    }
}

impl Header {
    /// The time is one that 32 bits of seconds can name, as every time read
    /// from a record is.
    pub open spec fn has_record_time(&self) -> bool {
        i32::MIN <= self.time <= i32::MAX
    }

    /// A header as `new` gives them: its signature is the live tag, and its
    /// time is one that a record can hold.
    pub open spec fn wf(&self) -> bool {
        &&& self.signature == EXPECTED_SIGNATURE
        &&& self.has_record_time()
    }

    /// The signature as text.
    pub open spec fn signature_bytes(&self) -> Seq<u8> {
        be_bytes(self.signature)
    }

    /// The lines of `to_string`.
    pub open spec fn display_text(&self) -> Seq<char> {
        "signature: "@ + utf8_lossy(self.signature_bytes()) + "\nversion: "@ + version_text(
            self.version,
        )
            + "\ngpu_entry_count: "@ + decimal(self.gpu_entry_count as nat)
            + "\ngpu_entry_size: "@ + decimal(self.gpu_entry_size as nat) + "\nentry_count: "@
            + decimal(self.entry_count as nat) + "\nentry_size: "@ + decimal(
            self.entry_size as nat,
        ) + "\ntime: "@ + utc_date_time(self.time)
    }

    /// Decodes the header record at the start of `view`.
    ///
    /// A view too short for a header is `Truncated`. Otherwise the signature
    /// decides: the live tag gives the header, the dead tag `Dead`, anything
    /// else `InvalidSignature` with the word that was found.
    pub fn new(view: &[u8]) -> (result: Result<Header, InvalidHeaderError>)
        ensures
            result == decode_header(view@),
            result matches Ok(header) ==> header.wf(),
    {
        if view.len() < HEADER_SIZE {
            return Err(InvalidHeaderError::Truncated);
        }
        let signature = read_u32(view, SIGNATURE_AT);
        if signature == DEAD_SIGNATURE {
            return Err(InvalidHeaderError::Dead);
        }
        if signature != EXPECTED_SIGNATURE {
            return Err(InvalidHeaderError::InvalidSignature(signature));
        }
        Ok(
            Header {
                signature,
                version: read_u32(view, VERSION_AT),
                header_size: read_u32(view, HEADER_SIZE_AT),
                gpu_entry_count: read_u32(view, GPU_ENTRY_COUNT_AT),
                gpu_entry_size: read_u32(view, GPU_ENTRY_SIZE_AT),
                entry_count: read_u32(view, ENTRY_COUNT_AT),
                entry_size: read_u32(view, ENTRY_SIZE_AT),
                time: read_i32(view, TIME_AT) as i64,
            },
        )
    }

    /// The signature as four characters, highest byte first. For a header
    /// that `new` gave this is `MAHM`.
    pub fn signature(&self) -> (text: String)
        ensures
            is_lossy_reading(self.signature_bytes(), text@),
            self.signature == EXPECTED_SIGNATURE ==> text@ == seq!['M', 'A', 'H', 'M'],
    {
        let word = self.signature;
        let mut bytes: Vec<u8> = Vec::new();
        bytes.push((word / 0x100_0000) as u8);
        bytes.push((word / 0x1_0000 % 0x100) as u8);
        bytes.push((word / 0x100 % 0x100) as u8);
        bytes.push((word % 0x100) as u8);
        assert(bytes@ =~= be_bytes(word));
        proof {
            if word == EXPECTED_SIGNATURE {
                lemma_magic_is_mahm();
            }
        }
        lossy_string(bytes.as_slice())
    }

    /// The version as `major.minor`.
    pub fn version(&self) -> (text: String)
        ensures
            text@ == version_text(self.version),
    {
        let word = self.version;
        let major = word >> 16;
        let minor = word & 0xFFFF;
        assert(word >> 16 == word / 0x1_0000) by (bit_vector);
        assert(word & 0xFFFF == word % 0x1_0000) by (bit_vector);
        let mut text = String::new();
        push_decimal(&mut text, major);
        text.append(".");
        push_decimal(&mut text, minor);
        proof {
            reveal_strlit(".");
            assert("."@ =~= seq!['.']);
            assert(text@ =~= version_text(word));
        }
        text
    }

    /// The header in seven lines, one field a line, the time as a UTC date
    /// and time.
    pub fn to_string(&self) -> (text: String)
        requires
            self.has_record_time(),
        ensures
            text@ == self.display_text(),
    {
        let mut text = String::from_str("signature: ");
        let signature = self.signature();
        text.append(signature.as_str());
        text.append("\nversion: ");
        let version = self.version();
        text.append(version.as_str());
        text.append("\ngpu_entry_count: ");
        push_decimal(&mut text, self.gpu_entry_count);
        text.append("\ngpu_entry_size: ");
        push_decimal(&mut text, self.gpu_entry_size);
        text.append("\nentry_count: ");
        push_decimal(&mut text, self.entry_count);
        text.append("\nentry_size: ");
        push_decimal(&mut text, self.entry_size);
        text.append("\ntime: ");
        let shown = date_time_string(self.time);
        let time = shown.unwrap();
        text.append(time.as_str());
        assert(text@ =~= self.display_text());
        text
    }
}

/// The live tag reads `MAHM`.
pub proof fn lemma_magic_is_mahm()
    ensures
        is_ascii_bytes(be_bytes(EXPECTED_SIGNATURE)),
        valid_utf8(be_bytes(EXPECTED_SIGNATURE)),
        decode_utf8(be_bytes(EXPECTED_SIGNATURE)) == seq!['M', 'A', 'H', 'M'],
{
    let bytes = be_bytes(EXPECTED_SIGNATURE);
    assert(bytes =~= seq![0x4Du8, 0x41u8, 0x48u8, 0x4Du8]);
    lemma_ascii_decodes(bytes);
    assert(ascii_chars(bytes) =~= seq!['M', 'A', 'H', 'M']);
}

/// The dead tag is never taken for a malformed signature: whatever else a
/// record holds, with that tag it decodes to `Dead`.
pub proof fn lemma_dead_is_dead(bytes: Seq<u8>)
    requires
        bytes.len() >= HEADER_SIZE,
        le_u32(bytes, SIGNATURE_AT as int) == DEAD_SIGNATURE,
    ensures
        decode_header(bytes) == Err::<Header, InvalidHeaderError>(InvalidHeaderError::Dead),
{
}

/// Version 2.5, packed as `0x0002_0005`, shows as `2.5`.
pub proof fn lemma_version_two_five()
    ensures
        version_text(0x0002_0005) == seq!['2', '.', '5'],
{
    assert(decimal(2) =~= seq!['2']);
    assert(decimal(5) =~= seq!['5']);
    assert(version_text(0x0002_0005) =~= seq!['2', '.', '5']);
}

/// Decoding gives back every field of a header that was laid out as a record,
/// whatever follows the record in the mapping.
pub proof fn lemma_decode_inverts_layout(header: Header, rest: Seq<u8>)
    requires
        header.wf(),
    ensures
        header_bytes(header).len() == HEADER_SIZE,
        decode_header(header_bytes(header) + rest) == Ok::<Header, InvalidHeaderError>(header),
{
    let record = header_bytes(header);
    let bytes = record + rest;
    assert(record.len() == HEADER_SIZE);
    assert(bytes.subrange(SIGNATURE_AT as int, SIGNATURE_AT + 4) =~= u32_le_bytes(
        header.signature,
    ));
    lemma_u32_round_trip(bytes, SIGNATURE_AT as int, header.signature);
    assert(bytes.subrange(VERSION_AT as int, VERSION_AT + 4) =~= u32_le_bytes(header.version));
    lemma_u32_round_trip(bytes, VERSION_AT as int, header.version);
    assert(bytes.subrange(HEADER_SIZE_AT as int, HEADER_SIZE_AT + 4) =~= u32_le_bytes(
        header.header_size,
    ));
    lemma_u32_round_trip(bytes, HEADER_SIZE_AT as int, header.header_size);
    assert(bytes.subrange(ENTRY_COUNT_AT as int, ENTRY_COUNT_AT + 4) =~= u32_le_bytes(
        header.entry_count,
    ));
    lemma_u32_round_trip(bytes, ENTRY_COUNT_AT as int, header.entry_count);
    assert(bytes.subrange(ENTRY_SIZE_AT as int, ENTRY_SIZE_AT + 4) =~= u32_le_bytes(
        header.entry_size,
    ));
    lemma_u32_round_trip(bytes, ENTRY_SIZE_AT as int, header.entry_size);
    assert(bytes.subrange(GPU_ENTRY_COUNT_AT as int, GPU_ENTRY_COUNT_AT + 4) =~= u32_le_bytes(
        header.gpu_entry_count,
    ));
    lemma_u32_round_trip(bytes, GPU_ENTRY_COUNT_AT as int, header.gpu_entry_count);
    assert(bytes.subrange(GPU_ENTRY_SIZE_AT as int, GPU_ENTRY_SIZE_AT + 4) =~= u32_le_bytes(
        header.gpu_entry_size,
    ));
    lemma_u32_round_trip(bytes, GPU_ENTRY_SIZE_AT as int, header.gpu_entry_size);
    assert(bytes.subrange(TIME_AT as int, TIME_AT + 4) =~= i32_le_bytes(header.time as i32));
    lemma_i32_round_trip(bytes, TIME_AT as int, header.time as i32);
}

} // verus!
