//! The records handed across the foreign boundary. Each owns copies of what
//! it shows, so it stays valid when the monitor moves on, and goes when its
//! owner lets it go.
//!
//! The pointers that a foreign caller sees are made from these records by the
//! caller of this module; here a record owns its texts as `String`s and the
//! handle owns its records.

use vstd::prelude::*;
use vstd::utf8::*;

use crate::monitor::entry::{Entry, EntryView};
use crate::monitor::header::{version_text, Header, InvalidHeaderError, EXPECTED_SIGNATURE};
use crate::monitor::{
    entry_views, is_decoding_result, is_snapshot, HardwareMonitor, HardwareMonitorMemory,
    RefreshError,
};
use crate::segment::SegmentError;
use crate::text::is_lossy_reading;

verus! {

/// The last refresh gave a snapshot.
pub const STATUS_OK: u32 = 0;

/// No segment of the protocol's name exists.
pub const STATUS_SEGMENT_NOT_FOUND: u32 = 1;

/// The segment exists and may not be opened.
pub const STATUS_SEGMENT_ACCESS_DENIED: u32 = 2;

/// The segment was opened and could not be mapped.
pub const STATUS_SEGMENT_MAP_FAILED: u32 = 3;

/// The operating system failed in some other way.
pub const STATUS_OS_ERROR: u32 = 4;

/// The publisher is there but publishes nothing.
pub const STATUS_HEADER_DEAD: u32 = 5;

/// The header's signature is not one of the protocol.
pub const STATUS_HEADER_BAD_SIGNATURE: u32 = 6;

/// The mapping is too short for a header.
pub const STATUS_HEADER_TRUNCATED: u32 = 7;

/// The header announces an entry that the mapping has no room for.
pub const STATUS_ENTRY_OUT_OF_BOUNDS: u32 = 8;

/// The status that stands for the outcome of a refresh.
pub open spec fn status_of(result: Result<(), RefreshError>) -> u32 {
    match result {
        Ok(()) => STATUS_OK,
        Err(RefreshError::WindowsError(SegmentError::NotFound)) => STATUS_SEGMENT_NOT_FOUND,
        Err(RefreshError::WindowsError(SegmentError::AccessDenied)) => STATUS_SEGMENT_ACCESS_DENIED,
        Err(RefreshError::WindowsError(SegmentError::MapFailed)) => STATUS_SEGMENT_MAP_FAILED,
        Err(RefreshError::WindowsError(SegmentError::Os(_))) => STATUS_OS_ERROR,
        Err(RefreshError::InvalidHeader(InvalidHeaderError::Dead)) => STATUS_HEADER_DEAD,
        Err(RefreshError::InvalidHeader(InvalidHeaderError::InvalidSignature(_))) =>
            STATUS_HEADER_BAD_SIGNATURE,
        Err(RefreshError::InvalidHeader(InvalidHeaderError::Truncated)) => STATUS_HEADER_TRUNCATED,
        Err(RefreshError::EntryOutOfBounds(_)) => STATUS_ENTRY_OUT_OF_BOUNDS,
    }
}

/// The status that tells a foreign caller how a refresh ended: zero for a
/// new snapshot, and one number for each kind of failure.
pub fn refresh_status(result: &Result<(), RefreshError>) -> (status: u32)
    ensures
        status == status_of(*result),
        (status == STATUS_OK) == (*result is Ok),
{
    match result {
        Ok(()) => STATUS_OK,
        Err(RefreshError::WindowsError(SegmentError::NotFound)) => STATUS_SEGMENT_NOT_FOUND,
        Err(RefreshError::WindowsError(SegmentError::AccessDenied)) => STATUS_SEGMENT_ACCESS_DENIED,
        Err(RefreshError::WindowsError(SegmentError::MapFailed)) => STATUS_SEGMENT_MAP_FAILED,
        Err(RefreshError::WindowsError(SegmentError::Os(_))) => STATUS_OS_ERROR,
        Err(RefreshError::InvalidHeader(InvalidHeaderError::Dead)) => STATUS_HEADER_DEAD,
        Err(RefreshError::InvalidHeader(InvalidHeaderError::InvalidSignature(_))) =>
            STATUS_HEADER_BAD_SIGNATURE,
        Err(RefreshError::InvalidHeader(InvalidHeaderError::Truncated)) => STATUS_HEADER_TRUNCATED,
        Err(RefreshError::EntryOutOfBounds(_)) => STATUS_ENTRY_OUT_OF_BOUNDS,
    }
}

/// The exported header: the two display texts as owned copies, and every
/// number of the header by value.
#[derive(Clone, Debug, PartialEq, Eq)]
pub struct FfiHeader {
    pub signature: String,
    pub version: String,
    pub gpu_entry_count: u32,
    pub entry_count: u32,
    /// Seconds since the Unix epoch.
    pub time: i64,
    /// Byte offset of the first entry record.
    pub header_size: u32,
    /// Bytes from one entry record to the next.
    pub entry_size: u32,
    pub gpu_entry_size: u32,
}

/// An exported header as plain values.
pub struct FfiHeaderView {
    pub signature: Seq<char>,
    pub version: Seq<char>,
    pub gpu_entry_count: u32,
    pub entry_count: u32,
    pub time: i64,
    pub header_size: u32,
    pub entry_size: u32,
    pub gpu_entry_size: u32,
}

impl View for FfiHeader {
    type V = FfiHeaderView;

    open spec fn view(&self) -> FfiHeaderView {
        FfiHeaderView {
            signature: self.signature@,
            version: self.version@,
            gpu_entry_count: self.gpu_entry_count,
            entry_count: self.entry_count,
            time: self.time,
            header_size: self.header_size,
            entry_size: self.entry_size,
            gpu_entry_size: self.gpu_entry_size,
        }
    }
}

/// The exported entry: the five texts as owned copies, the rest by value,
/// the measurements as their bit patterns and the flags as a bit set.
#[derive(Clone, Debug, PartialEq, Eq)]
pub struct FfiEntry {
    pub src_name: String,
    pub src_units: String,
    pub localized_src_name: String,
    pub localized_src_units: String,
    pub recommended_format: String,
    pub data: u32,
    pub min_limit: u32,
    pub max_limit: u32,
    pub flags: u32,
    pub gpu: u32,
    pub src_id: u32,
}

impl View for FfiEntry {
    type V = EntryView;

    open spec fn view(&self) -> EntryView {
        EntryView {
            src_name: self.src_name@,
            src_units: self.src_units@,
            localized_src_name: self.localized_src_name@,
            localized_src_units: self.localized_src_units@,
            recommended_format: self.recommended_format@,
            data: self.data,
            min_limit: self.min_limit,
            max_limit: self.max_limit,
            flags: self.flags,
            gpu: self.gpu,
            src_id: self.src_id,
        }
    }
}

/// Whether `exported` shows `header`.
pub open spec fn is_export_of(exported: FfiHeaderView, header: Header) -> bool {
    &&& is_lossy_reading(header.signature_bytes(), exported.signature)
    &&& header.signature == EXPECTED_SIGNATURE ==> exported.signature == seq!['M', 'A', 'H', 'M']
    &&& exported.version == version_text(header.version)
    &&& exported.gpu_entry_count == header.gpu_entry_count
    &&& exported.entry_count == header.entry_count
    &&& exported.time == header.time
    &&& exported.header_size == header.header_size
    &&& exported.entry_size == header.entry_size
    &&& exported.gpu_entry_size == header.gpu_entry_size
}

/// The exported entries as plain values.
pub open spec fn exported_views(entries: Seq<FfiEntry>) -> Seq<EntryView> {
    Seq::new(entries.len(), |index: int| entries[index]@)
}

/// Exports a header: its signature and version as texts of the record's own,
/// the sizes, the counts and the time by value.
pub fn header_into_ffi(header: &Header) -> (exported: FfiHeader)
    ensures
        is_export_of(exported@, *header),
{
    FfiHeader {
        signature: header.signature(),
        version: header.version(),
        gpu_entry_count: header.gpu_entry_count,
        entry_count: header.entry_count,
        time: header.time,
        header_size: header.header_size,
        entry_size: header.entry_size,
        gpu_entry_size: header.gpu_entry_size,
    }
}

/// Exports an entry: every text as a copy of the record's own, every number
/// by value.
pub fn entry_into_ffi(entry: &Entry) -> (exported: FfiEntry)
    ensures
        exported@ == entry@,
{
    FfiEntry {
        src_name: entry.src_name.clone(),
        src_units: entry.src_units.clone(),
        localized_src_name: entry.localized_src_name.clone(),
        localized_src_units: entry.localized_src_units.clone(),
        recommended_format: entry.recommended_format.clone(),
        data: entry.data,
        min_limit: entry.min_limit,
        max_limit: entry.max_limit,
        flags: entry.flags.bits(),
        gpu: entry.gpu,
        src_id: entry.src_id,
    }
}

/// Exports the entries of a snapshot, in order.
pub fn entries_into_ffi(entries: &Vec<Entry>) -> (exported: Vec<FfiEntry>)
    ensures
        exported@.len() == entries@.len(),
        exported_views(exported@) == entry_views(entries@),
{
    let mut exported: Vec<FfiEntry> = Vec::new();
    let mut index: usize = 0;
    while index < entries.len()
        invariant
            index <= entries@.len(),
            exported@.len() == index,
            forall|earlier: int|
                0 <= earlier < index ==> (#[trigger] exported@[earlier])@ == entries@[earlier]@,
        decreases entries@.len() - index,
    {
        exported.push(entry_into_ffi(&entries[index]));
        index = index + 1;
    }
    assert(exported_views(exported@) =~= entry_views(entries@));
    exported
}

/// The handle that a foreign caller holds: the monitor, and the records
/// exported from its last snapshot. The handle owns them; they go with it,
/// or when a later refresh puts new ones in their place.
#[derive(Debug)]
pub struct FfiHardwareMonitor<'a> {
    pub raw: HardwareMonitor<'a>,
    pub header: Option<FfiHeader>,
    pub entries: Vec<FfiEntry>,
    pub entry_count: u32,
    /// How the last refresh ended; `STATUS_OK` before the first.
    pub status: u32,
}

impl<'a> FfiHardwareMonitor<'a> {
    /// The handle shows nothing.
    pub open spec fn shows_nothing(&self) -> bool {
        self.header is None && self.entries@.len() == 0 && self.entry_count == 0
    }

    /// The handle shows what `other` shows.
    pub open spec fn shows_same(&self, other: &Self) -> bool {
        &&& self.header == other.header
        &&& self.entries == other.entries
        &&& self.entry_count == other.entry_count
    }

    /// The handle shows the snapshot that its monitor holds.
    pub open spec fn shows_snapshot(&self) -> bool {
        &&& match self.raw.header {
            Some(header) => self.header matches Some(exported) && is_export_of(exported@, header),
            None => self.header is None,
        }
        &&& self.entries@.len() == self.raw.entries@.len()
        &&& exported_views(self.entries@) == entry_views(self.raw.entries@)
        &&& self.entry_count == self.entries@.len()
    }
}

/// A handle on a new monitor: no segment open, nothing to show.
pub fn mahm_create_hardware_monitor<'a>() -> (hm: FfiHardwareMonitor<'a>)
    ensures
        hm.raw.is_closed(),
        hm.raw.is_empty(),
        hm.shows_nothing(),
        hm.status == STATUS_OK,
{
    FfiHardwareMonitor {
        raw: HardwareMonitor::new(),
        header: None,
        entries: Vec::new(),
        entry_count: 0,
        status: STATUS_OK,
    }
}

/// Refreshes the monitor of the handle from the segment that the caller has
/// just tried to open, and says whether that gave a new snapshot. As with
/// the monitor's own `refresh`, its `close_memory` comes first.
///
/// With a new snapshot the handle shows it, in records of its own that take
/// the place of those shown before. Without one the handle shows what it
/// showed. Either way `status` says how the refresh ended.
pub fn mahm_refresh<'a>(
    hm: &mut FfiHardwareMonitor<'a>,
    opened: Result<HardwareMonitorMemory<'a>, SegmentError>,
) -> (refreshed: bool)
    requires
        old(hm).raw.is_closed(),
    ensures
        refreshed == (opened matches Ok(memory) && is_snapshot(memory@)),
        refreshed == (final(hm).status == STATUS_OK),
        match opened {
            Err(error) => final(hm).status == status_of(
                Err::<(), RefreshError>(RefreshError::WindowsError(error)),
            ),
            Ok(memory) => exists|result: Result<(), RefreshError>|
                is_decoding_result(memory@, result) && final(hm).status == #[trigger] status_of(
                    result,
                ),
        },
        final(hm).raw.refreshed_from(&old(hm).raw, opened),
        if refreshed {
            final(hm).shows_snapshot() && final(hm).raw.is_fresh()
        } else {
            final(hm).shows_same(old(hm))
        },
{
    let result = hm.raw.refresh(opened);
    hm.status = refresh_status(&result);
    match result {
        Ok(()) => {
            hm.header = match &hm.raw.header {
                Some(header) => Some(header_into_ffi(header)),
                None => None,
            };
            let exported = entries_into_ffi(&hm.raw.entries);
            hm.entry_count = exported.len() as u32;
            hm.entries = exported;
            true
        },
        Err(_) => false,
    }
}

/// Takes the handle apart. The records that it showed go with it; the
/// segment that its monitor had open, if any, is handed to the caller, whose
/// `close` of it gives the steps that unmap and close it.
pub fn mahm_destroy_hardware_monitor<'a>(hm: FfiHardwareMonitor<'a>) -> (open: Option<
    HardwareMonitorMemory<'a>,
>)
    ensures
        open == hm.raw.memory,
{
    hm.raw.memory
}

} // verus!
