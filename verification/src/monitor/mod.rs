//! The monitor: one mapped segment at a time, and the snapshot last decoded
//! from it.

use vstd::prelude::*;
use vstd::slice::slice_subrange;
use vstd::string::*;

use crate::monitor::entry::{entry_at, texts_read_from, Entry, EntryView, ENTRY_SIZE};
use crate::monitor::header::{decode_header, Header, InvalidHeaderError};
use crate::text::{decimal, push_decimal};
use crate::segment::{
    closing_steps, map_view_of_file, release_mapping, release_steps, release_view, released,
    FileMapping, FileMappingView, MemoryMappedView, Released, SegmentError,
};

pub mod entry;
pub mod header;

verus! {

/// Why a refresh gave no new snapshot.
#[derive(Clone, Copy, Debug, PartialEq, Eq)]
pub enum RefreshError {
    /// The mapping holds no usable header.
    InvalidHeader(InvalidHeaderError),
    /// The segment could not be opened or mapped.
    WindowsError(SegmentError),
    /// The header announces an entry that the mapping has no room for; the
    /// index is that of the first such entry.
    EntryOutOfBounds(u32),
}

impl RefreshError {
    /// What `to_string` says of the error.
    pub open spec fn message(&self) -> Seq<char> {
        match self {
            RefreshError::InvalidHeader(error) => error.message(),
            RefreshError::WindowsError(error) => error.message(),
            RefreshError::EntryOutOfBounds(index) => "entry "@ + decimal(*index as nat)
                + " lies outside the mapping"@,
        }
    }

    /// The error in words: those of the error within, or the index of the
    /// entry that found no room.
    pub fn to_string(&self) -> (text: String)
        ensures
            text@ == self.message(),
    {
        match self {
            RefreshError::InvalidHeader(error) => error.to_string(),
            RefreshError::WindowsError(error) => error.to_string(),
            RefreshError::EntryOutOfBounds(index) => {
                let mut text = String::from_str("entry ");
                push_decimal(&mut text, *index);
                text.append(" lies outside the mapping");
                text
            },
        }
    }
}

impl From<InvalidHeaderError> for RefreshError {
    fn from(error: InvalidHeaderError) -> (converted: RefreshError) {
        RefreshError::InvalidHeader(error)
    }
}

impl vstd::std_specs::convert::FromSpecImpl<InvalidHeaderError> for RefreshError {
    open spec fn obeys_from_spec() -> bool {
        true
    }

    open spec fn from_spec(error: InvalidHeaderError) -> RefreshError {
        RefreshError::InvalidHeader(error)
    }
}

impl From<SegmentError> for RefreshError {
    fn from(error: SegmentError) -> (converted: RefreshError) {
        RefreshError::WindowsError(error)
    }
}

impl vstd::std_specs::convert::FromSpecImpl<SegmentError> for RefreshError {
    open spec fn obeys_from_spec() -> bool {
        true
    }

    open spec fn from_spec(error: SegmentError) -> RefreshError {
        RefreshError::WindowsError(error)
    }
}

/// Byte offset of entry `index` in the mapping.
pub open spec fn entry_offset(header: Header, index: int) -> int {
    header.header_size as int + header.entry_size as int * index
}

/// Whether the whole record of entry `index` lies within `bytes`.
pub open spec fn entry_in_view(bytes: Seq<u8>, header: Header, index: int) -> bool {
    entry_offset(header, index) + ENTRY_SIZE <= bytes.len()
}

/// The record of entry `index`.
pub open spec fn entry_record(bytes: Seq<u8>, header: Header, index: int) -> Seq<u8> {
    bytes.subrange(entry_offset(header, index), entry_offset(header, index) + ENTRY_SIZE)
}

/// Whether every entry that the header announces lies within `bytes`.
pub open spec fn entries_in_view(bytes: Seq<u8>, header: Header) -> bool {
    forall|index: int| 0 <= index < header.entry_count ==> entry_in_view(bytes, header, index)
}

/// Whether `index` is the first entry that does not lie within `bytes`.
pub open spec fn is_first_outside(bytes: Seq<u8>, header: Header, index: int) -> bool {
    &&& 0 <= index < header.entry_count
    &&& !entry_in_view(bytes, header, index)
    &&& forall|earlier: int| 0 <= earlier < index ==> entry_in_view(bytes, header, earlier)
}

/// The entries that the header announces, in order.
pub open spec fn entries_of(bytes: Seq<u8>, header: Header) -> Seq<EntryView> {
    Seq::new(header.entry_count as nat, |index: int| entry_at(entry_record(bytes, header, index)))
}

/// The entries of a vector as plain values.
pub open spec fn entry_views(entries: Seq<Entry>) -> Seq<EntryView> {
    Seq::new(entries.len(), |index: int| entries[index]@)
}

/// Every text of every entry is the lenient reading of its buffer.
pub open spec fn all_texts_read_from(bytes: Seq<u8>, header: Header, entries: Seq<Entry>) -> bool {
    forall|index: int|
        0 <= index < entries.len() ==> texts_read_from(
            entry_record(bytes, header, index),
            #[trigger] entries[index]@,
        )
}

/// Whether the bytes of a view decode to a snapshot: they start with a live
/// header, and every entry that it announces lies within them.
pub open spec fn is_snapshot(bytes: Seq<u8>) -> bool {
    decode_header(bytes) matches Ok(header) && entries_in_view(bytes, header)
}

/// Whether `result` is what decoding the bytes of a view comes to.
pub open spec fn is_decoding_result(bytes: Seq<u8>, result: Result<(), RefreshError>) -> bool {
    match decode_header(bytes) {
        Err(error) => result == Err::<(), RefreshError>(RefreshError::InvalidHeader(error)),
        Ok(header) => if entries_in_view(bytes, header) {
            result is Ok
        } else {
            &&& result matches Err(RefreshError::EntryOutOfBounds(index))
            &&& is_first_outside(bytes, header, index as int)
        },
    }
}

/// An open segment: the mapping's handle and the view mapped from it.
#[derive(Debug)]
pub struct HardwareMonitorMemory<'a> {
    handle: FileMapping,
    data: MemoryMappedView<'a>,
}

impl<'a> View for HardwareMonitorMemory<'a> {
    type V = Seq<u8>;

    /// The mapped bytes.
    open spec fn view(&self) -> Seq<u8> {
        self.mapped_view()@
    }
}

impl<'a> HardwareMonitorMemory<'a> {
    /// The mapping that the view was mapped from: its handle and holders.
    pub closed spec fn mapping(&self) -> FileMappingView {
        self.handle@
    }

    /// The view that was mapped.
    pub closed spec fn mapped_view(&self) -> MemoryMappedView<'a> {
        self.data
    }

    pub fn new(handle: FileMapping, data: MemoryMappedView<'a>) -> (memory: Self)
        ensures
            memory.mapped_view() == data,
            memory.mapping() == handle@,
    {
        HardwareMonitorMemory { handle, data }
    }

    /// The segment behind what a mapping call on `mapping` returned. Where
    /// the system refused, the hold on the mapping is released, and the steps
    /// that this takes come with the error.
    pub fn open(mapping: FileMapping, mapped: Option<&'a [u8]>) -> (result: Result<
        Self,
        (SegmentError, Released<'a>),
    >)
        ensures
            match mapped {
                Some(bytes) => {
                    &&& result matches Ok(memory)
                    &&& memory.mapping() == mapping@
                    &&& memory.mapped_view() == MemoryMappedView(bytes)
                },
                None => {
                    &&& result matches Err(failed)
                    &&& failed.0 == SegmentError::MapFailed
                    &&& failed.1.steps@ == release_steps::<'a>(mapping@)
                    &&& failed.1.mapping@ == released(mapping@)
                },
            },
    {
        match map_view_of_file(mapped) {
            Ok(view) => Ok(HardwareMonitorMemory::new(mapping, view)),
            Err(error) => Err((error, release_mapping(mapping))),
        }
    }

    /// The handle of the mapping.
    pub fn handle(&self) -> (handle: &FileMapping)
        ensures
            handle@ == self.mapping(),
    {
        &self.handle
    }

    /// Lets go of the segment: the view is unmapped first, and after it the
    /// hold on the mapping is released and the handle closed where no holder
    /// is left.
    pub fn close(self) -> (closing: Released<'a>)
        ensures
            closing.steps@ == closing_steps(self.mapping(), self.mapped_view()),
            closing.mapping@ == released(self.mapping()),
    {
        release_view(self.handle, self.data)
    }

    /// The mapped bytes, at whose start the header lies.
    pub fn read(&self) -> (bytes: &'a [u8])
        ensures
            bytes@ == self@,
    {
        self.data.0
    }

    /// The record of entry `index`, or nothing where the mapping ends before
    /// the record does.
    pub fn read_entry(&self, header: &Header, index: u32) -> (record: Option<&'a [u8]>)
        ensures
            record is Some <==> entry_in_view(self@, *header, index as int),
            record matches Some(bytes) ==> bytes@ == entry_record(self@, *header, index as int),
    {
        entry_slice(self.data.0, header, index)
    }
}

/// The record of entry `index` in `view`, or nothing where the view ends
/// before the record does.
pub fn entry_slice<'a>(view: &'a [u8], header: &Header, index: u32) -> (record: Option<&'a [u8]>)
    ensures
        record is Some <==> entry_in_view(view@, *header, index as int),
        record matches Some(bytes) ==> bytes@ == entry_record(view@, *header, index as int),
{
    let stride: u64 = header.entry_size as u64;
    let steps: u64 = index as u64;
    assert(stride * steps <= 0xFFFF_FFFF * 0xFFFF_FFFF) by (nonlinear_arith)
        requires
            stride <= 0xFFFF_FFFF,
            steps <= 0xFFFF_FFFF,
    ;
    let offset: u64 = header.header_size as u64 + stride * steps;
    assert(offset == entry_offset(*header, index as int));
    let len = view.len();
    if len < ENTRY_SIZE || offset > (len - ENTRY_SIZE) as u64 {
        None
    } else {
        let start = offset as usize;
        Some(slice_subrange(view, start, start + ENTRY_SIZE))
    }
}

/// Decodes entry `index`, or gives nothing where the view ends before its
/// record does.
pub fn decode_entry(view: &[u8], header: &Header, index: u32) -> (entry: Option<Entry>)
    ensures
        entry is Some <==> entry_in_view(view@, *header, index as int),
        entry matches Some(decoded) ==> {
            &&& decoded@ == entry_at(entry_record(view@, *header, index as int))
            &&& texts_read_from(entry_record(view@, *header, index as int), decoded@)
        },
{
    match entry_slice(view, header, index) {
        Some(record) => Entry::new(record),
        None => None,
    }
}

/// Decodes the entries that `header` announces, one after the other. Where
/// one lies outside the view, the index of the first such entry is the error.
pub fn decode_entries(view: &[u8], header: &Header) -> (result: Result<Vec<Entry>, u32>)
    ensures
        match result {
            Ok(entries) => {
                &&& entries_in_view(view@, *header)
                &&& entries@.len() == header.entry_count
                &&& entry_views(entries@) == entries_of(view@, *header)
                &&& all_texts_read_from(view@, *header, entries@)
            },
            Err(index) => is_first_outside(view@, *header, index as int),
        },
{
    let mut entries: Vec<Entry> = Vec::new();
    let mut index: u32 = 0;
    while index < header.entry_count
        invariant
            index <= header.entry_count,
            entries@.len() == index,
            forall|earlier: int| 0 <= earlier < index ==> entry_in_view(view@, *header, earlier),
            forall|earlier: int|
                0 <= earlier < index ==> (#[trigger] entries@[earlier])@ == entry_at(
                    entry_record(view@, *header, earlier),
                ),
            all_texts_read_from(view@, *header, entries@),
        decreases header.entry_count - index,
    {
        match decode_entry(view, header, index) {
            Some(entry) => {
                entries.push(entry);
            },
            None => {
                return Err(index);
            },
        }
        index = index + 1;
    }
    assert(entry_views(entries@) =~= entries_of(view@, *header));
    Ok(entries)
}

/// The monitor. It holds at most one open segment, and the header and the
/// entries of the last snapshot that it took over.
#[derive(Debug)]
pub struct HardwareMonitor<'a> {
    /// The open segment, if there is one.
    pub memory: Option<HardwareMonitorMemory<'a>>,
    pub header: Option<Header>,
    pub entries: Vec<Entry>,
}

impl<'a> HardwareMonitor<'a> {
    /// No segment is open.
    pub open spec fn is_closed(&self) -> bool {
        self.memory is None
    }

    /// The monitor holds no snapshot.
    pub open spec fn is_empty(&self) -> bool {
        self.header is None && self.entries@.len() == 0
    }

    /// The monitor holds the snapshot of `other`.
    pub open spec fn same_snapshot(&self, other: &Self) -> bool {
        self.header == other.header && self.entries == other.entries
    }

    /// The monitor holds the snapshot that `bytes` decode to under `header`.
    pub open spec fn holds_snapshot(&self, bytes: Seq<u8>, header: Header) -> bool {
        &&& self.header == Some(header)
        &&& self.entries@.len() == header.entry_count
        &&& entry_views(self.entries@) == entries_of(bytes, header)
        &&& all_texts_read_from(bytes, header, self.entries@)
    }

    /// A segment is open and the snapshot held is the one that its bytes
    /// decode to.
    pub open spec fn is_fresh(&self) -> bool {
        &&& self.memory matches Some(memory)
        &&& decode_header(memory@) matches Ok(header)
        &&& entries_in_view(memory@, header)
        &&& self.holds_snapshot(memory@, header)
    }

    /// What a refresh leaves of the monitor `before`, given what opening the
    /// segment gave.
    pub open spec fn refreshed_from(
        &self,
        before: &Self,
        opened: Result<HardwareMonitorMemory<'a>, SegmentError>,
    ) -> bool {
        match opened {
            Err(_) => self.is_closed() && self.same_snapshot(before),
            Ok(memory) => {
                &&& self.memory == Some(memory)
                &&& match decode_header(memory@) {
                    Err(InvalidHeaderError::Dead) => self.is_empty(),
                    Err(_) => self.same_snapshot(before),
                    Ok(header) => if entries_in_view(memory@, header) {
                        self.holds_snapshot(memory@, header)
                    } else {
                        self.same_snapshot(before)
                    },
                }
            },
        }
    }

    /// A monitor with no segment open and no snapshot.
    pub fn new() -> (monitor: Self)
        ensures
            monitor.is_closed(),
            monitor.is_empty(),
    {
        HardwareMonitor { memory: None, header: None, entries: Vec::new() }
    }

    /// Takes a new snapshot from the segment that the caller has just tried
    /// to open.
    ///
    /// A refresh begins with `close_memory`, which lets go of the segment
    /// that was open; only then does the caller open the next, and so no
    /// segment is open when its outcome comes in here. Where the open failed,
    /// the refresh fails with its error and the snapshot held stays.
    /// Otherwise the new segment is kept open, and its bytes decide: the dead
    /// tag empties the monitor; a header that is not one, or entries that the
    /// mapping has no room for, leave the snapshot held as it was; anything
    /// else replaces it whole.
    pub fn refresh(&mut self, opened: Result<HardwareMonitorMemory<'a>, SegmentError>) -> (result:
        Result<(), RefreshError>)
        requires
            old(self).is_closed(),
        ensures
            match opened {
                Err(error) => result == Err::<(), RefreshError>(RefreshError::WindowsError(error)),
                Ok(memory) => is_decoding_result(memory@, result),
            },
            final(self).refreshed_from(old(self), opened),
            result is Ok ==> final(self).is_fresh(),
            opened matches Ok(memory) && decode_header(memory@) == Err::<
                Header,
                InvalidHeaderError,
            >(InvalidHeaderError::Dead) ==> final(self).header is None && final(self).entries@.len()
                == 0,
    {
        let memory = match opened {
            Ok(memory) => memory,
            Err(error) => {
                return Err(RefreshError::WindowsError(error));
            },
        };
        let view = memory.read();
        self.memory = Some(memory);
        let header = match Header::new(view) {
            Ok(header) => header,
            Err(InvalidHeaderError::Dead) => {
                self.header = None;
                self.entries = Vec::new();
                return Err(RefreshError::InvalidHeader(InvalidHeaderError::Dead));
            },
            Err(error) => {
                return Err(RefreshError::InvalidHeader(error));
            },
        };
        match decode_entries(view, &header) {
            Ok(entries) => {
                self.header = Some(header);
                self.entries = entries;
                Ok(())
            },
            Err(index) => Err(RefreshError::EntryOutOfBounds(index)),
        }
    }

    /// Lets go of the open segment, if there is one, and hands it to the
    /// caller, whose `close` of it gives the steps that unmap and close it.
    /// The snapshot held stays.
    pub fn close_memory(&mut self) -> (closed: Option<HardwareMonitorMemory<'a>>)
        ensures
            closed == old(self).memory,
            final(self).is_closed(),
            final(self).same_snapshot(old(self)),
    {
        self.memory.take()
    }

    /// Keeps the segment that the caller has just opened, after
    /// `close_memory` has let go of the one before; where the open failed,
    /// its error is handed back and no segment is open. The snapshot held
    /// stays.
    pub fn open_memory(&mut self, opened: Result<HardwareMonitorMemory<'a>, SegmentError>) -> (result:
        Result<(), SegmentError>)
        requires
            old(self).is_closed(),
        ensures
            match opened {
                Ok(memory) => result is Ok && final(self).memory == Some(memory),
                Err(error) => result == Err::<(), SegmentError>(error) && final(self).is_closed(),
            },
            final(self).same_snapshot(old(self)),
    {
        match opened {
            Ok(memory) => {
                self.memory = Some(memory);
                Ok(())
            },
            Err(error) => Err(error),
        }
    }
}

impl<'a> Default for HardwareMonitor<'a> {
    fn default() -> (monitor: Self)
        ensures
            monitor.is_closed(),
            monitor.is_empty(),
    {
        HardwareMonitor::new()
    }
}

/// From one entry to the next the offset grows by the stride, so with a
/// stride above zero the offsets rise strictly and no stride's worth of
/// bytes is shared by two entries.
pub proof fn lemma_offsets_rise(header: Header, first: int, second: int)
    requires
        0 <= first < second,
    ensures
        entry_offset(header, second) - entry_offset(header, first) == header.entry_size * (second
            - first),
        header.entry_size > 0 ==> entry_offset(header, first) + header.entry_size <= entry_offset(
            header,
            second,
        ),
        header.entry_size >= ENTRY_SIZE ==> entry_offset(header, first) + ENTRY_SIZE
            <= entry_offset(header, second),
{
    let stride = header.entry_size as int;
    assert(stride * second - stride * first == stride * (second - first)) by (nonlinear_arith);
    assert(stride > 0 ==> stride * (second - first) >= stride) by (nonlinear_arith)
        requires
            second - first >= 1,
    ;
}

} // verus!
