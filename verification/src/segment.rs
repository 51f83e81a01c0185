//! The named file mapping that the snapshot lies in: its handle, the count of
//! those who hold the handle, and the mapped view.
//!
//! The calls into the operating system are the caller's. What they return
//! comes in here as plain values, and what is to be done next goes out as
//! steps for the caller to take in the order given.

use vstd::prelude::*;
use vstd::string::*;

use crate::text::{push_upper_hex, upper_hex};

verus! {

/// The name under which the publisher makes its mapping known.
pub const SEGMENT_NAME: &'static str = "MAHMSharedMemory";

/// The code that opening a mapping fails with when none of that name exists.
pub const E_FILE_NOT_FOUND: i32 = -2147024894;

/// The code that opening a mapping fails with when access is refused.
pub const E_ACCESS_DENIED: i32 = -2147024891;

/// The value of an operating-system handle.
#[derive(Clone, Copy, Debug, PartialEq, Eq)]
pub struct Handle(pub isize);

/// Why a segment could not be opened or mapped.
#[derive(Clone, Copy, Debug, PartialEq, Eq)]
pub enum SegmentError {
    /// No mapping of that name exists.
    NotFound,
    /// A mapping of that name exists and may not be opened.
    AccessDenied,
    /// The mapping was opened, and the system refused to map a view of it.
    MapFailed,
    /// Any other failure, with the system's code.
    Os(i32),
}

/// The error that a failed open with the system's code `code` stands for.
pub open spec fn open_failure(code: i32) -> SegmentError {
    if code == E_FILE_NOT_FOUND {
        SegmentError::NotFound
    } else if code == E_ACCESS_DENIED {
        SegmentError::AccessDenied
    } else {
        SegmentError::Os(code)
    }
}

/// The 32 bits of a system code, read as an unsigned number.
pub open spec fn code_bits(code: i32) -> u32 {
    if code >= 0 {
        code as u32
    } else {
        (code + 0x1_0000_0000) as u32
    }
}

impl SegmentError {
    /// What `to_string` says of the error.
    pub open spec fn message(&self) -> Seq<char> {
        match self {
            SegmentError::NotFound => "segment not found"@,
            SegmentError::AccessDenied => "access to the segment denied"@,
            SegmentError::MapFailed => "segment could not be mapped"@,
            SegmentError::Os(code) => "operating system error: 0x"@ + upper_hex(
                code_bits(*code) as nat,
            ),
        }
    }

    /// The error in words; a system code is shown in upper-case hexadecimal.
    pub fn to_string(&self) -> (text: String)
        ensures
            text@ == self.message(),
    {
        match self {
            SegmentError::NotFound => String::from_str("segment not found"),
            SegmentError::AccessDenied => String::from_str("access to the segment denied"),
            SegmentError::MapFailed => String::from_str("segment could not be mapped"),
            SegmentError::Os(code) => {
                let bits: u32 = if *code >= 0 {
                    *code as u32
                } else {
                    (*code as i64 + 0x1_0000_0000) as u32
                };
                let mut text = String::from_str("operating system error: 0x");
                push_upper_hex(&mut text, bits);
                text
            },
        }
    }

    /// Names the failure of an open by the system's code.
    pub fn from_open_failure(code: i32) -> (error: SegmentError)
        ensures
            error == open_failure(code),
    {
        if code == E_FILE_NOT_FOUND {
            SegmentError::NotFound
        } else if code == E_ACCESS_DENIED {
            SegmentError::AccessDenied
        } else {
            SegmentError::Os(code)
        }
    }
}

/// An open file mapping and the number of holders that share its handle.
///
/// Each holder releases once. The handle is to be closed when the last of
/// them has, and at no other time.
#[derive(Debug, PartialEq, Eq)]
pub struct FileMapping {
    handle: Handle,
    holders: usize,
}

/// A file mapping as plain values.
pub struct FileMappingView {
    pub id: int,
    pub holders: nat,
}

impl View for FileMapping {
    type V = FileMappingView;

    closed spec fn view(&self) -> FileMappingView {
        FileMappingView { id: self.handle.0 as int, holders: self.holders as nat }
    }
}

/// The mapping after one holder has released it. With none left to release
/// it, nothing changes.
pub open spec fn released(mapping: FileMappingView) -> FileMappingView {
    if mapping.holders == 0 {
        mapping
    } else {
        FileMappingView { id: mapping.id, holders: (mapping.holders - 1) as nat }
    }
}

/// Whether the release of one holder is the one to close the handle on: it
/// is the release of the last holder.
pub open spec fn closes(mapping: FileMappingView) -> bool {
    mapping.holders == 1
}

/// The mapping after `n` releases.
pub open spec fn released_times(mapping: FileMappingView, n: nat) -> FileMappingView
    decreases n,
{
    if n == 0 {
        mapping
    } else {
        released_times(released(mapping), (n - 1) as nat)
    }
}

/// How many of `n` releases in a row close the handle.
pub open spec fn closes_among(mapping: FileMappingView, n: nat) -> nat
    decreases n,
{
    if n == 0 {
        0
    } else {
        (if closes(mapping) {
            1nat
        } else {
            0nat
        }) + closes_among(released(mapping), (n - 1) as nat)
    }
}

impl FileMapping {
    /// The mapping that an open has just returned `handle` for, held once.
    pub fn new(handle: Handle) -> (mapping: FileMapping)
        ensures
            mapping@.id == handle.0,
            mapping@.holders == 1,
    {
        FileMapping { handle, holders: 1 }
    }

    pub fn handle(&self) -> (handle: Handle)
        ensures
            handle.0 == self@.id,
    {
        self.handle
    }

    pub fn id(&self) -> (id: isize)
        ensures
            id == self@.id,
    {
        self.handle.0
    }

    /// The number of holders that have yet to release the mapping.
    pub fn holders(&self) -> (holders: usize)
        ensures
            holders == self@.holders,
    {
        self.holders
    }

    /// Whether the handle is still to be closed: someone holds it.
    pub fn is_open(&self) -> (open: bool)
        ensures
            open == (self@.holders > 0),
    {
        self.holders > 0
    }

    /// Adds a holder. A mapping that all have released takes no new holder,
    /// nor does one whose count is at its limit; `false` says so.
    pub fn acquire(&mut self) -> (added: bool)
        ensures
            added == (0 < old(self)@.holders < usize::MAX),
            final(self)@.id == old(self)@.id,
            final(self)@.holders == if added {
                old(self)@.holders + 1
            } else {
                old(self)@.holders
            },
    {
        if self.holders == 0 || self.holders == usize::MAX {
            false
        } else {
            self.holders = self.holders + 1;
            true
        }
    }

    /// Takes one holder away. `true` tells the caller to close the handle
    /// now: this was the last holder.
    pub fn release(&mut self) -> (close: bool)
        ensures
            close == closes(old(self)@),
            final(self)@ == released(old(self)@),
    {
        if self.holders == 0 {
            false
        } else {
            self.holders = self.holders - 1;
            self.holders == 0
        }
    }
}

/// The bytes of a mapped view. They are read and never written.
#[derive(Clone, Copy, Debug, PartialEq, Eq)]
pub struct MemoryMappedView<'a>(pub &'a [u8]);

impl<'a> View for MemoryMappedView<'a> {
    type V = Seq<u8>;

    open spec fn view(&self) -> Seq<u8> {
        self.0@
    }
}

/// The high and the low 32 bits of a byte offset, as the mapping call takes
/// them.
pub fn split_offset(offset: u64) -> (halves: (u32, u32))
    ensures
        halves.0 as int * 0x1_0000_0000 + halves.1 as int == offset,
{
    let high: u64 = offset / 0x1_0000_0000;
    let low: u64 = offset % 0x1_0000_0000;
    (high as u32, low as u32)
}

/// The number of bytes in a view that was asked for with `size` bytes of a
/// region of `region` bytes: a size of zero asks for the whole region.
pub fn view_len(size: usize, region: usize) -> (len: usize)
    ensures
        len == if size == 0 {
            region
        } else {
            size
        },
{
    if size == 0 {
        region
    } else {
        size
    }
}

/// The mapping behind what an open returned: the handle's value, or the
/// system's code for the failure.
pub fn open_file_mapping(opened: Result<isize, i32>) -> (result: Result<FileMapping, SegmentError>)
    ensures
        match opened {
            Ok(handle) => result matches Ok(mapping) && mapping@.id == handle && mapping@.holders
                == 1,
            Err(code) => result == Err::<FileMapping, SegmentError>(open_failure(code)),
        },
{
    match opened {
        Ok(handle) => Ok(FileMapping::new(Handle(handle))),
        Err(code) => Err(SegmentError::from_open_failure(code)),
    }
}

/// The view behind what a mapping call returned: the mapped bytes, or
/// nothing where the system refused.
pub fn map_view_of_file<'a>(mapped: Option<&'a [u8]>) -> (result: Result<
    MemoryMappedView<'a>,
    SegmentError,
>)
    ensures
        match mapped {
            Some(bytes) => result matches Ok(view) && view == MemoryMappedView(bytes),
            None => result matches Err(error) && error == SegmentError::MapFailed,
        },
{
    match mapped {
        Some(bytes) => Ok(MemoryMappedView(bytes)),
        None => Err(SegmentError::MapFailed),
    }
}

/// A step that the caller takes with the operating system.
#[derive(Clone, Copy, Debug, PartialEq, Eq)]
pub enum SegmentAction<'a> {
    /// Unmap this view.
    Unmap(MemoryMappedView<'a>),
    /// Close this handle.
    Close(Handle),
}

/// What letting go of one hold on a mapping comes to.
#[derive(Debug, PartialEq, Eq)]
pub struct Released<'a> {
    /// The steps to take, in this order.
    pub steps: Vec<SegmentAction<'a>>,
    /// The mapping as the holders that are left find it.
    pub mapping: FileMapping,
}

/// The handle of a mapping.
pub open spec fn handle_of(mapping: FileMappingView) -> Handle {
    Handle(mapping.id as isize)
}

/// The steps that release one hold on a mapping without a view: the handle
/// is closed where this was the last holder, and nothing is done otherwise.
pub open spec fn release_steps<'a>(mapping: FileMappingView) -> Seq<SegmentAction<'a>> {
    if closes(mapping) {
        seq![SegmentAction::Close(handle_of(mapping))]
    } else {
        seq![]
    }
}

/// The steps that let go of a view and of its hold on the mapping: the view
/// is unmapped first, and only after it is the hold released.
pub open spec fn closing_steps<'a>(mapping: FileMappingView, view: MemoryMappedView<'a>) -> Seq<
    SegmentAction<'a>,
> {
    seq![SegmentAction::Unmap(view)] + release_steps(mapping)
}

/// Releases one hold on a mapping that has no view, as after a mapping call
/// that failed.
pub fn release_mapping<'a>(mapping: FileMapping) -> (closing: Released<'a>)
    ensures
        closing.steps@ == release_steps::<'a>(mapping@),
        closing.mapping@ == released(mapping@),
{
    let ghost before = mapping@;
    let mut mapping = mapping;
    let mut steps: Vec<SegmentAction<'a>> = Vec::new();
    if mapping.release() {
        steps.push(SegmentAction::Close(mapping.handle()));
    }
    assert(steps@ =~= release_steps::<'a>(before));
    Released { steps, mapping }
}

/// Lets go of a view and of its hold on the mapping: the view first, the
/// hold after it.
pub fn release_view<'a>(mapping: FileMapping, view: MemoryMappedView<'a>) -> (closing: Released<
    'a,
>)
    ensures
        closing.steps@ == closing_steps(mapping@, view),
        closing.mapping@ == released(mapping@),
{
    let ghost before = mapping@;
    let mut mapping = mapping;
    let mut steps: Vec<SegmentAction<'a>> = Vec::new();
    steps.push(SegmentAction::Unmap(view));
    if mapping.release() {
        steps.push(SegmentAction::Close(mapping.handle()));
    }
    assert(steps@ =~= closing_steps(before, view));
    Released { steps, mapping }
}

/// A release that is not the last leaves the handle open and the other
/// holders as they were.
pub proof fn lemma_release_keeps_others(mapping: FileMappingView)
    requires
        mapping.holders >= 2,
    ensures
        !closes(mapping),
        released(mapping).holders == mapping.holders - 1,
        released(mapping).holders > 0,
        released(mapping).id == mapping.id,
{
}

/// After `n` releases a mapping has `n` holders fewer, and none when there
/// were no more than `n`.
pub proof fn lemma_released_times(mapping: FileMappingView, n: nat)
    ensures
        released_times(mapping, n).id == mapping.id,
        released_times(mapping, n).holders == if n <= mapping.holders {
            mapping.holders - n
        } else {
            0
        },
    decreases n,
{
    if n > 0 {
        lemma_released_times(released(mapping), (n - 1) as nat);
    }
}

/// However many releases follow one another, the handle is closed at most
/// once: exactly once where every holder has released, and not at all
/// before.
pub proof fn lemma_closed_exactly_once(mapping: FileMappingView, n: nat)
    ensures
        closes_among(mapping, n) == if 0 < mapping.holders <= n {
            1nat
        } else {
            0nat
        },
    decreases n,
{
    if n > 0 {
        lemma_closed_exactly_once(released(mapping), (n - 1) as nat);
    }
}

/// Two holders of one handle: the first release closes nothing and leaves
/// the other holder its handle, the second closes it, and no later release
/// closes it again.
pub proof fn lemma_two_holders(mapping: FileMappingView)
    requires
        mapping.holders == 2,
    ensures
        !closes(mapping),
        released(mapping).holders == 1,
        closes(released(mapping)),
        released(released(mapping)).holders == 0,
        forall|n: nat| closes_among(released(released(mapping)), n) == 0,
{
    assert forall|n: nat| closes_among(released(released(mapping)), n) == 0 by {
        lemma_closed_exactly_once(released(released(mapping)), n);
    }
}

/// Two views over one handle: letting go of both unmaps each view once and
/// closes the handle once, after the second view is unmapped and not before.
pub proof fn lemma_two_views_one_close<'a>(
    mapping: FileMappingView,
    first: MemoryMappedView<'a>,
    second: MemoryMappedView<'a>,
)
    requires
        mapping.holders == 2,
    ensures
        closing_steps(mapping, first) == seq![SegmentAction::Unmap(first)],
        closing_steps(mapping, first) + closing_steps(released(mapping), second) == seq![
            SegmentAction::Unmap(first),
            SegmentAction::Unmap(second),
            SegmentAction::Close(handle_of(mapping)),
        ],
        release_steps::<'a>(released(released(mapping))) == Seq::<SegmentAction<'a>>::empty(),
{
    assert(closing_steps(mapping, first) =~= seq![SegmentAction::Unmap(first)]);
    assert(closing_steps(mapping, first) + closing_steps(released(mapping), second) =~= seq![
        SegmentAction::Unmap(first),
        SegmentAction::Unmap(second),
        SegmentAction::Close(handle_of(mapping)),
    ]);
}

} // verus!
