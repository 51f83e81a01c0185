use mahm::segment::{
    map_view_of_file, open_file_mapping, release_mapping, release_view, split_offset, view_len,
    FileMapping, Handle, MemoryMappedView, SegmentAction, SegmentError, E_ACCESS_DENIED,
    E_FILE_NOT_FOUND, SEGMENT_NAME,
};

#[test]
fn new_mapping_has_one_holder() {
    let mapping = FileMapping::new(Handle(0x2A4));
    assert_eq!(mapping.handle(), Handle(0x2A4));
    assert_eq!(mapping.id(), 0x2A4);
    assert_eq!(mapping.holders(), 1);
    assert!(mapping.is_open());
}

#[test]
fn handle_and_id_are_the_same_value() {
    for value in [0_isize, 1, -1, isize::MAX, isize::MIN] {
        let mapping = FileMapping::new(Handle(value));
        assert_eq!(mapping.handle().0, value);
        assert_eq!(mapping.id(), value);
    }
}

#[test]
fn single_holder_closes_on_release() {
    let mut mapping = FileMapping::new(Handle(9));
    assert!(mapping.release());
    assert!(!mapping.is_open());
    assert_eq!(mapping.holders(), 0);
}

#[test]
fn two_holders_close_the_handle_once() {
    let mut mapping = FileMapping::new(Handle(9));
    assert!(mapping.acquire());
    assert_eq!(mapping.holders(), 2);
    // The first to go leaves the other its handle.
    assert!(!mapping.release());
    assert!(mapping.is_open());
    assert_eq!(mapping.holders(), 1);
    assert_eq!(mapping.id(), 9);
    // The second closes it.
    assert!(mapping.release());
    assert!(!mapping.is_open());
    // And nobody closes it again.
    assert!(!mapping.release());
    assert!(!mapping.release());
    assert_eq!(mapping.holders(), 0);
}

#[test]
fn many_holders_close_the_handle_once() {
    let mut mapping = FileMapping::new(Handle(3));
    for _ in 0..9 {
        assert!(mapping.acquire());
    }
    assert_eq!(mapping.holders(), 10);
    let mut closes: u32 = 0;
    for release in 1..=20 {
        if mapping.release() {
            closes += 1;
            assert_eq!(release, 10);
        }
    }
    assert_eq!(closes, 1);
}

#[test]
fn released_mapping_takes_no_new_holder() {
    let mut mapping = FileMapping::new(Handle(3));
    assert!(mapping.release());
    assert!(!mapping.acquire());
    assert_eq!(mapping.holders(), 0);
    assert!(!mapping.is_open());
}

#[test]
fn open_failures_are_named_by_their_code() {
    assert_eq!(E_FILE_NOT_FOUND as u32, 0x8007_0002);
    assert_eq!(E_ACCESS_DENIED as u32, 0x8007_0005);
    assert_eq!(SegmentError::from_open_failure(E_FILE_NOT_FOUND), SegmentError::NotFound);
    assert_eq!(SegmentError::from_open_failure(E_ACCESS_DENIED), SegmentError::AccessDenied);
    assert_eq!(SegmentError::from_open_failure(0), SegmentError::Os(0));
    assert_eq!(SegmentError::from_open_failure(2), SegmentError::Os(2));
    assert_eq!(SegmentError::from_open_failure(5), SegmentError::Os(5));
    assert_eq!(SegmentError::from_open_failure(-2147024809), SegmentError::Os(-2147024809));
    assert_eq!(SegmentError::from_open_failure(i32::MIN), SegmentError::Os(i32::MIN));
}

#[test]
fn opened_handle_becomes_a_mapping() {
    let mapping = open_file_mapping(Ok(0x77)).unwrap();
    assert_eq!(mapping.id(), 0x77);
    assert_eq!(mapping.holders(), 1);
}

#[test]
fn repeated_opens_give_mappings_of_their_own() {
    let mut first = open_file_mapping(Ok(0x10)).unwrap();
    let second = open_file_mapping(Ok(0x14)).unwrap();
    assert!(first.release());
    assert!(second.is_open());
    assert_eq!(second.holders(), 1);
}

#[test]
fn failed_open_becomes_an_error() {
    assert_eq!(open_file_mapping(Err(E_FILE_NOT_FOUND)), Err(SegmentError::NotFound));
    assert_eq!(open_file_mapping(Err(E_ACCESS_DENIED)), Err(SegmentError::AccessDenied));
    assert_eq!(open_file_mapping(Err(-3)), Err(SegmentError::Os(-3)));
}

#[test]
fn mapped_bytes_become_a_view() {
    let bytes: [u8; 5] = [1, 2, 3, 4, 5];
    let view = map_view_of_file(Some(&bytes)).unwrap();
    assert_eq!(view.0, &bytes);
    let empty = map_view_of_file(Some(&[])).unwrap();
    assert!(empty.0.is_empty());
}

#[test]
fn refused_mapping_is_map_failed() {
    assert!(matches!(map_view_of_file(None), Err(SegmentError::MapFailed)));
}

#[test]
fn offset_splits_into_high_and_low_halves() {
    assert_eq!(split_offset(0), (0, 0));
    assert_eq!(split_offset(1), (0, 1));
    assert_eq!(split_offset(0xFFFF_FFFF), (0, 0xFFFF_FFFF));
    assert_eq!(split_offset(0x1_0000_0000), (1, 0));
    assert_eq!(split_offset(0x1_2345_6789), (1, 0x2345_6789));
    assert_eq!(split_offset(0xDEAD_BEEF_0BAD_F00D), (0xDEAD_BEEF, 0x0BAD_F00D));
    assert_eq!(split_offset(u64::MAX), (u32::MAX, u32::MAX));
}

#[test]
fn halves_put_together_give_the_offset() {
    let offsets: [u64; 5] = [7, 0xFFFF_FFFF, 0x1_0000_0000, 0x8000_0000_0000_0001, u64::MAX - 1];
    for offset in offsets {
        let (high, low) = split_offset(offset);
        assert_eq!((u64::from(high) << 32) | u64::from(low), offset);
    }
}

#[test]
fn segment_goes_by_the_publishers_name() {
    assert_eq!(SEGMENT_NAME, "MAHMSharedMemory");
}

#[test]
fn size_zero_asks_for_the_whole_region() {
    assert_eq!(view_len(0, 4096), 4096);
    assert_eq!(view_len(0, 0), 0);
    assert_eq!(view_len(32, 4096), 32);
    assert_eq!(view_len(8192, 4096), 8192);
    assert_eq!(view_len(usize::MAX, 1), usize::MAX);
}

#[test]
fn view_goes_before_the_handle() {
    let bytes: [u8; 3] = [7, 8, 9];
    let view = MemoryMappedView(&bytes);
    let closing = release_view(FileMapping::new(Handle(0x40)), view);
    assert_eq!(closing.steps.len(), 2);
    assert_eq!(closing.steps[0], SegmentAction::Unmap(view));
    assert_eq!(closing.steps[1], SegmentAction::Close(Handle(0x40)));
    assert_eq!(closing.mapping.holders(), 0);
}

#[test]
fn two_views_over_one_handle_close_it_once() {
    let bytes: [u8; 3] = [7, 8, 9];
    let first_view = MemoryMappedView(&bytes[..2]);
    let second_view = MemoryMappedView(&bytes[1..]);
    let mut mapping = FileMapping::new(Handle(0x40));
    assert!(mapping.acquire());
    let first = release_view(mapping, first_view);
    assert_eq!(first.steps, vec![SegmentAction::Unmap(first_view)]);
    assert!(first.mapping.is_open());
    let second = release_view(first.mapping, second_view);
    assert_eq!(
        second.steps,
        vec![SegmentAction::Unmap(second_view), SegmentAction::Close(Handle(0x40))]
    );
    let third = release_mapping(second.mapping);
    assert!(third.steps.is_empty());
}

#[test]
fn releasing_a_mapping_without_a_view() {
    let last = release_mapping(FileMapping::new(Handle(5)));
    assert_eq!(last.steps, vec![SegmentAction::Close(Handle(5))]);
    assert_eq!(last.mapping.holders(), 0);
    let mut shared = FileMapping::new(Handle(6));
    assert!(shared.acquire());
    let kept = release_mapping(shared);
    assert!(kept.steps.is_empty());
    assert_eq!(kept.mapping.holders(), 1);
}

#[test]
fn segment_errors_say_what_they_are() {
    assert_eq!(SegmentError::NotFound.to_string(), "segment not found");
    assert_eq!(SegmentError::AccessDenied.to_string(), "access to the segment denied");
    assert_eq!(SegmentError::MapFailed.to_string(), "segment could not be mapped");
    assert_eq!(SegmentError::Os(E_FILE_NOT_FOUND).to_string(), "operating system error: 0x80070002");
    assert_eq!(SegmentError::Os(-1).to_string(), "operating system error: 0xFFFFFFFF");
    assert_eq!(SegmentError::Os(i32::MIN).to_string(), "operating system error: 0x80000000");
    assert_eq!(SegmentError::Os(0).to_string(), "operating system error: 0x0");
    assert_eq!(SegmentError::Os(87).to_string(), "operating system error: 0x57");
    assert_eq!(SegmentError::Os(i32::MAX).to_string(), "operating system error: 0x7FFFFFFF");
}
