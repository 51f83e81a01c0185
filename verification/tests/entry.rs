use mahm::monitor::entry::{
    Entry, EntryFlags, ALL_FLAGS, DATA_AT, ENTRY_SIZE, FLAGS_AT, GPU_AT, LOCALIZED_SRC_NAME_AT,
    LOCALIZED_SRC_UNITS_AT, MAX_LIMIT_AT, MIN_LIMIT_AT, RECOMMENDED_FORMAT_AT, SHOW_IN_LCD,
    SHOW_IN_OSD, SHOW_IN_TRAY, SRC_ID_AT, SRC_NAME_AT, SRC_UNITS_AT, TEXT_CAPACITY,
};

fn put_text(record: &mut [u8], at: usize, text: &[u8]) {
    record[at..at + text.len()].copy_from_slice(text);
}

fn put_word(record: &mut [u8], at: usize, word: u32) {
    record[at..at + 4].copy_from_slice(&word.to_le_bytes());
}

/// The record of a GPU temperature reading.
fn temperature_record() -> Vec<u8> {
    let mut record: Vec<u8> = vec![0u8; ENTRY_SIZE];
    put_text(&mut record, SRC_NAME_AT, b"GPU temperature");
    put_text(&mut record, SRC_UNITS_AT, "\u{B0}C".as_bytes());
    put_text(&mut record, LOCALIZED_SRC_NAME_AT, b"GPU-Temperatur");
    put_text(&mut record, LOCALIZED_SRC_UNITS_AT, "\u{B0}C".as_bytes());
    put_text(&mut record, RECOMMENDED_FORMAT_AT, b"%.0f");
    put_word(&mut record, DATA_AT, 61.5_f32.to_bits());
    put_word(&mut record, MIN_LIMIT_AT, 0.0_f32.to_bits());
    put_word(&mut record, MAX_LIMIT_AT, 100.0_f32.to_bits());
    put_word(&mut record, FLAGS_AT, 0x5);
    put_word(&mut record, GPU_AT, 1);
    put_word(&mut record, SRC_ID_AT, 0x0000_0040);
    record
}

#[test]
fn record_layout_adds_up() {
    assert_eq!(TEXT_CAPACITY, 260);
    assert_eq!(SRC_NAME_AT, 0);
    assert_eq!(SRC_UNITS_AT, TEXT_CAPACITY);
    assert_eq!(LOCALIZED_SRC_NAME_AT, 2 * TEXT_CAPACITY);
    assert_eq!(LOCALIZED_SRC_UNITS_AT, 3 * TEXT_CAPACITY);
    assert_eq!(RECOMMENDED_FORMAT_AT, 4 * TEXT_CAPACITY);
    assert_eq!(DATA_AT, 5 * TEXT_CAPACITY);
    assert_eq!(MIN_LIMIT_AT, DATA_AT + 4);
    assert_eq!(MAX_LIMIT_AT, MIN_LIMIT_AT + 4);
    assert_eq!(FLAGS_AT, MAX_LIMIT_AT + 4);
    assert_eq!(GPU_AT, FLAGS_AT + 4);
    assert_eq!(SRC_ID_AT, GPU_AT + 4);
    assert_eq!(ENTRY_SIZE, SRC_ID_AT + 4);
    assert_eq!(ENTRY_SIZE, 1324);
}

#[test]
fn entry_is_decoded_field_by_field() {
    let entry = Entry::new(&temperature_record()).unwrap();
    assert_eq!(entry.src_name, "GPU temperature");
    assert_eq!(entry.src_units, "\u{B0}C");
    assert_eq!(entry.localized_src_name, "GPU-Temperatur");
    assert_eq!(entry.localized_src_units, "\u{B0}C");
    assert_eq!(entry.recommended_format, "%.0f");
    assert_eq!(f32::from_bits(entry.data), 61.5);
    assert_eq!(f32::from_bits(entry.min_limit), 0.0);
    assert_eq!(f32::from_bits(entry.max_limit), 100.0);
    assert_eq!(entry.flags.bits(), 0x5);
    assert_eq!(entry.gpu, 1);
    assert_eq!(entry.src_id, 0x40);
}

#[test]
fn measurements_keep_their_bits() {
    let mut record = temperature_record();
    put_word(&mut record, DATA_AT, 0x7FC0_0001);
    put_word(&mut record, MIN_LIMIT_AT, 0xFF80_0000);
    put_word(&mut record, MAX_LIMIT_AT, 0x8000_0000);
    let entry = Entry::new(&record).unwrap();
    assert_eq!(entry.data, 0x7FC0_0001);
    assert!(f32::from_bits(entry.data).is_nan());
    assert_eq!(f32::from_bits(entry.min_limit), f32::NEG_INFINITY);
    assert_eq!(entry.max_limit, (-0.0_f32).to_bits());
}

#[test]
fn short_record_gives_no_entry() {
    let record = temperature_record();
    assert_eq!(Entry::new(&record[..ENTRY_SIZE - 1]), None);
    assert_eq!(Entry::new(&record[..260]), None);
    assert_eq!(Entry::new(&[]), None);
    assert!(Entry::new(&record[..ENTRY_SIZE]).is_some());
}

#[test]
fn longer_slice_is_read_from_its_start() {
    let mut bytes = temperature_record();
    let alone = Entry::new(&bytes).unwrap();
    bytes.extend_from_slice(&[0x55; 300]);
    assert_eq!(Entry::new(&bytes).unwrap(), alone);
}

#[test]
fn all_zero_record_is_an_empty_entry() {
    let entry = Entry::new(&vec![0u8; ENTRY_SIZE]).unwrap();
    assert_eq!(entry.src_name, "");
    assert_eq!(entry.src_units, "");
    assert_eq!(entry.localized_src_name, "");
    assert_eq!(entry.localized_src_units, "");
    assert_eq!(entry.recommended_format, "");
    assert_eq!(entry.data, 0);
    assert_eq!(entry.flags, EntryFlags::empty());
    assert_eq!(entry.gpu, 0);
    assert_eq!(entry.src_id, 0);
}

#[test]
fn full_buffer_without_terminator_stops_at_its_capacity() {
    let mut record = temperature_record();
    for byte in record[SRC_NAME_AT..SRC_NAME_AT + TEXT_CAPACITY].iter_mut() {
        *byte = b'n';
    }
    let entry = Entry::new(&record).unwrap();
    assert_eq!(entry.src_name.len(), TEXT_CAPACITY);
    assert!(entry.src_name.bytes().all(|b| b == b'n'));
    // The neighbouring buffer is read on its own.
    assert_eq!(entry.src_units, "\u{B0}C");
}

#[test]
fn every_buffer_full_and_unterminated() {
    let mut record = vec![b'q'; ENTRY_SIZE];
    put_word(&mut record, DATA_AT, 1);
    let entry = Entry::new(&record).unwrap();
    assert_eq!(entry.src_name.chars().count(), 260);
    assert_eq!(entry.src_units.chars().count(), 260);
    assert_eq!(entry.localized_src_name.chars().count(), 260);
    assert_eq!(entry.localized_src_units.chars().count(), 260);
    assert_eq!(entry.recommended_format.chars().count(), 260);
    assert_eq!(entry.data, 1);
}

#[test]
fn last_buffer_does_not_run_into_the_numbers() {
    let mut record = temperature_record();
    for byte in record[RECOMMENDED_FORMAT_AT..RECOMMENDED_FORMAT_AT + TEXT_CAPACITY].iter_mut() {
        *byte = b'f';
    }
    put_word(&mut record, DATA_AT, 0x4141_4141);
    let entry = Entry::new(&record).unwrap();
    assert_eq!(entry.recommended_format.len(), TEXT_CAPACITY);
    assert_eq!(entry.data, 0x4141_4141);
}

#[test]
fn text_that_is_not_utf8_is_kept_with_replacements() {
    let mut record = temperature_record();
    put_text(&mut record, SRC_UNITS_AT, b"\xB0C\0");
    let entry = Entry::new(&record).unwrap();
    assert_eq!(entry.src_units, "\u{FFFD}C");
}

#[test]
fn remains_after_the_terminator_are_ignored() {
    let mut record = temperature_record();
    put_text(&mut record, SRC_NAME_AT, b"Fan\0speed of another day");
    let entry = Entry::new(&record).unwrap();
    assert_eq!(entry.src_name, "Fan");
}

#[test]
fn unknown_flag_bits_are_dropped() {
    let mut record = temperature_record();
    put_word(&mut record, FLAGS_AT, 0xFFFF_FFFA);
    let entry = Entry::new(&record).unwrap();
    assert_eq!(entry.flags.bits(), 0x2);
    assert_eq!(entry.flags, EntryFlags::from_bits_truncate(SHOW_IN_LCD));
}

#[test]
fn flags_are_the_three_low_bits() {
    assert_eq!(SHOW_IN_OSD, 1);
    assert_eq!(SHOW_IN_LCD, 2);
    assert_eq!(SHOW_IN_TRAY, 4);
    assert_eq!(ALL_FLAGS, SHOW_IN_OSD | SHOW_IN_LCD | SHOW_IN_TRAY);
    for bits in 0u32..16 {
        assert_eq!(EntryFlags::from_bits_truncate(bits).bits(), bits & 7);
    }
    assert_eq!(EntryFlags::from_bits_truncate(u32::MAX).bits(), 7);
    assert_eq!(EntryFlags::from_bits_truncate(0x8000_0000).bits(), 0);
    assert_eq!(EntryFlags::empty().bits(), 0);
}

#[test]
fn flags_contain_what_is_set() {
    let flags = EntryFlags::from_bits_truncate(SHOW_IN_OSD | SHOW_IN_TRAY);
    assert!(flags.contains(SHOW_IN_OSD));
    assert!(!flags.contains(SHOW_IN_LCD));
    assert!(flags.contains(SHOW_IN_TRAY));
    assert!(flags.contains(SHOW_IN_OSD | SHOW_IN_TRAY));
    assert!(!flags.contains(ALL_FLAGS));
    assert!(flags.contains(0));
    assert!(EntryFlags::from_bits_truncate(ALL_FLAGS).contains(ALL_FLAGS));
    assert!(!EntryFlags::empty().contains(SHOW_IN_OSD));
}

#[test]
fn numbers_are_read_lowest_byte_first() {
    let mut record = vec![0u8; ENTRY_SIZE];
    record[GPU_AT] = 0x01;
    record[GPU_AT + 1] = 0x02;
    record[GPU_AT + 2] = 0x03;
    record[GPU_AT + 3] = 0x04;
    record[SRC_ID_AT + 3] = 0xFF;
    let entry = Entry::new(&record).unwrap();
    assert_eq!(entry.gpu, 0x0403_0201);
    assert_eq!(entry.src_id, 0xFF00_0000);
}
