use coff_backend::machine_code::utilities::{
    get_18_padded_u8_array_from_string, get_8_padded_u8_array_from_string, get_current_timestamp,
    get_truncated_18_padded_u8_array_from_string, string, string_to_bytes,
    string_to_bytes_zero_terminated, timestamp_from_reading, timestamp_from_seconds,
    u16_to_bytes, u32_to_bytes,
};

#[test]
fn u32_bytes_are_little_endian() {
    assert_eq!(u32_to_bytes(&0x12345678), vec![0x78, 0x56, 0x34, 0x12]);
    assert_eq!(u32_to_bytes(&0), vec![0, 0, 0, 0]);
    assert_eq!(u32_to_bytes(&0xFFFFFFFF), vec![0xFF, 0xFF, 0xFF, 0xFF]);
    assert_eq!(u32_to_bytes(&0xFFFFFFF5), vec![0xF5, 0xFF, 0xFF, 0xFF]);
    assert_eq!(u32_to_bytes(&256), vec![0, 1, 0, 0]);
}

#[test]
fn u16_bytes_are_little_endian() {
    assert_eq!(u16_to_bytes(&0x8664), vec![0x64, 0x86]);
    assert_eq!(u16_to_bytes(&0xFFFE), vec![0xFE, 0xFF]);
    assert_eq!(u16_to_bytes(&1), vec![1, 0]);
}

#[test]
fn byte_conversions_agree_with_std() {
    for value in [0u32, 1, 255, 256, 65535, 65536, 0x7FFFFFFF, 0x80000000, 0xFEDCBA98] {
        assert_eq!(u32_to_bytes(&value), value.to_le_bytes().to_vec());
    }
    for value in [0u16, 1, 255, 256, 0x7FFF, 0x8000, 0xFFFF] {
        assert_eq!(u16_to_bytes(&value), value.to_le_bytes().to_vec());
    }
}

#[test]
fn short_names_are_zero_padded() {
    assert_eq!(&get_8_padded_u8_array_from_string(".text"), b".text\0\0\0");
    assert_eq!(&get_8_padded_u8_array_from_string(""), &[0u8; 8]);
    assert_eq!(&get_8_padded_u8_array_from_string(".absolut"), b".absolut");
    assert_eq!(&get_8_padded_u8_array_from_string("a"), b"a\0\0\0\0\0\0\0");
}

#[test]
fn file_names_are_padded_or_cut_to_18_bytes() {
    assert_eq!(
        &get_truncated_18_padded_u8_array_from_string("hello1.asm"),
        b"hello1.asm\0\0\0\0\0\0\0\0"
    );
    assert_eq!(
        &get_truncated_18_padded_u8_array_from_string("exactly_18_bytes__"),
        b"exactly_18_bytes__"
    );
    assert_eq!(
        &get_truncated_18_padded_u8_array_from_string("a_file_name_that_is_too_long.hep"),
        b"a_file_name_that_i"
    );
    assert_eq!(&get_truncated_18_padded_u8_array_from_string(""), &[0u8; 18]);
}

#[test]
fn a_cut_may_fall_inside_a_character() {
    // 17 ASCII bytes and a two-byte character: the first of its bytes stays.
    let name = "abcdefghijklmnopq\u{e9}";
    let mut expected = [0u8; 18];
    expected[..17].copy_from_slice(b"abcdefghijklmnopq");
    expected[17] = 0xC3;
    assert_eq!(get_truncated_18_padded_u8_array_from_string(name), expected);
}

#[test]
fn strings_become_their_bytes() {
    assert_eq!(string_to_bytes("Hi\0"), vec![0x48, 0x69, 0x00]);
    assert_eq!(string_to_bytes(""), Vec::<u8>::new());
    assert_eq!(string_to_bytes("\u{e9}"), vec![0xC3, 0xA9]);
    assert_eq!(string_to_bytes_zero_terminated("main"), b"main\0".to_vec());
    assert_eq!(string_to_bytes_zero_terminated(""), vec![0]);
}

#[test]
fn string_copies() {
    assert_eq!(string("WriteFile"), "WriteFile".to_string());
    assert_eq!(string(""), String::new());
}

#[test]
fn time_stamps_keep_the_low_32_bits() {
    assert_eq!(timestamp_from_seconds(0), 0);
    assert_eq!(timestamp_from_seconds(0x631F038B), 0x631F038B);
    assert_eq!(timestamp_from_seconds(0xFFFF_FFFF), 0xFFFF_FFFF);
    assert_eq!(timestamp_from_seconds(0x1_0000_0000), 0);
    assert_eq!(timestamp_from_seconds(0x1_0000_0005), 5);
    assert_eq!(timestamp_from_seconds(u64::MAX), 0xFFFF_FFFF);
}

#[test]
fn the_clock_is_read() {
    let before = std::time::SystemTime::now()
        .duration_since(std::time::UNIX_EPOCH)
        .map(|elapsed| elapsed.as_secs())
        .unwrap_or(0);
    let stamp = get_current_timestamp();
    let after = std::time::SystemTime::now()
        .duration_since(std::time::UNIX_EPOCH)
        .map(|elapsed| elapsed.as_secs())
        .unwrap_or(0);
    // Between the two readings, unless the clock was set back meanwhile.
    if before <= after && after - before < 60 {
        let low = (before & 0xFFFF_FFFF) as u32;
        assert!(stamp.wrapping_sub(low) <= 60);
    }
}

#[test]
fn file_names_that_fit_are_padded() {
    assert_eq!(
        &get_18_padded_u8_array_from_string("hello1.asm"),
        b"hello1.asm\0\0\0\0\0\0\0\0"
    );
    assert_eq!(&get_18_padded_u8_array_from_string("exactly_18_bytes__"), b"exactly_18_bytes__");
}

#[test]
fn a_reading_of_the_clock_becomes_a_time_stamp() {
    assert_eq!(timestamp_from_reading(Some(0x631F038B)), 0x631F038B);
    assert_eq!(timestamp_from_reading(Some(0)), 0);
    assert_eq!(timestamp_from_reading(Some(0x2_0000_0007)), 7);
    assert_eq!(timestamp_from_reading(Some(u64::MAX)), 0xFFFF_FFFF);
    assert_eq!(timestamp_from_reading(None), 0);
}
