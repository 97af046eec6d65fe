//! Tests for the primitive codec: booleans, ULEB128, strings, timestamps,
//! modes and modifier sets.

use osu_db_parser::common::{
    boolean, encode_osu_string, encode_uleb128, gameplay_mode, modifiers, osu_string, uleb128,
    windows_datetime, CalendarDateTime, GameplayMode, Mods, WindowsDateTime, KNOWN_MODS_MASK,
    MOD_DOUBLE_TIME, MOD_HIDDEN, MOD_NIGHTCORE, MAX_CALENDAR_TICKS,
};
use osu_db_parser::error::Error;

#[test]
fn boolean_decoding_works() {
    // Any non-zero byte should result in true
    assert_eq!(boolean(&[0x00], 0), Ok((false, 1)));
    assert_eq!(boolean(&[0x01], 0), Ok((true, 1)));

    // Only the first byte is consumed
    assert_eq!(boolean(&[0xFF, 0x01, 0x02], 0), Ok((true, 1)));
}

#[test]
fn common_boolean_decoding_works() {
    assert_eq!(boolean(&[0x00], 0), Ok((false, 1)));
    assert_eq!(boolean(&[0x01], 0), Ok((true, 1)));

    assert_eq!(boolean(&[0xFF, 0x01, 0x02], 0), Ok((true, 1)));
}

#[test]
fn gameplay_mode_decoding_works() {
    assert_eq!(gameplay_mode(&[0], 0), Ok((GameplayMode::Standard, 1)));
    assert_eq!(gameplay_mode(&[1], 0), Ok((GameplayMode::Taiko, 1)));
    assert_eq!(gameplay_mode(&[2], 0), Ok((GameplayMode::Catch, 1)));
    assert_eq!(gameplay_mode(&[3], 0), Ok((GameplayMode::Mania, 1)));

    assert_eq!(
        gameplay_mode(&[10], 0),
        Err(Error::UnknownGameplayMode { offset: 0, value: 10 })
    );
}

#[test]
fn uleb128_decoding_works() {
    // 0xE5, 0x8E, 0x26 ==> 624485
    // ULEB128 value by itself
    assert_eq!(uleb128(&[0xE5, 0x8E, 0x26], 0), Ok((624485, 3)));

    // ULEB128 value followed by other bytes
    assert_eq!(uleb128(&[0xE5, 0x8E, 0x26, 0x80, 0x81, 0x82], 0), Ok((624485, 3)));

    // Empty value
    assert_eq!(uleb128(&[], 0), Err(Error::UnexpectedEof { offset: 0 }));
}

#[test]
fn common_uleb128_decoding_works() {
    assert_eq!(uleb128(&[0xE5, 0x8E, 0x26], 0), Ok((624485, 3)));

    assert_eq!(uleb128(&[0xE5, 0x8E, 0x26, 0x80, 0x81, 0x82], 0), Ok((624485, 3)));

    assert_eq!(uleb128(&[], 0), Err(Error::UnexpectedEof { offset: 0 }));
}

#[test]
fn uleb128_encode_round_trips() {
    for &n in &[
        0u64,
        1,
        0x7F,
        0x80,
        624485,
        300,
        u32::MAX as u64,
        u64::MAX - 1,
        u64::MAX,
    ] {
        let enc = encode_uleb128(n);
        assert_eq!(uleb128(&enc, 0), Ok((n, enc.len())));
    }
    // The canonical encoding of the documentation example
    assert_eq!(encode_uleb128(624485), vec![0xE5, 0x8E, 0x26]);
    // A run of continuation bytes without a terminator is an error
    assert_eq!(uleb128(&[0x80, 0x80, 0x80], 0), Err(Error::UnexpectedEof { offset: 3 }));
}

#[test]
fn osu_string_decoding_works() {
    let empty = vec![0x00];
    let zero_length = vec![0x0b, 0x00];
    let test_string = String::from("test");
    let mut test_string_bytes = vec![0x0b, 0x04];

    for byte in test_string.as_bytes() {
        test_string_bytes.push(*byte);
    }

    // Append a few other bytes that aren't part of the string
    test_string_bytes.push(0x01);
    test_string_bytes.push(0x02);
    test_string_bytes.push(0x03);

    assert_eq!(osu_string(&empty, 0), Ok((None, 1)));
    assert_eq!(osu_string(&zero_length, 0), Ok((Some("".to_string()), 2)));
    // Trailing bytes are left unconsumed
    assert_eq!(osu_string(&test_string_bytes, 0), Ok((Some(test_string), 6)));
}

#[test]
fn common_osu_string_decoding_works() {
    let empty = vec![0x00];
    let zero_length = vec![0x0b, 0x00];
    let test_string = "test";
    let mut test_string_bytes = vec![0x0b, 0x04];

    for byte in test_string.as_bytes() {
        test_string_bytes.push(*byte);
    }

    test_string_bytes.push(0x01);
    test_string_bytes.push(0x02);
    test_string_bytes.push(0x03);

    assert_eq!(osu_string(&empty, 0), Ok((None, 1)));
    assert_eq!(osu_string(&zero_length, 0), Ok((Some("".to_string()), 2)));
    assert_eq!(
        osu_string(&test_string_bytes, 0),
        Ok((Some(test_string.to_string()), 6))
    );
}

#[test]
fn osu_string_error_cases() {
    // An unrecognized tag byte is a fatal error
    assert_eq!(
        osu_string(&[0x05], 0),
        Err(Error::UnknownStringTag { offset: 0, tag: 0x05 })
    );
    // A declared length running past the buffer is an end-of-input error
    assert_eq!(
        osu_string(&[0x0b, 0x04, b'a'], 0),
        Err(Error::UnexpectedEof { offset: 2 })
    );
    // Invalid UTF-8 is a fatal error
    assert_eq!(
        osu_string(&[0x0b, 0x01, 0xFF], 0),
        Err(Error::InvalidUtf8 { offset: 2 })
    );
    // An empty buffer fails at the tag byte
    assert_eq!(osu_string(&[], 0), Err(Error::UnexpectedEof { offset: 0 }));
}

#[test]
fn osu_string_encode_round_trips() {
    for v in [
        None,
        Some(String::new()),
        Some("test".to_string()),
        Some("snow: \u{2603}, accents: \u{e9}\u{e8}".to_string()),
    ] {
        let enc = encode_osu_string(&v);
        assert_eq!(osu_string(&enc, 0), Ok((v, enc.len())));
    }
    assert_eq!(encode_osu_string(&None), vec![0x00]);
    assert_eq!(encode_osu_string(&Some("test".to_string())), vec![0x0b, 0x04, b't', b'e', b's', b't']);
}

#[test]
fn windows_datetime_decoding_works() {
    // 07/28/2023 15:30:20 +00:00 ==> 638261550200000000 ticks
    let ticks = 638261550200000000u64;

    // Should only parse the first 8 bytes
    let mut input = ticks.to_le_bytes().to_vec();
    input.push(0x01);
    input.push(0x02);
    input.push(0x03);

    let (decoded, rest) = windows_datetime(&input, 0).unwrap();
    assert_eq!(rest, 8);
    assert_eq!(decoded, WindowsDateTime { ticks });
    assert_eq!(
        decoded.to_calendar(),
        Some(CalendarDateTime {
            year: 2023,
            month: 7,
            day: 28,
            hour: 15,
            minute: 30,
            second: 20,
            nanosecond: 0,
        })
    );
}

#[test]
fn common_windows_datetime_decoding_works() {
    let ticks = 638261550200000000u64;

    let mut input = ticks.to_le_bytes().to_vec();
    input.push(0x01);
    input.push(0x02);
    input.push(0x03);

    let (decoded, rest) = windows_datetime(&input, 0).unwrap();
    assert_eq!((decoded.ticks, rest), (ticks, 8));
    let calendar = decoded.to_calendar().unwrap();
    assert_eq!(
        (calendar.year, calendar.month, calendar.day),
        (2023, 7, 28)
    );
    assert_eq!(
        (calendar.hour, calendar.minute, calendar.second),
        (15, 30, 20)
    );
}

#[test]
fn windows_datetime_calendar_edges() {
    // The zero tick is the epoch itself
    assert_eq!(
        WindowsDateTime { ticks: 0 }.to_calendar(),
        Some(CalendarDateTime {
            year: 1,
            month: 1,
            day: 1,
            hour: 0,
            minute: 0,
            second: 0,
            nanosecond: 0,
        })
    );
    // Sub-second precision is preserved: 1 tick is 100 nanoseconds
    assert_eq!(
        WindowsDateTime { ticks: 638261550200000001 }.to_calendar().unwrap().nanosecond,
        100
    );
    // The last supported tick is the end of year 9999
    let last = WindowsDateTime { ticks: MAX_CALENDAR_TICKS }.to_calendar().unwrap();
    assert_eq!((last.year, last.month, last.day), (9999, 12, 31));
    assert_eq!((last.hour, last.minute, last.second, last.nanosecond), (23, 59, 59, 999_999_900));
    // Anything past it is refused rather than miscomputed
    assert_eq!(WindowsDateTime { ticks: MAX_CALENDAR_TICKS + 1 }.to_calendar(), None);
}

#[test]
fn modifiers_decoding_truncates_unknown_bits() {
    // All 32 bits set: the unknown top bit is dropped, the rest kept
    let (mods, rest) = modifiers(&0xFFFF_FFFFu32.to_le_bytes(), 0).unwrap();
    assert_eq!(rest, 4);
    assert_eq!(mods, Mods { bits: KNOWN_MODS_MASK });

    // A lone unknown bit decodes to the empty set
    let (mods, _) = modifiers(&0x8000_0000u32.to_le_bytes(), 0).unwrap();
    assert_eq!(mods, Mods { bits: 0 });

    // Combined masks require all of their constituent bits
    let (mods, _) = modifiers(&MOD_DOUBLE_TIME.to_le_bytes(), 0).unwrap();
    assert!(mods.contains(MOD_DOUBLE_TIME));
    assert!(!mods.contains(MOD_NIGHTCORE));
    let (mods, _) = modifiers(&MOD_NIGHTCORE.to_le_bytes(), 0).unwrap();
    assert!(mods.contains(MOD_NIGHTCORE));
    assert!(mods.contains(MOD_DOUBLE_TIME));
    assert!(!mods.contains(MOD_HIDDEN));
}
