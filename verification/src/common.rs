//! Shared primitive codec of the osu! file formats: booleans, ULEB128
//! integers, presence-tagged strings, tick-count timestamps, the gameplay
//! mode byte and the modifier bitset.
//!
//! Each decoder is specified against an `sd_*` spec function giving the
//! mathematical reading of the bytes, and the variable-length encodings come
//! with encoders that are proved to round-trip through their decoders.

use vstd::prelude::*;

use crate::error::Error;
use crate::reader::{read_u32, read_u64, read_u8, sd_u32, sd_u64, sd_u8, take_bytes};

verus! {

/// A string field of the file formats. The wire encoding distinguishes an
/// absent string (`None`) from a present-but-empty one (`Some("")`).
pub type OsuString = Option<String>;

/// Represents the different gameplay modes for a beatmap.
#[derive(Clone, Copy, Debug, PartialEq, Eq, Structural)]
pub enum GameplayMode {
    Standard,
    Taiko,
    Catch,
    Mania,
}

/// The gameplay mode denoted by a mode byte, if the byte is in the closed
/// set {0, 1, 2, 3}.
pub open spec fn mode_of_byte(b: u8) -> Option<GameplayMode> {
    if b == 0 {
        Some(GameplayMode::Standard)
    } else if b == 1 {
        Some(GameplayMode::Taiko)
    } else if b == 2 {
        Some(GameplayMode::Catch)
    } else if b == 3 {
        Some(GameplayMode::Mania)
    } else {
        None
    }
}

// Named modifier bits. Some named masks are combinations of other bits:
// Nightcore always rides on DoubleTime's bit, and KeyMod is the union of the
// five key-count bits.
pub const MOD_NO_FAIL: u32 = 1 << 0;

pub const MOD_EASY: u32 = 1 << 1;

pub const MOD_TOUCH_DEVICE: u32 = 1 << 2;

pub const MOD_HIDDEN: u32 = 1 << 3;

pub const MOD_HARD_ROCK: u32 = 1 << 4;

pub const MOD_SUDDEN_DEATH: u32 = 1 << 5;

pub const MOD_DOUBLE_TIME: u32 = 1 << 6;

pub const MOD_RELAX: u32 = 1 << 7;

pub const MOD_HALF_TIME: u32 = 1 << 8;

pub const MOD_NIGHTCORE: u32 = (1 << 6) | (1 << 9);

pub const MOD_FLASHLIGHT: u32 = 1 << 10;

pub const MOD_AUTOPLAY: u32 = 1 << 11;

pub const MOD_SPUN_OUT: u32 = 1 << 12;

pub const MOD_AUTOPILOT: u32 = 1 << 13;

pub const MOD_PERFECT: u32 = 1 << 14;

pub const MOD_KEY4: u32 = 1 << 15;

pub const MOD_KEY5: u32 = 1 << 16;

pub const MOD_KEY6: u32 = 1 << 17;

pub const MOD_KEY7: u32 = 1 << 18;

pub const MOD_KEY8: u32 = 1 << 19;

pub const MOD_KEY_MOD: u32 = (1 << 15) | (1 << 16) | (1 << 17) | (1 << 18) | (1 << 19);

pub const MOD_FADE_IN: u32 = 1 << 20;

pub const MOD_RANDOM: u32 = 1 << 21;

pub const MOD_CINEMA: u32 = 1 << 22;

pub const MOD_TARGET_PRACTICE: u32 = 1 << 23;

pub const MOD_KEY9: u32 = 1 << 24;

pub const MOD_COOP: u32 = 1 << 25;

pub const MOD_KEY1: u32 = 1 << 26;

pub const MOD_KEY3: u32 = 1 << 27;

pub const MOD_KEY2: u32 = 1 << 28;

pub const MOD_SCORE_V2: u32 = 1 << 29;

pub const MOD_MIRROR: u32 = 1 << 30;

/// Union of every known modifier bit; bits outside this mask are dropped
/// when a modifier set is decoded, never rejected.
pub const KNOWN_MODS_MASK: u32 = 0x7fff_ffff;

/// A combination of gameplay modifiers, stored as a bitset over the named
/// `MOD_*` masks.
#[derive(Clone, Copy, Debug, PartialEq, Eq, Structural)]
pub struct Mods {
    pub bits: u32,
}

impl Mods {
    /// True when every bit of `mask` is set. For a combined mask such as
    /// `MOD_NIGHTCORE` this requires all of its constituent bits.
    pub open spec fn spec_contains(self, mask: u32) -> bool {
        self.bits & mask == mask
    }

    /// True when every bit of `mask` is set.
    pub fn contains(&self, mask: u32) -> (r: bool)
        ensures
            r == self.spec_contains(mask),
    {
        self.bits & mask == mask
    }

    /// A decoded modifier set only carries known bits.
    pub open spec fn well_formed(self) -> bool {
        self.bits & KNOWN_MODS_MASK == self.bits
    }
}

/// True when the set contains any of the modifiers that turn an SS or S
/// grade into its silver variant: Hidden, Flashlight or FadeIn.
pub open spec fn has_silver_mod(m: Mods) -> bool {
    m.spec_contains(MOD_HIDDEN) || m.spec_contains(MOD_FLASHLIGHT) || m.spec_contains(MOD_FADE_IN)
}

/// A timestamp of the file formats: a count of 100-nanosecond ticks since
/// 0001-01-01T00:00:00Z (.NET `DateTime.Ticks`).
#[derive(Clone, Copy, Debug, PartialEq, Eq, Structural)]
pub struct WindowsDateTime {
    pub ticks: u64,
}

/// A tick count broken into calendar date and clock time, in UTC.
#[derive(Clone, Copy, Debug, PartialEq, Eq, Structural)]
pub struct CalendarDateTime {
    pub year: i32,
    pub month: u8,
    pub day: u8,
    pub hour: u8,
    pub minute: u8,
    pub second: u8,
    pub nanosecond: u32,
}

/// The calendar breakdown, in UTC, of a count of 100-nanosecond ticks since
/// 0001-01-01T00:00:00Z, as the tuple (year, month, day, hour, minute,
/// second, nanosecond). The breakdown is a function of the tick count alone.
pub uninterp spec fn calendar_of(ticks: u64) -> (i32, u8, u8, u8, u8, u8, u32);

/// The last tick of year 9999, the largest tick count whose calendar
/// breakdown the conversion below supports.
pub const MAX_CALENDAR_TICKS: u64 = 3_155_378_975_999_999_999;

/// Nanoseconds between 0001-01-01T00:00:00Z (the tick epoch) and
/// 1970-01-01T00:00:00Z (the unix epoch): 62_135_596_800 seconds.
pub const UNIX_EPOCH_SHIFT_NANOS: i128 = 62_135_596_800_000_000_000;

/// Renders a tick count as nanoseconds relative to the unix epoch: ticks
/// are 100-nanosecond units since the tick epoch, which lies
/// `UNIX_EPOCH_SHIFT_NANOS` before the unix epoch.
fn ticks_to_unix_nanos(ticks: u64) -> (r: i128)
    ensures
        r == ticks * 100 - UNIX_EPOCH_SHIFT_NANOS,
{
    (ticks as i128) * 100 - UNIX_EPOCH_SHIFT_NANOS
}

/// Relies on `time::OffsetDateTime::from_unix_timestamp_nanos` and its
/// component accessors: the calendar date and clock time, in UTC, of the
/// given tick count. The conversion depends on the tick count alone; ticks
/// up to `MAX_CALENDAR_TICKS` stay within the year range the crate
/// accepts. `nanos` must be the tick count's verified unix-epoch
/// rendering, so that the body holds nothing but the call.
#[verifier::external_body]
fn ticks_to_calendar(ticks: u64, nanos: i128) -> (r: (i32, u8, u8, u8, u8, u8, u32))
    requires
        ticks <= MAX_CALENDAR_TICKS,
        nanos == ticks * 100 - UNIX_EPOCH_SHIFT_NANOS,
    ensures
        r == calendar_of(ticks),
{
    let _ = ticks;
    let dt = time::OffsetDateTime::from_unix_timestamp_nanos(nanos).unwrap();
    (dt.year(), dt.month() as u8, dt.day(), dt.hour(), dt.minute(), dt.second(), dt.nanosecond())
}

impl WindowsDateTime {
    /// Breaks the timestamp into calendar date and clock time, in UTC.
    /// Returns `None` only for tick counts past the year 9999.
    pub fn to_calendar(&self) -> (r: Option<CalendarDateTime>)
        ensures
            self.ticks <= MAX_CALENDAR_TICKS ==> (r matches Some(c) && (
            c.year,
            c.month,
            c.day,
            c.hour,
            c.minute,
            c.second,
            c.nanosecond,
            ) == calendar_of(self.ticks)),
            self.ticks > MAX_CALENDAR_TICKS ==> r is None,
    {
        if self.ticks <= MAX_CALENDAR_TICKS {
            let nanos = ticks_to_unix_nanos(self.ticks);
            let (year, month, day, hour, minute, second, nanosecond) = ticks_to_calendar(
                self.ticks,
                nanos,
            );
            Some(CalendarDateTime { year, month, day, hour, minute, second, nanosecond })
        } else {
            None
        }
    }
}

/// The boolean encoded at `pos`: one byte, any non-zero value is true.
pub open spec fn sd_boolean(s: Seq<u8>, pos: int) -> Result<(bool, int), Error> {
    match sd_u8(s, pos) {
        Ok(o) => Ok((o.0 != 0, o.1)),
        Err(e) => Err(e),
    }
}

/// Parses a boolean value in osu!'s database file formats.
pub fn boolean(input: &[u8], pos: usize) -> (r: Result<(bool, usize), Error>)
    ensures
        match sd_boolean(input@, pos as int) {
            Ok(o) => r matches Ok(v) && v.0 == o.0 && v.1 as int == o.1,
            Err(e) => r matches Err(e2) && e2 == e,
        },
        r matches Ok(v) ==> pos <= v.1 && v.1 <= input@.len(),
{
    match read_u8(input, pos) {
        Ok((b, p)) => Ok((b != 0, p)),
        Err(e) => Err(e),
    }
}

/// The gameplay mode encoded at `pos`: one byte in the closed set
/// {0, 1, 2, 3}; any other value is an error.
pub open spec fn sd_gameplay_mode(s: Seq<u8>, pos: int) -> Result<(GameplayMode, int), Error> {
    match sd_u8(s, pos) {
        Ok(o) => match mode_of_byte(o.0) {
            Some(m) => Ok((m, o.1)),
            None => Err(Error::UnknownGameplayMode { offset: pos as usize, value: o.0 }),
        },
        Err(e) => Err(e),
    }
}

/// Parses a gameplay mode value.
pub fn gameplay_mode(input: &[u8], pos: usize) -> (r: Result<(GameplayMode, usize), Error>)
    ensures
        match sd_gameplay_mode(input@, pos as int) {
            Ok(o) => r matches Ok(v) && v.0 == o.0 && v.1 as int == o.1,
            Err(e) => r matches Err(e2) && e2 == e,
        },
        r matches Ok(v) ==> pos <= v.1 && v.1 <= input@.len(),
{
    let (b, p) = match read_u8(input, pos) {
        Ok(x) => x,
        Err(e) => { return Err(e) },
    };
    match b {
        0 => Ok((GameplayMode::Standard, p)),
        1 => Ok((GameplayMode::Taiko, p)),
        2 => Ok((GameplayMode::Catch, p)),
        3 => Ok((GameplayMode::Mania, p)),
        _ => Err(Error::UnknownGameplayMode { offset: pos, value: b }),
    }
}

/// The modifier set encoded at `pos`: a little-endian `u32` with any bits
/// outside the known set silently dropped.
pub open spec fn sd_modifiers(s: Seq<u8>, pos: int) -> Result<(Mods, int), Error> {
    match sd_u32(s, pos) {
        Ok(o) => Ok((Mods { bits: o.0 & KNOWN_MODS_MASK }, o.1)),
        Err(e) => Err(e),
    }
}

/// Parses a set of gameplay modifiers.
pub fn modifiers(input: &[u8], pos: usize) -> (r: Result<(Mods, usize), Error>)
    ensures
        match sd_modifiers(input@, pos as int) {
            Ok(o) => r matches Ok(v) && v.0 == o.0 && v.1 as int == o.1,
            Err(e) => r matches Err(e2) && e2 == e,
        },
        r matches Ok(v) ==> pos <= v.1 && v.1 <= input@.len(),
{
    match read_u32(input, pos) {
        Ok((v, p)) => Ok((Mods { bits: v & KNOWN_MODS_MASK }, p)),
        Err(e) => Err(e),
    }
}

/// The ULEB128 value starting at `pos`: each byte contributes its low 7
/// bits, least-significant group first, until a byte with the high bit
/// clear; bits past the 64-bit accumulator are discarded. Running out of
/// input before a terminating byte is an end-of-input error.
pub open spec fn sd_uleb128(s: Seq<u8>, pos: int) -> Result<(u64, int), Error>
    decreases s.len() - pos,
{
    if pos < 0 || pos >= s.len() {
        Err(Error::UnexpectedEof { offset: pos as usize })
    } else if s[pos] & 0x80 == 0 {
        Ok((((s[pos] & 0x7f) as u64), pos + 1))
    } else {
        match sd_uleb128(s, pos + 1) {
            Ok(o) => Ok(((((s[pos] & 0x7f) as u64) | (o.0 << 7)), o.1)),
            Err(e) => Err(e),
        }
    }
}

/// Decodes a ULEB128 value into an unsigned 64-bit integer.
pub fn uleb128(input: &[u8], pos: usize) -> (r: Result<(u64, usize), Error>)
    ensures
        match sd_uleb128(input@, pos as int) {
            Ok(o) => r matches Ok(v) && v.0 == o.0 && v.1 as int == o.1,
            Err(e) => r matches Err(e2) && e2 == e,
        },
        r matches Ok(v) ==> pos <= v.1 && v.1 <= input@.len(),
    decreases input@.len() - pos,
{
    if pos >= input.len() {
        return Err(Error::UnexpectedEof { offset: pos });
    }
    let b = *vstd::slice::slice_index_get(input, pos);
    if b & 0x80 == 0 {
        Ok(((b & 0x7f) as u64, pos + 1))
    } else {
        match uleb128(input, pos + 1) {
            Ok((v, p)) => Ok((((b & 0x7f) as u64) | (v << 7), p)),
            Err(e) => Err(e),
        }
    }
}

/// The canonical (shortest) ULEB128 encoding of `n`.
pub open spec fn spec_uleb128_encode(n: u64) -> Seq<u8>
    decreases n,
{
    if n < 0x80 {
        seq![n as u8]
    } else {
        seq![(n % 128 + 128) as u8] + spec_uleb128_encode((n / 128) as u64)
    }
}

/// Encodes `n` in ULEB128.
pub fn encode_uleb128(n: u64) -> (r: Vec<u8>)
    ensures
        r@ == spec_uleb128_encode(n),
{
    let mut out: Vec<u8> = Vec::new();
    let mut m: u64 = n;
    while m >= 0x80
        invariant
            spec_uleb128_encode(n) == out@ + spec_uleb128_encode(m),
        decreases m,
    {
        let b: u8 = (m % 128 + 128) as u8;
        out.push(b);
        let m2: u64 = m / 128;
        proof {
            assert(spec_uleb128_encode(m) == seq![b] + spec_uleb128_encode(m2));
            assert(spec_uleb128_encode(n) =~= out@ + spec_uleb128_encode(m2));
        }
        m = m2;
    }
    out.push(m as u8);
    proof {
        assert(spec_uleb128_encode(m) =~= seq![m as u8]);
        assert(out@ =~= spec_uleb128_encode(n));
    }
    out
}

/// Decoding the canonical encoding of `n` from any position where it is
/// embedded yields `n` and consumes exactly the encoding.
pub proof fn lemma_uleb128_decode_encode_at(s: Seq<u8>, pos: int, n: u64)
    requires
        0 <= pos,
        pos + spec_uleb128_encode(n).len() <= s.len(),
        s.subrange(pos, pos + spec_uleb128_encode(n).len() as int) == spec_uleb128_encode(n),
    ensures
        sd_uleb128(s, pos) == Ok::<(u64, int), Error>(
            (n, pos + spec_uleb128_encode(n).len() as int),
        ),
    decreases n,
{
    let enc = spec_uleb128_encode(n);
    assert(s[pos] == enc[0]);
    if n < 0x80 {
        assert((n as u8) & 0x80 == 0 && ((n as u8) & 0x7f) as u64 == n) by (bit_vector)
            requires
                n < 0x80,
        ;
    } else {
        let low: u64 = n % 128;
        let m: u64 = (n / 128) as u64;
        let b: u8 = (low + 128) as u8;
        assert(b & 0x80 != 0) by (bit_vector)
            requires
                low < 128 && b == (low + 128) as u8,
        ;
        let enc2 = spec_uleb128_encode(m);
        assert(enc == seq![b] + enc2);
        let sub = s.subrange(pos, pos + enc.len() as int);
        assert(s.subrange(pos + 1, pos + 1 + enc2.len() as int) =~= sub.subrange(
            1,
            enc.len() as int,
        ));
        assert(sub.subrange(1, enc.len() as int) =~= enc2);
        lemma_uleb128_decode_encode_at(s, pos + 1, m);
        assert(((b & 0x7f) as u64) | (m << 7) == n) by (bit_vector)
            requires
                low == n % 128 && m == n / 128 && b == (low + 128) as u8,
        ;
    }
}

/// Round trip: for every `n`, decoding the canonical ULEB128 encoding of
/// `n` (followed by any further bytes) yields `n` and stops right after the
/// encoding.
pub proof fn lemma_uleb128_round_trip(n: u64, tail: Seq<u8>)
    ensures
        sd_uleb128(spec_uleb128_encode(n) + tail, 0) == Ok::<(u64, int), Error>(
            (n, spec_uleb128_encode(n).len() as int),
        ),
{
    let enc = spec_uleb128_encode(n);
    assert((enc + tail).subrange(0, enc.len() as int) =~= enc);
    lemma_uleb128_decode_encode_at(enc + tail, 0, n);
}

/// The tagged string starting at `pos`. Tag 0x00 denotes an absent string;
/// tag 0x0b is followed by a ULEB128 byte length and that many bytes of
/// UTF-8; any other tag byte is an error, as is invalid UTF-8.
pub open spec fn sd_osu_string(s: Seq<u8>, pos: int) -> Result<(Option<Seq<char>>, int), Error> {
    match sd_u8(s, pos) {
        Ok(o) => {
            let tag = o.0;
            let p = o.1;
            if tag == 0x00 {
                Ok((None, p))
            } else if tag == 0x0b {
                match sd_uleb128(s, p) {
                    Ok(o2) => {
                        let len = o2.0;
                        let p2 = o2.1;
                        if p2 + len <= s.len() {
                            let bytes = s.subrange(p2, p2 + len);
                            if vstd::utf8::valid_utf8(bytes) {
                                Ok((Some(vstd::utf8::decode_utf8(bytes)), p2 + len))
                            } else {
                                Err(Error::InvalidUtf8 { offset: p2 as usize })
                            }
                        } else {
                            Err(Error::UnexpectedEof { offset: p2 as usize })
                        }
                    },
                    Err(e) => Err(e),
                }
            } else {
                Err(Error::UnknownStringTag { offset: pos as usize, tag })
            }
        },
        Err(e) => Err(e),
    }
}

/// Relies on `String::from_utf8`, which succeeds on exactly the byte
/// sequences that are valid UTF-8 and decodes them to the corresponding
/// characters.
#[verifier::external_body]
fn bytes_to_string(bytes: Vec<u8>) -> (r: Option<String>)
    ensures
        r matches Some(st) ==> vstd::utf8::valid_utf8(bytes@) && st@ == vstd::utf8::decode_utf8(
            bytes@,
        ),
        r is None ==> !vstd::utf8::valid_utf8(bytes@),
{
    String::from_utf8(bytes).ok()
}

/// Relies on `str::from_utf8`, which succeeds on exactly the byte
/// sequences that are valid UTF-8.
#[verifier::external_body]
pub(crate) fn utf8_check(bytes: &Vec<u8>) -> (r: bool)
    ensures
        r == vstd::utf8::valid_utf8(bytes@),
{
    std::str::from_utf8(bytes).is_ok()
}

/// Decodes a string found in osu!'s database file formats.
///
/// - If the first byte is 0x00, then no string value is present.
/// - If the first byte is 0x0b, then this is followed by a ULEB128 value
///   indicating the length, then the UTF-8 string bytes.
///
/// The two empty representations stay distinguishable: `0x00` decodes to
/// `None`, while `0x0b, 0x00` decodes to `Some("")`.
pub fn osu_string(input: &[u8], pos: usize) -> (r: Result<(OsuString, usize), Error>)
    ensures
        match sd_osu_string(input@, pos as int) {
            Ok(o) => r matches Ok(v) && v.0.deep_view() == o.0 && v.1 as int == o.1,
            Err(e) => r matches Err(e2) && e2 == e,
        },
        r matches Ok(v) ==> pos <= v.1 && v.1 <= input@.len(),
{
    let (tag, p) = match read_u8(input, pos) {
        Ok(x) => x,
        Err(e) => { return Err(e) },
    };
    if tag == 0x00 {
        Ok((None, p))
    } else if tag == 0x0b {
        let (len, p2) = match uleb128(input, p) {
            Ok(x) => x,
            Err(e) => { return Err(e) },
        };
        if len <= (input.len() - p2) as u64 {
            let n = len as usize;
            let (bytes, p3) = match take_bytes(input, p2, n) {
                Ok(x) => x,
                Err(e) => { return Err(e) },
            };
            match bytes_to_string(bytes) {
                Some(st) => Ok((Some(st), p3)),
                None => Err(Error::InvalidUtf8 { offset: p2 }),
            }
        } else {
            Err(Error::UnexpectedEof { offset: p2 })
        }
    } else {
        Err(Error::UnknownStringTag { offset: pos, tag })
    }
}

/// The wire encoding of a string value: 0x00 for an absent string, else
/// 0x0b, the ULEB128 length of the UTF-8 bytes, and the bytes themselves.
pub open spec fn spec_osu_string_encode(v: Option<Seq<char>>) -> Seq<u8> {
    match v {
        None => seq![0x00u8],
        Some(chars) => {
            let bytes = vstd::utf8::encode_utf8(chars);
            seq![0x0bu8] + spec_uleb128_encode(bytes.len() as u64) + bytes
        },
    }
}

/// Encodes a string value in the tagged wire format.
pub fn encode_osu_string(v: &OsuString) -> (r: Vec<u8>)
    ensures
        r@ == spec_osu_string_encode(v.deep_view()),
{
    match v {
        None => {
            let mut out: Vec<u8> = Vec::new();
            out.push(0x00);
            proof {
                assert(out@ =~= spec_osu_string_encode(None));
            }
            out
        },
        Some(st) => {
            let bytes = vstd::string::StrSliceExecFns::as_bytes_vec(st.as_str());
            let mut out: Vec<u8> = Vec::new();
            out.push(0x0b);
            let mut len_bytes = encode_uleb128(bytes.len() as u64);
            out.append(&mut len_bytes);
            let mut bytes = bytes;
            out.append(&mut bytes);
            proof {
                assert(out@ =~= spec_osu_string_encode(Some(st@)));
            }
            out
        },
    }
}

/// Round trip: decoding the encoding of any string value (followed by any
/// further bytes) yields the value back and stops right after the encoding.
/// The byte length of the encoded characters must fit the ULEB128 encoder's
/// 64-bit range, which every executable string satisfies.
pub proof fn lemma_osu_string_round_trip(v: Option<Seq<char>>, tail: Seq<u8>)
    requires
        v matches Some(chars) ==> vstd::utf8::encode_utf8(chars).len() <= u64::MAX,
    ensures
        sd_osu_string(spec_osu_string_encode(v) + tail, 0) == Ok::<(Option<Seq<char>>, int), Error>(
            (v, spec_osu_string_encode(v).len() as int),
        ),
{
    let s = spec_osu_string_encode(v) + tail;
    match v {
        None => {
            assert(s[0] == 0x00u8);
        },
        Some(chars) => {
            let bytes = vstd::utf8::encode_utf8(chars);
            let len_enc = spec_uleb128_encode(bytes.len() as u64);
            assert(s[0] == 0x0bu8);
            assert(s.subrange(1, 1 + len_enc.len() as int) =~= len_enc);
            lemma_uleb128_decode_encode_at(s, 1, bytes.len() as u64);
            let p2 = 1 + len_enc.len() as int;
            assert(s.subrange(p2, p2 + bytes.len() as int) =~= bytes);
            assert(vstd::utf8::valid_utf8(bytes) && vstd::utf8::decode_utf8(bytes) == chars) by {
                broadcast use vstd::utf8::encode_utf8_valid_utf8, vstd::utf8::encode_utf8_decode_utf8;

            };
        },
    }
}

/// The timestamp at `pos`: a little-endian `u64` tick count.
pub open spec fn sd_windows_datetime(s: Seq<u8>, pos: int) -> Result<(WindowsDateTime, int), Error> {
    match sd_u64(s, pos) {
        Ok(o) => Ok((WindowsDateTime { ticks: o.0 }, o.1)),
        Err(e) => Err(e),
    }
}

/// Parses a timestamp stored as .NET `DateTime.Ticks`: 100-nanosecond units
/// since 0001-01-01T00:00:00Z.
pub fn windows_datetime(input: &[u8], pos: usize) -> (r: Result<(WindowsDateTime, usize), Error>)
    ensures
        match sd_windows_datetime(input@, pos as int) {
            Ok(o) => r matches Ok(v) && v.0 == o.0 && v.1 as int == o.1,
            Err(e) => r matches Err(e2) && e2 == e,
        },
        r matches Ok(v) ==> pos <= v.1 && v.1 <= input@.len(),
{
    match read_u64(input, pos) {
        Ok((t, p)) => Ok((WindowsDateTime { ticks: t }, p)),
        Err(e) => Err(e),
    }
}

} // verus!
