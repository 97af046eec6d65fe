//! Models for the main `osu.db` database file, which contains information
//! on installed beatmaps.
//!
//! Floating-point fields of the format (difficulty statistics, slider
//! velocity, star ratings, timing points, stack leniency) are carried as
//! their IEEE 754 bit patterns in `u32` / `u64` fields; the decoders read
//! the same bytes the client wrote and leave the numeric interpretation to
//! the caller.

use vstd::prelude::*;

use crate::common::{
    boolean, gameplay_mode, osu_string, sd_boolean, sd_gameplay_mode, sd_osu_string,
    windows_datetime, sd_windows_datetime, GameplayMode, Mods, OsuString, WindowsDateTime,
    KNOWN_MODS_MASK,
};
use crate::error::Error;
use crate::reader::{read_u16, read_u32, read_u64, read_u8, sd_u16, sd_u32, sd_u64, sd_u8};

verus! {

/// Listing versions from this one on no longer store a per-entry size
/// prefix.
pub const VERSION_SIZE_REMOVED: u32 = 20191106;

/// Listing versions before this one store the four difficulty statistics as
/// single bytes; from this one on they are 32-bit floats.
pub const VERSION_FLOAT_DIFFICULTY: u32 = 20140609;

/// Represents the ranked status of a beatmap.
///
/// The wire encoding is a byte in the closed set {0, 1, 2, 4, 5, 6, 7}:
/// 0 = unknown, 1 = unsubmitted, 2 = pending/wip/graveyard, 4 = ranked,
/// 5 = approved, 6 = qualified, 7 = loved. The value 3 is reserved and is
/// itself invalid.
#[derive(Clone, Copy, Debug, PartialEq, Eq, Structural)]
pub enum RankedStatus {
    Unknown,
    Unsubmitted,
    /// Pending / WIP / Graveyard
    Pending,
    Ranked,
    Approved,
    Qualified,
    Loved,
}

/// The ranked status denoted by a status byte, if the byte is in the closed
/// set {0, 1, 2, 4, 5, 6, 7}.
pub open spec fn ranked_status_of_byte(b: u8) -> Option<RankedStatus> {
    if b == 0 {
        Some(RankedStatus::Unknown)
    } else if b == 1 {
        Some(RankedStatus::Unsubmitted)
    } else if b == 2 {
        Some(RankedStatus::Pending)
    } else if b == 4 {
        Some(RankedStatus::Ranked)
    } else if b == 5 {
        Some(RankedStatus::Approved)
    } else if b == 6 {
        Some(RankedStatus::Qualified)
    } else if b == 7 {
        Some(RankedStatus::Loved)
    } else {
        None
    }
}

/// The ranked status encoded at `pos`.
pub open spec fn sd_ranked_status(s: Seq<u8>, pos: int) -> Result<(RankedStatus, int), Error> {
    match sd_u8(s, pos) {
        Ok(o) => match ranked_status_of_byte(o.0) {
            Some(st) => Ok((st, o.1)),
            None => Err(Error::UnknownRankedStatus { offset: pos as usize, value: o.0 }),
        },
        Err(e) => Err(e),
    }
}

/// Parses a ranked status value.
pub fn ranked_status(input: &[u8], pos: usize) -> (r: Result<(RankedStatus, usize), Error>)
    ensures
        match sd_ranked_status(input@, pos as int) {
            Ok(o) => r matches Ok(v) && v.0 == o.0 && v.1 as int == o.1,
            Err(e) => r matches Err(e2) && e2 == e,
        },
        r matches Ok(v) ==> pos <= v.1 && v.1 <= input@.len(),
{
    let (b, p) = match read_u8(input, pos) {
        Ok(x) => x,
        Err(e) => { return Err(e) },
    };
    match b {
        0 => Ok((RankedStatus::Unknown, p)),
        1 => Ok((RankedStatus::Unsubmitted, p)),
        2 => Ok((RankedStatus::Pending, p)),
        4 => Ok((RankedStatus::Ranked, p)),
        5 => Ok((RankedStatus::Approved, p)),
        6 => Ok((RankedStatus::Qualified, p)),
        7 => Ok((RankedStatus::Loved, p)),
        _ => Err(Error::UnknownRankedStatus { offset: pos, value: b }),
    }
}

/// A per-modifier-combination difficulty rating for one gameplay mode.
/// `rating` holds the bit pattern of the 64-bit float the client stored.
#[derive(Clone, Copy, Debug, PartialEq, Eq, Structural)]
pub struct StarRating {
    pub mods: Mods,
    pub rating: u64,
}

impl View for StarRating {
    type V = StarRating;

    open spec fn view(&self) -> StarRating {
        *self
    }
}

impl DeepView for StarRating {
    type V = StarRating;

    open spec fn deep_view(&self) -> StarRating {
        *self
    }
}

/// Represents a timing point found in `osu.db`. `bpm` and `song_offset`
/// hold the bit patterns of the 64-bit floats the client stored; insertion
/// order is chronological order in the song.
#[derive(Clone, Copy, Debug, PartialEq, Eq, Structural)]
pub struct TimingPoint {
    /// The BPM of this timing point (64-bit float bit pattern).
    pub bpm: u64,
    /// The offset into the song (64-bit float bit pattern).
    pub song_offset: u64,
    /// Whether this timing point is inherited.
    pub inherited: bool,
}

impl View for TimingPoint {
    type V = TimingPoint;

    open spec fn view(&self) -> TimingPoint {
        *self
    }
}

impl DeepView for TimingPoint {
    type V = TimingPoint;

    open spec fn deep_view(&self) -> TimingPoint {
        *self
    }
}

/// The marker-tagged integer-double pair starting at `pos`: a literal 0x08
/// byte, a little-endian `u32`, a literal 0x0d byte, then the bit pattern of
/// a little-endian 64-bit float. A wrong marker byte is an error.
pub open spec fn sd_int_double_pair(s: Seq<u8>, pos: int) -> Result<((u32, u64), int), Error> {
    match sd_u8(s, pos) {
        Ok(o) => {
            if o.0 != 0x08 {
                Err(Error::MismatchedTag { offset: pos as usize, expected: 0x08, found: o.0 })
            } else {
                match sd_u32(s, o.1) {
                    Ok(o2) => match sd_u8(s, o2.1) {
                        Ok(o3) => {
                            if o3.0 != 0x0d {
                                Err(
                                    Error::MismatchedTag {
                                        offset: o2.1 as usize,
                                        expected: 0x0d,
                                        found: o3.0,
                                    },
                                )
                            } else {
                                match sd_u64(s, o3.1) {
                                    Ok(o4) => Ok(((o2.0, o4.0), o4.1)),
                                    Err(e) => Err(e),
                                }
                            }
                        },
                        Err(e) => Err(e),
                    },
                    Err(e) => Err(e),
                }
            }
        },
        Err(e) => Err(e),
    }
}

/// Parses a integer-double pair found in `osu.db`; the double is returned
/// as its bit pattern.
pub fn int_double_pair(input: &[u8], pos: usize) -> (r: Result<((u32, u64), usize), Error>)
    ensures
        match sd_int_double_pair(input@, pos as int) {
            Ok(o) => r matches Ok(v) && v.0 == o.0 && v.1 as int == o.1,
            Err(e) => r matches Err(e2) && e2 == e,
        },
        r matches Ok(v) ==> pos <= v.1 && v.1 <= input@.len(),
{
    let (m1, p) = match read_u8(input, pos) {
        Ok(x) => x,
        Err(e) => { return Err(e) },
    };
    if m1 != 0x08 {
        return Err(Error::MismatchedTag { offset: pos, expected: 0x08, found: m1 });
    }
    let (int_part, p2) = match read_u32(input, p) {
        Ok(x) => x,
        Err(e) => { return Err(e) },
    };
    let (m2, p3) = match read_u8(input, p2) {
        Ok(x) => x,
        Err(e) => { return Err(e) },
    };
    if m2 != 0x0d {
        return Err(Error::MismatchedTag { offset: p2, expected: 0x0d, found: m2 });
    }
    let (double_bits, p4) = match read_u64(input, p3) {
        Ok(x) => x,
        Err(e) => { return Err(e) },
    };
    Ok(((int_part, double_bits), p4))
}

/// `n` consecutive star-rating pairs starting at `pos`; the `u32` of each
/// pair is truncated to the known modifier bits.
pub open spec fn sd_star_rating_list(s: Seq<u8>, pos: int, n: int) -> Result<
    (Seq<StarRating>, int),
    Error,
>
    decreases n,
{
    if n <= 0 {
        Ok((Seq::empty(), pos))
    } else {
        match sd_int_double_pair(s, pos) {
            Ok(o) => match sd_star_rating_list(s, o.1, n - 1) {
                Ok(o2) => Ok(
                    (
                        seq![
                            StarRating { mods: Mods { bits: o.0.0 & KNOWN_MODS_MASK }, rating: o.0.1 },
                        ] + o2.0,
                        o2.1,
                    ),
                ),
                Err(e) => Err(e),
            },
            Err(e) => Err(e),
        }
    }
}

/// The star-rating array starting at `pos`: a `u32` count, then that many
/// marker-tagged pairs.
pub open spec fn sd_star_ratings(s: Seq<u8>, pos: int) -> Result<(Seq<StarRating>, int), Error> {
    match sd_u32(s, pos) {
        Ok(o) => sd_star_rating_list(s, o.1, o.0 as int),
        Err(e) => Err(e),
    }
}

/// Parses a list of star ratings.
#[verifier::loop_isolation(false)]
pub fn star_ratings(input: &[u8], pos: usize) -> (r: Result<(Vec<StarRating>, usize), Error>)
    ensures
        match sd_star_ratings(input@, pos as int) {
            Ok(o) => r matches Ok(v) && v.0.deep_view() == o.0 && v.1 as int == o.1,
            Err(e) => r matches Err(e2) && e2 == e,
        },
        r matches Ok(v) ==> pos <= v.1 && v.1 <= input@.len(),
{
    let (count, p0) = match read_u32(input, pos) {
        Ok(x) => x,
        Err(e) => { return Err(e) },
    };
    let mut out: Vec<StarRating> = Vec::new();
    let mut p: usize = p0;
    let mut i: u32 = 0;
    while i < count
        invariant
            i <= count,
            p0 <= p <= input@.len(),
            match sd_star_rating_list(input@, p as int, (count - i) as int) {
                Ok(rest) => sd_star_rating_list(input@, p0 as int, count as int) == Ok::<
                    (Seq<StarRating>, int),
                    Error,
                >((out.deep_view() + rest.0, rest.1)),
                Err(e) => sd_star_rating_list(input@, p0 as int, count as int) == Err::<
                    (Seq<StarRating>, int),
                    Error,
                >(e),
            },
        decreases count - i,
    {
        let ghost out_before = out.deep_view();
        match int_double_pair(input, p) {
            Ok(((raw_mods, rating), p2)) => {
                let sr = StarRating { mods: Mods { bits: raw_mods & KNOWN_MODS_MASK }, rating };
                out.push(sr);
                proof {
                    assert(out.deep_view() =~= out_before + seq![sr]);
                    match sd_star_rating_list(input@, p2 as int, (count - i - 1) as int) {
                        Ok(rest2) => {
                            assert(out_before + (seq![sr] + rest2.0) =~= out.deep_view() + rest2.0);
                        },
                        Err(_) => {},
                    }
                }
                p = p2;
                i = i + 1;
            },
            Err(e) => {
                return Err(e);
            },
        }
    }
    proof {
        assert(out.deep_view() + Seq::<StarRating>::empty() =~= out.deep_view());
    }
    Ok((out, p))
}

/// The timing point starting at `pos`: two 64-bit float bit patterns and a
/// boolean.
pub open spec fn sd_timing_point(s: Seq<u8>, pos: int) -> Result<(TimingPoint, int), Error> {
    match sd_u64(s, pos) {
        Ok(o) => match sd_u64(s, o.1) {
            Ok(o2) => match sd_boolean(s, o2.1) {
                Ok(o3) => Ok(
                    (TimingPoint { bpm: o.0, song_offset: o2.0, inherited: o3.0 }, o3.1),
                ),
                Err(e) => Err(e),
            },
            Err(e) => Err(e),
        },
        Err(e) => Err(e),
    }
}

/// Parses a timing point found in `osu.db`.
pub fn timing_point(input: &[u8], pos: usize) -> (r: Result<(TimingPoint, usize), Error>)
    ensures
        match sd_timing_point(input@, pos as int) {
            Ok(o) => r matches Ok(v) && v.0 == o.0 && v.1 as int == o.1,
            Err(e) => r matches Err(e2) && e2 == e,
        },
        r matches Ok(v) ==> pos <= v.1 && v.1 <= input@.len(),
{
    let (bpm, p) = match read_u64(input, pos) {
        Ok(x) => x,
        Err(e) => { return Err(e) },
    };
    let (song_offset, p2) = match read_u64(input, p) {
        Ok(x) => x,
        Err(e) => { return Err(e) },
    };
    let (inherited, p3) = match boolean(input, p2) {
        Ok(x) => x,
        Err(e) => { return Err(e) },
    };
    Ok((TimingPoint { bpm, song_offset, inherited }, p3))
}

/// `n` consecutive timing points starting at `pos`.
pub open spec fn sd_timing_point_list(s: Seq<u8>, pos: int, n: int) -> Result<
    (Seq<TimingPoint>, int),
    Error,
>
    decreases n,
{
    if n <= 0 {
        Ok((Seq::empty(), pos))
    } else {
        match sd_timing_point(s, pos) {
            Ok(o) => match sd_timing_point_list(s, o.1, n - 1) {
                Ok(o2) => Ok((seq![o.0] + o2.0, o2.1)),
                Err(e) => Err(e),
            },
            Err(e) => Err(e),
        }
    }
}

/// Reads a `u32` count followed by that many timing points.
#[verifier::loop_isolation(false)]
pub fn timing_point_array(input: &[u8], pos: usize) -> (r: Result<(Vec<TimingPoint>, usize), Error>)
    ensures
        match sd_timing_point_array(input@, pos as int) {
            Ok(o) => r matches Ok(v) && v.0.deep_view() == o.0 && v.1 as int == o.1,
            Err(e) => r matches Err(e2) && e2 == e,
        },
        r matches Ok(v) ==> pos <= v.1 && v.1 <= input@.len(),
{
    let (count, p0) = match read_u32(input, pos) {
        Ok(x) => x,
        Err(e) => { return Err(e) },
    };
    let mut out: Vec<TimingPoint> = Vec::new();
    let mut p: usize = p0;
    let mut i: u32 = 0;
    while i < count
        invariant
            i <= count,
            p0 <= p <= input@.len(),
            match sd_timing_point_list(input@, p as int, (count - i) as int) {
                Ok(rest) => sd_timing_point_list(input@, p0 as int, count as int) == Ok::<
                    (Seq<TimingPoint>, int),
                    Error,
                >((out.deep_view() + rest.0, rest.1)),
                Err(e) => sd_timing_point_list(input@, p0 as int, count as int) == Err::<
                    (Seq<TimingPoint>, int),
                    Error,
                >(e),
            },
        decreases count - i,
    {
        let ghost out_before = out.deep_view();
        match timing_point(input, p) {
            Ok((tp, p2)) => {
                out.push(tp);
                proof {
                    assert(out.deep_view() =~= out_before + seq![tp]);
                    match sd_timing_point_list(input@, p2 as int, (count - i - 1) as int) {
                        Ok(rest2) => {
                            assert(out_before + (seq![tp] + rest2.0) =~= out.deep_view() + rest2.0);
                        },
                        Err(_) => {},
                    }
                }
                p = p2;
                i = i + 1;
            },
            Err(e) => {
                return Err(e);
            },
        }
    }
    proof {
        assert(out.deep_view() + Seq::<TimingPoint>::empty() =~= out.deep_view());
    }
    Ok((out, p))
}

/// The timing-point array starting at `pos`: a `u32` count, then that many
/// timing points.
pub open spec fn sd_timing_point_array(s: Seq<u8>, pos: int) -> Result<(Seq<TimingPoint>, int), Error> {
    match sd_u32(s, pos) {
        Ok(o) => sd_timing_point_list(s, o.1, o.0 as int),
        Err(e) => Err(e),
    }
}

/// The IEEE 754 single-precision bit pattern of the small integer `b`.
/// Bytes are exactly representable, so the pattern is a pure function of
/// the byte: a zero byte is all-zero bits, and any other byte becomes a
/// biased exponent for its highest set bit plus the remaining bits shifted
/// into the top of the 23-bit mantissa.
pub open spec fn f32_bits_of_byte(b: u8) -> u32 {
    if b == 0 {
        0
    } else if b < 2 {
        (127 * 0x800000 + ((b - 1) * 0x800000)) as u32
    } else if b < 4 {
        (128 * 0x800000 + ((b - 2) * 0x400000)) as u32
    } else if b < 8 {
        (129 * 0x800000 + ((b - 4) * 0x200000)) as u32
    } else if b < 16 {
        (130 * 0x800000 + ((b - 8) * 0x100000)) as u32
    } else if b < 32 {
        (131 * 0x800000 + ((b - 16) * 0x80000)) as u32
    } else if b < 64 {
        (132 * 0x800000 + ((b - 32) * 0x40000)) as u32
    } else if b < 128 {
        (133 * 0x800000 + ((b - 64) * 0x20000)) as u32
    } else {
        (134 * 0x800000 + ((b - 128) * 0x10000)) as u32
    }
}

/// Converts a byte to the bit pattern of the 32-bit float with the same
/// value, as older listing versions store difficulty statistics as bytes.
pub fn byte_to_f32_bits(b: u8) -> (r: u32)
    ensures
        r == f32_bits_of_byte(b),
{
    if b == 0 {
        0
    } else if b < 2 {
        127 * 0x800000 + ((b - 1) as u32) * 0x800000
    } else if b < 4 {
        128 * 0x800000 + ((b - 2) as u32) * 0x400000
    } else if b < 8 {
        129 * 0x800000 + ((b - 4) as u32) * 0x200000
    } else if b < 16 {
        130 * 0x800000 + ((b - 8) as u32) * 0x100000
    } else if b < 32 {
        131 * 0x800000 + ((b - 16) as u32) * 0x80000
    } else if b < 64 {
        132 * 0x800000 + ((b - 32) as u32) * 0x40000
    } else if b < 128 {
        133 * 0x800000 + ((b - 64) as u32) * 0x20000
    } else {
        134 * 0x800000 + ((b - 128) as u32) * 0x10000
    }
}

/// The version-gated difficulty statistic starting at `pos`: the raw bit
/// pattern of a 32-bit float when `wide`, else a single byte converted to
/// the bit pattern of the float with the same value.
pub open spec fn sd_difficulty_value(s: Seq<u8>, pos: int, wide: bool) -> Result<(u32, int), Error> {
    if wide {
        sd_u32(s, pos)
    } else {
        match sd_u8(s, pos) {
            Ok(o) => Ok((f32_bits_of_byte(o.0), o.1)),
            Err(e) => Err(e),
        }
    }
}

/// Reads one version-gated difficulty statistic as 32-bit float bits.
pub fn difficulty_value(input: &[u8], pos: usize, wide: bool) -> (r: Result<(u32, usize), Error>)
    ensures
        match sd_difficulty_value(input@, pos as int, wide) {
            Ok(o) => r matches Ok(v) && v.0 == o.0 && v.1 as int == o.1,
            Err(e) => r matches Err(e2) && e2 == e,
        },
        r matches Ok(v) ==> pos <= v.1 && v.1 <= input@.len(),
{
    if wide {
        read_u32(input, pos)
    } else {
        match read_u8(input, pos) {
            Ok((b, p)) => Ok((byte_to_f32_bits(b), p)),
            Err(e) => Err(e),
        }
    }
}

/// Represents a beatmap entry found in `osu.db`.
///
/// Fields documented as bit patterns hold the IEEE 754 encoding of the
/// float the client stored.
#[derive(Clone, Debug)]
pub struct BeatmapEntry {
    /// Size in bytes of the beatmap entry. Only present if version is less
    /// than 20191106.
    pub size: Option<u32>,
    /// Artist name
    pub artist_name: OsuString,
    /// Artist name, in Unicode
    pub artist_name_unicode: OsuString,
    /// Song title
    pub song_title: OsuString,
    /// Song title, in Unicode
    pub song_title_unicode: OsuString,
    /// Creator name
    pub creator_name: OsuString,
    /// Difficulty (e.g. Hard, Insane, etc.)
    pub difficulty: OsuString,
    /// Audio file name
    pub audio_filename: OsuString,
    /// MD5 hash of the beatmap
    pub md5: OsuString,
    /// Name of the .osu file corresponding to this beatmap
    pub beatmap_filename: OsuString,
    /// Ranked status
    pub ranked_status: RankedStatus,
    /// Number of hitcircles
    pub hitcircle_count: u16,
    /// Number of sliders
    pub slider_count: u16,
    /// Number of spinners
    pub spinner_count: u16,
    /// Last modification time
    pub last_modification_time: WindowsDateTime,
    /// Approach rate (32-bit float bit pattern)
    pub approach_rate: u32,
    /// Circle size (32-bit float bit pattern)
    pub circle_size: u32,
    /// HP drain (32-bit float bit pattern)
    pub hp_drain: u32,
    /// Overall difficulty (32-bit float bit pattern)
    pub overall_difficulty: u32,
    /// Slider velocity (64-bit float bit pattern)
    pub slider_velocity: u64,
    /// Star rating info for osu! standard
    pub star_ratings_std: Vec<StarRating>,
    /// Star rating info for Taiko
    pub star_ratings_taiko: Vec<StarRating>,
    /// Star rating info for CTB
    pub star_ratings_ctb: Vec<StarRating>,
    /// Star rating info for osu!mania
    pub star_ratings_mania: Vec<StarRating>,
    /// Drain time, in seconds
    pub drain_time: u32,
    /// Total time, in milliseconds
    pub total_time: u32,
    /// Time when the audio preview starts, in milliseconds
    pub audio_preview_time: u32,
    /// Timing points, in chronological order
    pub timing_points: Vec<TimingPoint>,
    /// Difficulty ID
    pub difficulty_id: u32,
    /// Beatmap ID
    pub beatmap_id: u32,
    /// Thread ID
    pub thread_id: u32,
    /// Grade achieved in osu! standard
    pub grade_std: u8,
    /// Grade achieved in taiko
    pub grade_taiko: u8,
    /// Grade achieved in CTB
    pub grade_catch: u8,
    /// Grade achieved in osu!mania
    pub grade_mania: u8,
    /// Local beatmap offset
    pub local_offset: u16,
    /// Stack leniency (32-bit float bit pattern)
    pub stack_leniency: u32,
    /// osu! gameplay mode
    pub gameplay_mode: GameplayMode,
    /// Song source
    pub song_source: OsuString,
    /// Song tags
    pub song_tags: OsuString,
    /// Online offset
    pub online_offset: u16,
    /// Font used for the title of the song
    pub font: OsuString,
    /// Is beatmap unplayed
    pub is_unplayed: bool,
    /// Last time when beatmap was played
    pub last_played: WindowsDateTime,
    /// Is the beatmap osz2
    pub is_osz2: bool,
    /// Folder name of the beatmap, relative to the songs folder
    pub folder_name: OsuString,
    /// Last time when beatmap was checked against the online repository
    pub last_checked_online: WindowsDateTime,
    /// Ignore beatmap sound
    pub ignore_beatmap_hitsounds: bool,
    /// Ignore beatmap skin
    pub ignore_beatmap_skin: bool,
    /// Disable storyboard
    pub disable_storyboard: bool,
    /// Disable video
    pub disable_video: bool,
    /// Mania scroll speed
    pub mania_scroll_speed: u8,
}

/// Mathematical value of a [`BeatmapEntry`].
pub struct BeatmapEntryView {
    pub size: Option<u32>,
    pub artist_name: Option<Seq<char>>,
    pub artist_name_unicode: Option<Seq<char>>,
    pub song_title: Option<Seq<char>>,
    pub song_title_unicode: Option<Seq<char>>,
    pub creator_name: Option<Seq<char>>,
    pub difficulty: Option<Seq<char>>,
    pub audio_filename: Option<Seq<char>>,
    pub md5: Option<Seq<char>>,
    pub beatmap_filename: Option<Seq<char>>,
    pub ranked_status: RankedStatus,
    pub hitcircle_count: u16,
    pub slider_count: u16,
    pub spinner_count: u16,
    pub last_modification_time: WindowsDateTime,
    pub approach_rate: u32,
    pub circle_size: u32,
    pub hp_drain: u32,
    pub overall_difficulty: u32,
    pub slider_velocity: u64,
    pub star_ratings_std: Seq<StarRating>,
    pub star_ratings_taiko: Seq<StarRating>,
    pub star_ratings_ctb: Seq<StarRating>,
    pub star_ratings_mania: Seq<StarRating>,
    pub drain_time: u32,
    pub total_time: u32,
    pub audio_preview_time: u32,
    pub timing_points: Seq<TimingPoint>,
    pub difficulty_id: u32,
    pub beatmap_id: u32,
    pub thread_id: u32,
    pub grade_std: u8,
    pub grade_taiko: u8,
    pub grade_catch: u8,
    pub grade_mania: u8,
    pub local_offset: u16,
    pub stack_leniency: u32,
    pub gameplay_mode: GameplayMode,
    pub song_source: Option<Seq<char>>,
    pub song_tags: Option<Seq<char>>,
    pub online_offset: u16,
    pub font: Option<Seq<char>>,
    pub is_unplayed: bool,
    pub last_played: WindowsDateTime,
    pub is_osz2: bool,
    pub folder_name: Option<Seq<char>>,
    pub last_checked_online: WindowsDateTime,
    pub ignore_beatmap_hitsounds: bool,
    pub ignore_beatmap_skin: bool,
    pub disable_storyboard: bool,
    pub disable_video: bool,
    pub mania_scroll_speed: u8,
}

impl View for BeatmapEntry {
    type V = BeatmapEntryView;

    open spec fn view(&self) -> BeatmapEntryView {
        BeatmapEntryView {
            size: self.size,
            artist_name: self.artist_name.deep_view(),
            artist_name_unicode: self.artist_name_unicode.deep_view(),
            song_title: self.song_title.deep_view(),
            song_title_unicode: self.song_title_unicode.deep_view(),
            creator_name: self.creator_name.deep_view(),
            difficulty: self.difficulty.deep_view(),
            audio_filename: self.audio_filename.deep_view(),
            md5: self.md5.deep_view(),
            beatmap_filename: self.beatmap_filename.deep_view(),
            ranked_status: self.ranked_status,
            hitcircle_count: self.hitcircle_count,
            slider_count: self.slider_count,
            spinner_count: self.spinner_count,
            last_modification_time: self.last_modification_time,
            approach_rate: self.approach_rate,
            circle_size: self.circle_size,
            hp_drain: self.hp_drain,
            overall_difficulty: self.overall_difficulty,
            slider_velocity: self.slider_velocity,
            star_ratings_std: self.star_ratings_std.deep_view(),
            star_ratings_taiko: self.star_ratings_taiko.deep_view(),
            star_ratings_ctb: self.star_ratings_ctb.deep_view(),
            star_ratings_mania: self.star_ratings_mania.deep_view(),
            drain_time: self.drain_time,
            total_time: self.total_time,
            audio_preview_time: self.audio_preview_time,
            timing_points: self.timing_points.deep_view(),
            difficulty_id: self.difficulty_id,
            beatmap_id: self.beatmap_id,
            thread_id: self.thread_id,
            grade_std: self.grade_std,
            grade_taiko: self.grade_taiko,
            grade_catch: self.grade_catch,
            grade_mania: self.grade_mania,
            local_offset: self.local_offset,
            stack_leniency: self.stack_leniency,
            gameplay_mode: self.gameplay_mode,
            song_source: self.song_source.deep_view(),
            song_tags: self.song_tags.deep_view(),
            online_offset: self.online_offset,
            font: self.font.deep_view(),
            is_unplayed: self.is_unplayed,
            last_played: self.last_played,
            is_osz2: self.is_osz2,
            folder_name: self.folder_name.deep_view(),
            last_checked_online: self.last_checked_online,
            ignore_beatmap_hitsounds: self.ignore_beatmap_hitsounds,
            ignore_beatmap_skin: self.ignore_beatmap_skin,
            disable_storyboard: self.disable_storyboard,
            disable_video: self.disable_video,
            mania_scroll_speed: self.mania_scroll_speed,
        }
    }
}

impl DeepView for BeatmapEntry {
    type V = BeatmapEntryView;

    open spec fn deep_view(&self) -> BeatmapEntryView {
        self.view()
    }
}

/// The optional per-entry size prefix: present only before version
/// 20191106.
pub open spec fn sd_entry_size(s: Seq<u8>, pos: int, version: u32) -> Result<
    (Option<u32>, int),
    Error,
> {
    if version < VERSION_SIZE_REMOVED {
        match sd_u32(s, pos) {
            Ok(o) => Ok((Some(o.0), o.1)),
            Err(e) => Err(e),
        }
    } else {
        Ok((None, pos))
    }
}

/// The first five metadata strings of an entry: artist, artist in Unicode,
/// title, title in Unicode, creator.
pub open spec fn sd_entry_meta1(s: Seq<u8>, pos: int) -> Result<
    (
        (
            Option<Seq<char>>,
            Option<Seq<char>>,
            Option<Seq<char>>,
            Option<Seq<char>>,
            Option<Seq<char>>,
        ),
        int,
    ),
    Error,
> {
    match sd_osu_string(s, pos) {
        Ok(o1) => match sd_osu_string(s, o1.1) {
            Ok(o2) => match sd_osu_string(s, o2.1) {
                Ok(o3) => match sd_osu_string(s, o3.1) {
                    Ok(o4) => match sd_osu_string(s, o4.1) {
                        Ok(o5) => Ok(((o1.0, o2.0, o3.0, o4.0, o5.0), o5.1)),
                        Err(e) => Err(e),
                    },
                    Err(e) => Err(e),
                },
                Err(e) => Err(e),
            },
            Err(e) => Err(e),
        },
        Err(e) => Err(e),
    }
}

/// The remaining four metadata strings of an entry: difficulty name, audio
/// filename, content hash, beatmap filename.
pub open spec fn sd_entry_meta2(s: Seq<u8>, pos: int) -> Result<
    ((Option<Seq<char>>, Option<Seq<char>>, Option<Seq<char>>, Option<Seq<char>>), int),
    Error,
> {
    match sd_osu_string(s, pos) {
        Ok(o1) => match sd_osu_string(s, o1.1) {
            Ok(o2) => match sd_osu_string(s, o2.1) {
                Ok(o3) => match sd_osu_string(s, o3.1) {
                    Ok(o4) => Ok(((o1.0, o2.0, o3.0, o4.0), o4.1)),
                    Err(e) => Err(e),
                },
                Err(e) => Err(e),
            },
            Err(e) => Err(e),
        },
        Err(e) => Err(e),
    }
}

/// Ranked status, the three object counts and the last modification time.
pub open spec fn sd_entry_counts(s: Seq<u8>, pos: int) -> Result<
    ((RankedStatus, u16, u16, u16, WindowsDateTime), int),
    Error,
> {
    match sd_ranked_status(s, pos) {
        Ok(o1) => match sd_u16(s, o1.1) {
            Ok(o2) => match sd_u16(s, o2.1) {
                Ok(o3) => match sd_u16(s, o3.1) {
                    Ok(o4) => match sd_windows_datetime(s, o4.1) {
                        Ok(o5) => Ok(((o1.0, o2.0, o3.0, o4.0, o5.0), o5.1)),
                        Err(e) => Err(e),
                    },
                    Err(e) => Err(e),
                },
                Err(e) => Err(e),
            },
            Err(e) => Err(e),
        },
        Err(e) => Err(e),
    }
}

/// The four version-gated difficulty statistics and the slider velocity.
pub open spec fn sd_entry_difficulty(s: Seq<u8>, pos: int, wide: bool) -> Result<
    ((u32, u32, u32, u32, u64), int),
    Error,
> {
    match sd_difficulty_value(s, pos, wide) {
        Ok(o1) => match sd_difficulty_value(s, o1.1, wide) {
            Ok(o2) => match sd_difficulty_value(s, o2.1, wide) {
                Ok(o3) => match sd_difficulty_value(s, o3.1, wide) {
                    Ok(o4) => match sd_u64(s, o4.1) {
                        Ok(o5) => Ok(((o1.0, o2.0, o3.0, o4.0, o5.0), o5.1)),
                        Err(e) => Err(e),
                    },
                    Err(e) => Err(e),
                },
                Err(e) => Err(e),
            },
            Err(e) => Err(e),
        },
        Err(e) => Err(e),
    }
}

/// The four star-rating arrays, one per gameplay mode.
pub open spec fn sd_entry_ratings(s: Seq<u8>, pos: int) -> Result<
    ((Seq<StarRating>, Seq<StarRating>, Seq<StarRating>, Seq<StarRating>), int),
    Error,
> {
    match sd_star_ratings(s, pos) {
        Ok(o1) => match sd_star_ratings(s, o1.1) {
            Ok(o2) => match sd_star_ratings(s, o2.1) {
                Ok(o3) => match sd_star_ratings(s, o3.1) {
                    Ok(o4) => Ok(((o1.0, o2.0, o3.0, o4.0), o4.1)),
                    Err(e) => Err(e),
                },
                Err(e) => Err(e),
            },
            Err(e) => Err(e),
        },
        Err(e) => Err(e),
    }
}

/// Drain, total and preview times, the timing points and the three IDs.
pub open spec fn sd_entry_times(s: Seq<u8>, pos: int) -> Result<
    ((u32, u32, u32, Seq<TimingPoint>, u32, u32, u32), int),
    Error,
> {
    match sd_u32(s, pos) {
        Ok(o1) => match sd_u32(s, o1.1) {
            Ok(o2) => match sd_u32(s, o2.1) {
                Ok(o3) => match sd_timing_point_array(s, o3.1) {
                    Ok(o4) => match sd_u32(s, o4.1) {
                        Ok(o5) => match sd_u32(s, o5.1) {
                            Ok(o6) => match sd_u32(s, o6.1) {
                                Ok(o7) => Ok(
                                    ((o1.0, o2.0, o3.0, o4.0, o5.0, o6.0, o7.0), o7.1),
                                ),
                                Err(e) => Err(e),
                            },
                            Err(e) => Err(e),
                        },
                        Err(e) => Err(e),
                    },
                    Err(e) => Err(e),
                },
                Err(e) => Err(e),
            },
            Err(e) => Err(e),
        },
        Err(e) => Err(e),
    }
}

/// The four per-mode grade bytes, the local offset, the stack leniency bits
/// and the gameplay mode.
pub open spec fn sd_entry_grades(s: Seq<u8>, pos: int) -> Result<
    ((u8, u8, u8, u8, u16, u32, GameplayMode), int),
    Error,
> {
    match sd_u8(s, pos) {
        Ok(o1) => match sd_u8(s, o1.1) {
            Ok(o2) => match sd_u8(s, o2.1) {
                Ok(o3) => match sd_u8(s, o3.1) {
                    Ok(o4) => match sd_u16(s, o4.1) {
                        Ok(o5) => match sd_u32(s, o5.1) {
                            Ok(o6) => match sd_gameplay_mode(s, o6.1) {
                                Ok(o7) => Ok(
                                    ((o1.0, o2.0, o3.0, o4.0, o5.0, o6.0, o7.0), o7.1),
                                ),
                                Err(e) => Err(e),
                            },
                            Err(e) => Err(e),
                        },
                        Err(e) => Err(e),
                    },
                    Err(e) => Err(e),
                },
                Err(e) => Err(e),
            },
            Err(e) => Err(e),
        },
        Err(e) => Err(e),
    }
}

/// Song source and tags, the online offset, the font and the unplayed
/// marker with the last-played time.
pub open spec fn sd_entry_tail1(s: Seq<u8>, pos: int) -> Result<
    (
        (
            Option<Seq<char>>,
            Option<Seq<char>>,
            u16,
            Option<Seq<char>>,
            bool,
            WindowsDateTime,
        ),
        int,
    ),
    Error,
> {
    match sd_osu_string(s, pos) {
        Ok(o1) => match sd_osu_string(s, o1.1) {
            Ok(o2) => match sd_u16(s, o2.1) {
                Ok(o3) => match sd_osu_string(s, o3.1) {
                    Ok(o4) => match sd_boolean(s, o4.1) {
                        Ok(o5) => match sd_windows_datetime(s, o5.1) {
                            Ok(o6) => Ok(((o1.0, o2.0, o3.0, o4.0, o5.0, o6.0), o6.1)),
                            Err(e) => Err(e),
                        },
                        Err(e) => Err(e),
                    },
                    Err(e) => Err(e),
                },
                Err(e) => Err(e),
            },
            Err(e) => Err(e),
        },
        Err(e) => Err(e),
    }
}

/// The osz2 marker, the folder name, the online-check time and the four
/// option booleans.
pub open spec fn sd_entry_tail2(s: Seq<u8>, pos: int) -> Result<
    ((bool, Option<Seq<char>>, WindowsDateTime, bool, bool, bool, bool), int),
    Error,
> {
    match sd_boolean(s, pos) {
        Ok(o1) => match sd_osu_string(s, o1.1) {
            Ok(o2) => match sd_windows_datetime(s, o2.1) {
                Ok(o3) => match sd_boolean(s, o3.1) {
                    Ok(o4) => match sd_boolean(s, o4.1) {
                        Ok(o5) => match sd_boolean(s, o5.1) {
                            Ok(o6) => match sd_boolean(s, o6.1) {
                                Ok(o7) => Ok(
                                    ((o1.0, o2.0, o3.0, o4.0, o5.0, o6.0, o7.0), o7.1),
                                ),
                                Err(e) => Err(e),
                            },
                            Err(e) => Err(e),
                        },
                        Err(e) => Err(e),
                    },
                    Err(e) => Err(e),
                },
                Err(e) => Err(e),
            },
            Err(e) => Err(e),
        },
        Err(e) => Err(e),
    }
}

/// The two legacy filler fields (a float before version 20140609, then an
/// always-present integer), consumed only for cursor alignment, and the
/// mania scroll speed.
pub open spec fn sd_entry_tail3(s: Seq<u8>, pos: int, narrow: bool) -> Result<(u8, int), Error> {
    let after_filler = if narrow {
        sd_u32(s, pos)
    } else {
        Ok((0u32, pos))
    };
    match after_filler {
        Ok(of) => match sd_u32(s, of.1) {
            Ok(o1) => match sd_u8(s, o1.1) {
                Ok(o2) => Ok((o2.0, o2.1)),
                Err(e) => Err(e),
            },
            Err(e) => Err(e),
        },
        Err(e) => Err(e),
    }
}

/// The whole beatmap entry starting at `pos`, decoded under the listing's
/// declared `version`, which gates the size prefix, the width of the four
/// difficulty statistics and the legacy float filler.
pub open spec fn sd_beatmap_entry(s: Seq<u8>, pos: int, version: u32) -> Result<
    (BeatmapEntryView, int),
    Error,
> {
    let wide = version >= VERSION_FLOAT_DIFFICULTY;
    match sd_entry_size(s, pos, version) {
        Ok(o0) => match sd_entry_meta1(s, o0.1) {
            Ok(o1) => match sd_entry_meta2(s, o1.1) {
                Ok(o2) => match sd_entry_counts(s, o2.1) {
                    Ok(o3) => match sd_entry_difficulty(s, o3.1, wide) {
                        Ok(o4) => match sd_entry_ratings(s, o4.1) {
                            Ok(o5) => match sd_entry_times(s, o5.1) {
                                Ok(o6) => match sd_entry_grades(s, o6.1) {
                                    Ok(o7) => match sd_entry_tail1(s, o7.1) {
                                        Ok(o8) => match sd_entry_tail2(s, o8.1) {
                                            Ok(o9) => match sd_entry_tail3(s, o9.1, !wide) {
                                                Ok(o10) => Ok(
                                                    (
                                                        BeatmapEntryView {
                                                            size: o0.0,
                                                            artist_name: o1.0.0,
                                                            artist_name_unicode: o1.0.1,
                                                            song_title: o1.0.2,
                                                            song_title_unicode: o1.0.3,
                                                            creator_name: o1.0.4,
                                                            difficulty: o2.0.0,
                                                            audio_filename: o2.0.1,
                                                            md5: o2.0.2,
                                                            beatmap_filename: o2.0.3,
                                                            ranked_status: o3.0.0,
                                                            hitcircle_count: o3.0.1,
                                                            slider_count: o3.0.2,
                                                            spinner_count: o3.0.3,
                                                            last_modification_time: o3.0.4,
                                                            approach_rate: o4.0.0,
                                                            circle_size: o4.0.1,
                                                            hp_drain: o4.0.2,
                                                            overall_difficulty: o4.0.3,
                                                            slider_velocity: o4.0.4,
                                                            star_ratings_std: o5.0.0,
                                                            star_ratings_taiko: o5.0.1,
                                                            star_ratings_ctb: o5.0.2,
                                                            star_ratings_mania: o5.0.3,
                                                            drain_time: o6.0.0,
                                                            total_time: o6.0.1,
                                                            audio_preview_time: o6.0.2,
                                                            timing_points: o6.0.3,
                                                            difficulty_id: o6.0.4,
                                                            beatmap_id: o6.0.5,
                                                            thread_id: o6.0.6,
                                                            grade_std: o7.0.0,
                                                            grade_taiko: o7.0.1,
                                                            grade_catch: o7.0.2,
                                                            grade_mania: o7.0.3,
                                                            local_offset: o7.0.4,
                                                            stack_leniency: o7.0.5,
                                                            gameplay_mode: o7.0.6,
                                                            song_source: o8.0.0,
                                                            song_tags: o8.0.1,
                                                            online_offset: o8.0.2,
                                                            font: o8.0.3,
                                                            is_unplayed: o8.0.4,
                                                            last_played: o8.0.5,
                                                            is_osz2: o9.0.0,
                                                            folder_name: o9.0.1,
                                                            last_checked_online: o9.0.2,
                                                            ignore_beatmap_hitsounds: o9.0.3,
                                                            ignore_beatmap_skin: o9.0.4,
                                                            disable_storyboard: o9.0.5,
                                                            disable_video: o9.0.6,
                                                            mania_scroll_speed: o10.0,
                                                        },
                                                        o10.1,
                                                    ),
                                                ),
                                                Err(e) => Err(e),
                                            },
                                            Err(e) => Err(e),
                                        },
                                        Err(e) => Err(e),
                                    },
                                    Err(e) => Err(e),
                                },
                                Err(e) => Err(e),
                            },
                            Err(e) => Err(e),
                        },
                        Err(e) => Err(e),
                    },
                    Err(e) => Err(e),
                },
                Err(e) => Err(e),
            },
            Err(e) => Err(e),
        },
        Err(e) => Err(e),
    }
}

/// Reads the five leading metadata strings of an entry.
fn entry_meta1(input: &[u8], pos: usize) -> (r: Result<
    ((OsuString, OsuString, OsuString, OsuString, OsuString), usize),
    Error,
>)
    ensures
        match sd_entry_meta1(input@, pos as int) {
            Ok(o) => r matches Ok(v) && v.0.0.deep_view() == o.0.0 && v.0.1.deep_view() == o.0.1
                && v.0.2.deep_view() == o.0.2 && v.0.3.deep_view() == o.0.3 && v.0.4.deep_view()
                == o.0.4 && v.1 as int == o.1,
            Err(e) => r matches Err(e2) && e2 == e,
        },
        r matches Ok(v) ==> pos <= v.1 && v.1 <= input@.len(),
{
    let (s1, p1) = match osu_string(input, pos) {
        Ok(x) => x,
        Err(e) => { return Err(e) },
    };
    let (s2, p2) = match osu_string(input, p1) {
        Ok(x) => x,
        Err(e) => { return Err(e) },
    };
    let (s3, p3) = match osu_string(input, p2) {
        Ok(x) => x,
        Err(e) => { return Err(e) },
    };
    let (s4, p4) = match osu_string(input, p3) {
        Ok(x) => x,
        Err(e) => { return Err(e) },
    };
    let (s5, p5) = match osu_string(input, p4) {
        Ok(x) => x,
        Err(e) => { return Err(e) },
    };
    Ok(((s1, s2, s3, s4, s5), p5))
}

/// Reads the four remaining metadata strings of an entry.
fn entry_meta2(input: &[u8], pos: usize) -> (r: Result<
    ((OsuString, OsuString, OsuString, OsuString), usize),
    Error,
>)
    ensures
        match sd_entry_meta2(input@, pos as int) {
            Ok(o) => r matches Ok(v) && v.0.0.deep_view() == o.0.0 && v.0.1.deep_view() == o.0.1
                && v.0.2.deep_view() == o.0.2 && v.0.3.deep_view() == o.0.3 && v.1 as int == o.1,
            Err(e) => r matches Err(e2) && e2 == e,
        },
        r matches Ok(v) ==> pos <= v.1 && v.1 <= input@.len(),
{
    let (s1, p1) = match osu_string(input, pos) {
        Ok(x) => x,
        Err(e) => { return Err(e) },
    };
    let (s2, p2) = match osu_string(input, p1) {
        Ok(x) => x,
        Err(e) => { return Err(e) },
    };
    let (s3, p3) = match osu_string(input, p2) {
        Ok(x) => x,
        Err(e) => { return Err(e) },
    };
    let (s4, p4) = match osu_string(input, p3) {
        Ok(x) => x,
        Err(e) => { return Err(e) },
    };
    Ok(((s1, s2, s3, s4), p4))
}

/// Reads the ranked status, object counts and modification time.
fn entry_counts(input: &[u8], pos: usize) -> (r: Result<
    ((RankedStatus, u16, u16, u16, WindowsDateTime), usize),
    Error,
>)
    ensures
        match sd_entry_counts(input@, pos as int) {
            Ok(o) => r matches Ok(v) && v.0 == o.0 && v.1 as int == o.1,
            Err(e) => r matches Err(e2) && e2 == e,
        },
        r matches Ok(v) ==> pos <= v.1 && v.1 <= input@.len(),
{
    let (status, p1) = match ranked_status(input, pos) {
        Ok(x) => x,
        Err(e) => { return Err(e) },
    };
    let (hitcircles, p2) = match read_u16(input, p1) {
        Ok(x) => x,
        Err(e) => { return Err(e) },
    };
    let (sliders, p3) = match read_u16(input, p2) {
        Ok(x) => x,
        Err(e) => { return Err(e) },
    };
    let (spinners, p4) = match read_u16(input, p3) {
        Ok(x) => x,
        Err(e) => { return Err(e) },
    };
    let (modified, p5) = match windows_datetime(input, p4) {
        Ok(x) => x,
        Err(e) => { return Err(e) },
    };
    Ok(((status, hitcircles, sliders, spinners, modified), p5))
}

/// Reads the four difficulty statistics and the slider velocity.
fn entry_difficulty(input: &[u8], pos: usize, wide: bool) -> (r: Result<
    ((u32, u32, u32, u32, u64), usize),
    Error,
>)
    ensures
        match sd_entry_difficulty(input@, pos as int, wide) {
            Ok(o) => r matches Ok(v) && v.0 == o.0 && v.1 as int == o.1,
            Err(e) => r matches Err(e2) && e2 == e,
        },
        r matches Ok(v) ==> pos <= v.1 && v.1 <= input@.len(),
{
    let (ar, p1) = match difficulty_value(input, pos, wide) {
        Ok(x) => x,
        Err(e) => { return Err(e) },
    };
    let (cs, p2) = match difficulty_value(input, p1, wide) {
        Ok(x) => x,
        Err(e) => { return Err(e) },
    };
    let (hp, p3) = match difficulty_value(input, p2, wide) {
        Ok(x) => x,
        Err(e) => { return Err(e) },
    };
    let (od, p4) = match difficulty_value(input, p3, wide) {
        Ok(x) => x,
        Err(e) => { return Err(e) },
    };
    let (sv, p5) = match read_u64(input, p4) {
        Ok(x) => x,
        Err(e) => { return Err(e) },
    };
    Ok(((ar, cs, hp, od, sv), p5))
}

/// Reads the four per-mode star-rating arrays.
fn entry_ratings(input: &[u8], pos: usize) -> (r: Result<
    ((Vec<StarRating>, Vec<StarRating>, Vec<StarRating>, Vec<StarRating>), usize),
    Error,
>)
    ensures
        match sd_entry_ratings(input@, pos as int) {
            Ok(o) => r matches Ok(v) && v.0.0.deep_view() == o.0.0 && v.0.1.deep_view() == o.0.1
                && v.0.2.deep_view() == o.0.2 && v.0.3.deep_view() == o.0.3 && v.1 as int == o.1,
            Err(e) => r matches Err(e2) && e2 == e,
        },
        r matches Ok(v) ==> pos <= v.1 && v.1 <= input@.len(),
{
    let (std_ratings, p1) = match star_ratings(input, pos) {
        Ok(x) => x,
        Err(e) => { return Err(e) },
    };
    let (taiko_ratings, p2) = match star_ratings(input, p1) {
        Ok(x) => x,
        Err(e) => { return Err(e) },
    };
    let (ctb_ratings, p3) = match star_ratings(input, p2) {
        Ok(x) => x,
        Err(e) => { return Err(e) },
    };
    let (mania_ratings, p4) = match star_ratings(input, p3) {
        Ok(x) => x,
        Err(e) => { return Err(e) },
    };
    Ok(((std_ratings, taiko_ratings, ctb_ratings, mania_ratings), p4))
}

/// Reads the three play times, the timing points and the three IDs.
fn entry_times(input: &[u8], pos: usize) -> (r: Result<
    ((u32, u32, u32, Vec<TimingPoint>, u32, u32, u32), usize),
    Error,
>)
    ensures
        match sd_entry_times(input@, pos as int) {
            Ok(o) => r matches Ok(v) && v.0.0 == o.0.0 && v.0.1 == o.0.1 && v.0.2 == o.0.2
                && v.0.3.deep_view() == o.0.3 && v.0.4 == o.0.4 && v.0.5 == o.0.5 && v.0.6
                == o.0.6 && v.1 as int == o.1,
            Err(e) => r matches Err(e2) && e2 == e,
        },
        r matches Ok(v) ==> pos <= v.1 && v.1 <= input@.len(),
{
    let (drain_time, p1) = match read_u32(input, pos) {
        Ok(x) => x,
        Err(e) => { return Err(e) },
    };
    let (total_time, p2) = match read_u32(input, p1) {
        Ok(x) => x,
        Err(e) => { return Err(e) },
    };
    let (preview_time, p3) = match read_u32(input, p2) {
        Ok(x) => x,
        Err(e) => { return Err(e) },
    };
    let (timing_points, p4) = match timing_point_array(input, p3) {
        Ok(x) => x,
        Err(e) => { return Err(e) },
    };
    let (difficulty_id, p5) = match read_u32(input, p4) {
        Ok(x) => x,
        Err(e) => { return Err(e) },
    };
    let (beatmap_id, p6) = match read_u32(input, p5) {
        Ok(x) => x,
        Err(e) => { return Err(e) },
    };
    let (thread_id, p7) = match read_u32(input, p6) {
        Ok(x) => x,
        Err(e) => { return Err(e) },
    };
    Ok(((drain_time, total_time, preview_time, timing_points, difficulty_id, beatmap_id, thread_id), p7))
}

/// Reads the grade bytes, local offset, stack leniency bits and mode.
fn entry_grades(input: &[u8], pos: usize) -> (r: Result<
    ((u8, u8, u8, u8, u16, u32, GameplayMode), usize),
    Error,
>)
    ensures
        match sd_entry_grades(input@, pos as int) {
            Ok(o) => r matches Ok(v) && v.0 == o.0 && v.1 as int == o.1,
            Err(e) => r matches Err(e2) && e2 == e,
        },
        r matches Ok(v) ==> pos <= v.1 && v.1 <= input@.len(),
{
    let (grade_std, p1) = match read_u8(input, pos) {
        Ok(x) => x,
        Err(e) => { return Err(e) },
    };
    let (grade_taiko, p2) = match read_u8(input, p1) {
        Ok(x) => x,
        Err(e) => { return Err(e) },
    };
    let (grade_catch, p3) = match read_u8(input, p2) {
        Ok(x) => x,
        Err(e) => { return Err(e) },
    };
    let (grade_mania, p4) = match read_u8(input, p3) {
        Ok(x) => x,
        Err(e) => { return Err(e) },
    };
    let (local_offset, p5) = match read_u16(input, p4) {
        Ok(x) => x,
        Err(e) => { return Err(e) },
    };
    let (stack_leniency, p6) = match read_u32(input, p5) {
        Ok(x) => x,
        Err(e) => { return Err(e) },
    };
    let (mode, p7) = match gameplay_mode(input, p6) {
        Ok(x) => x,
        Err(e) => { return Err(e) },
    };
    Ok(((grade_std, grade_taiko, grade_catch, grade_mania, local_offset, stack_leniency, mode), p7))
}

/// Reads the source and tag strings, offsets, font and played state.
fn entry_tail1(input: &[u8], pos: usize) -> (r: Result<
    ((OsuString, OsuString, u16, OsuString, bool, WindowsDateTime), usize),
    Error,
>)
    ensures
        match sd_entry_tail1(input@, pos as int) {
            Ok(o) => r matches Ok(v) && v.0.0.deep_view() == o.0.0 && v.0.1.deep_view() == o.0.1
                && v.0.2 == o.0.2 && v.0.3.deep_view() == o.0.3 && v.0.4 == o.0.4 && v.0.5
                == o.0.5 && v.1 as int == o.1,
            Err(e) => r matches Err(e2) && e2 == e,
        },
        r matches Ok(v) ==> pos <= v.1 && v.1 <= input@.len(),
{
    let (song_source, p1) = match osu_string(input, pos) {
        Ok(x) => x,
        Err(e) => { return Err(e) },
    };
    let (song_tags, p2) = match osu_string(input, p1) {
        Ok(x) => x,
        Err(e) => { return Err(e) },
    };
    let (online_offset, p3) = match read_u16(input, p2) {
        Ok(x) => x,
        Err(e) => { return Err(e) },
    };
    let (font, p4) = match osu_string(input, p3) {
        Ok(x) => x,
        Err(e) => { return Err(e) },
    };
    let (is_unplayed, p5) = match boolean(input, p4) {
        Ok(x) => x,
        Err(e) => { return Err(e) },
    };
    let (last_played, p6) = match windows_datetime(input, p5) {
        Ok(x) => x,
        Err(e) => { return Err(e) },
    };
    Ok(((song_source, song_tags, online_offset, font, is_unplayed, last_played), p6))
}

/// Reads the osz2 marker, folder name, online-check time and option flags.
fn entry_tail2(input: &[u8], pos: usize) -> (r: Result<
    ((bool, OsuString, WindowsDateTime, bool, bool, bool, bool), usize),
    Error,
>)
    ensures
        match sd_entry_tail2(input@, pos as int) {
            Ok(o) => r matches Ok(v) && v.0.0 == o.0.0 && v.0.1.deep_view() == o.0.1 && v.0.2
                == o.0.2 && v.0.3 == o.0.3 && v.0.4 == o.0.4 && v.0.5 == o.0.5 && v.0.6 == o.0.6
                && v.1 as int == o.1,
            Err(e) => r matches Err(e2) && e2 == e,
        },
        r matches Ok(v) ==> pos <= v.1 && v.1 <= input@.len(),
{
    let (is_osz2, p1) = match boolean(input, pos) {
        Ok(x) => x,
        Err(e) => { return Err(e) },
    };
    let (folder_name, p2) = match osu_string(input, p1) {
        Ok(x) => x,
        Err(e) => { return Err(e) },
    };
    let (last_checked_online, p3) = match windows_datetime(input, p2) {
        Ok(x) => x,
        Err(e) => { return Err(e) },
    };
    let (ignore_hitsounds, p4) = match boolean(input, p3) {
        Ok(x) => x,
        Err(e) => { return Err(e) },
    };
    let (ignore_skin, p5) = match boolean(input, p4) {
        Ok(x) => x,
        Err(e) => { return Err(e) },
    };
    let (disable_storyboard, p6) = match boolean(input, p5) {
        Ok(x) => x,
        Err(e) => { return Err(e) },
    };
    let (disable_video, p7) = match boolean(input, p6) {
        Ok(x) => x,
        Err(e) => { return Err(e) },
    };
    Ok(
        (
            (is_osz2, folder_name, last_checked_online, ignore_hitsounds, ignore_skin, disable_storyboard, disable_video),
            p7,
        ),
    )
}

/// Consumes the legacy filler fields and reads the mania scroll speed.
fn entry_tail3(input: &[u8], pos: usize, narrow: bool) -> (r: Result<(u8, usize), Error>)
    ensures
        match sd_entry_tail3(input@, pos as int, narrow) {
            Ok(o) => r matches Ok(v) && v.0 == o.0 && v.1 as int == o.1,
            Err(e) => r matches Err(e2) && e2 == e,
        },
        r matches Ok(v) ==> pos <= v.1 && v.1 <= input@.len(),
{
    let p0 = if narrow {
        match read_u32(input, pos) {
            Ok((_, p)) => p,
            Err(e) => { return Err(e) },
        }
    } else {
        pos
    };
    let (_, p1) = match read_u32(input, p0) {
        Ok(x) => x,
        Err(e) => { return Err(e) },
    };
    let (mania_scroll_speed, p2) = match read_u8(input, p1) {
        Ok(x) => x,
        Err(e) => { return Err(e) },
    };
    Ok((mania_scroll_speed, p2))
}

/// Parses a beatmap entry in an `osu.db` file, under the listing's declared
/// version.
pub fn beatmap_entry(input: &[u8], pos: usize, version: u32) -> (r: Result<
    (BeatmapEntry, usize),
    Error,
>)
    ensures
        match sd_beatmap_entry(input@, pos as int, version) {
            Ok(o) => r matches Ok(v) && v.0@ == o.0 && v.1 as int == o.1,
            Err(e) => r matches Err(e2) && e2 == e,
        },
        r matches Ok(v) ==> pos <= v.1 && v.1 <= input@.len(),
{
    let wide = version >= VERSION_FLOAT_DIFFICULTY;
    let (size, p0) = if version < VERSION_SIZE_REMOVED {
        match read_u32(input, pos) {
            Ok((v, p)) => (Some(v), p),
            Err(e) => { return Err(e) },
        }
    } else {
        (None, pos)
    };
    let ((artist_name, artist_name_unicode, song_title, song_title_unicode, creator_name), p1) =
        match entry_meta1(input, p0) {
        Ok(x) => x,
        Err(e) => { return Err(e) },
    };
    let ((difficulty, audio_filename, md5, beatmap_filename), p2) = match entry_meta2(input, p1) {
        Ok(x) => x,
        Err(e) => { return Err(e) },
    };
    let ((ranked_status, hitcircle_count, slider_count, spinner_count, last_modification_time), p3) =
        match entry_counts(input, p2) {
        Ok(x) => x,
        Err(e) => { return Err(e) },
    };
    let ((approach_rate, circle_size, hp_drain, overall_difficulty, slider_velocity), p4) =
        match entry_difficulty(input, p3, wide) {
        Ok(x) => x,
        Err(e) => { return Err(e) },
    };
    let ((star_ratings_std, star_ratings_taiko, star_ratings_ctb, star_ratings_mania), p5) =
        match entry_ratings(input, p4) {
        Ok(x) => x,
        Err(e) => { return Err(e) },
    };
    let ((drain_time, total_time, audio_preview_time, timing_points, difficulty_id, beatmap_id, thread_id), p6) =
        match entry_times(input, p5) {
        Ok(x) => x,
        Err(e) => { return Err(e) },
    };
    let ((grade_std, grade_taiko, grade_catch, grade_mania, local_offset, stack_leniency, gameplay_mode), p7) =
        match entry_grades(input, p6) {
        Ok(x) => x,
        Err(e) => { return Err(e) },
    };
    let ((song_source, song_tags, online_offset, font, is_unplayed, last_played), p8) =
        match entry_tail1(input, p7) {
        Ok(x) => x,
        Err(e) => { return Err(e) },
    };
    let ((is_osz2, folder_name, last_checked_online, ignore_beatmap_hitsounds, ignore_beatmap_skin, disable_storyboard, disable_video), p9) =
        match entry_tail2(input, p8) {
        Ok(x) => x,
        Err(e) => { return Err(e) },
    };
    let (mania_scroll_speed, p10) = match entry_tail3(input, p9, !wide) {
        Ok(x) => x,
        Err(e) => { return Err(e) },
    };
    let entry = BeatmapEntry {
        size,
        artist_name,
        artist_name_unicode,
        song_title,
        song_title_unicode,
        creator_name,
        difficulty,
        audio_filename,
        md5,
        beatmap_filename,
        ranked_status,
        hitcircle_count,
        slider_count,
        spinner_count,
        last_modification_time,
        approach_rate,
        circle_size,
        hp_drain,
        overall_difficulty,
        slider_velocity,
        star_ratings_std,
        star_ratings_taiko,
        star_ratings_ctb,
        star_ratings_mania,
        drain_time,
        total_time,
        audio_preview_time,
        timing_points,
        difficulty_id,
        beatmap_id,
        thread_id,
        grade_std,
        grade_taiko,
        grade_catch,
        grade_mania,
        local_offset,
        stack_leniency,
        gameplay_mode,
        song_source,
        song_tags,
        online_offset,
        font,
        is_unplayed,
        last_played,
        is_osz2,
        folder_name,
        last_checked_online,
        ignore_beatmap_hitsounds,
        ignore_beatmap_skin,
        disable_storyboard,
        disable_video,
        mania_scroll_speed,
    };
    Ok((entry, p10))
}

/// `n` consecutive beatmap entries starting at `pos`, under the listing's
/// declared version.
pub open spec fn sd_beatmap_entry_list(s: Seq<u8>, pos: int, n: int, version: u32) -> Result<
    (Seq<BeatmapEntryView>, int),
    Error,
>
    decreases n,
{
    if n <= 0 {
        Ok((Seq::empty(), pos))
    } else {
        match sd_beatmap_entry(s, pos, version) {
            Ok(o) => match sd_beatmap_entry_list(s, o.1, n - 1, version) {
                Ok(o2) => Ok((seq![o.0] + o2.0, o2.1)),
                Err(e) => Err(e),
            },
            Err(e) => Err(e),
        }
    }
}

/// Reads `n` consecutive beatmap entries.
#[verifier::rlimit(100)]
#[verifier::spinoff_prover]
fn beatmap_entry_list(input: &[u8], pos: usize, n: u32, version: u32) -> (r: Result<
    (Vec<BeatmapEntry>, usize),
    Error,
>)
    requires
        pos <= input@.len(),
    ensures
        match sd_beatmap_entry_list(input@, pos as int, n as int, version) {
            Ok(o) => r matches Ok(v) && v.0.deep_view() == o.0 && v.1 as int == o.1,
            Err(e) => r matches Err(e2) && e2 == e,
        },
        r matches Ok(v) ==> pos <= v.1 && v.1 <= input@.len(),
{
    let mut out: Vec<BeatmapEntry> = Vec::new();
    let mut p: usize = pos;
    let mut i: u32 = 0;
    while i < n
        invariant
            i <= n,
            pos <= p <= input@.len(),
            match sd_beatmap_entry_list(input@, p as int, (n - i) as int, version) {
                Ok(rest) => sd_beatmap_entry_list(input@, pos as int, n as int, version) == Ok::<
                    (Seq<BeatmapEntryView>, int),
                    Error,
                >((out.deep_view() + rest.0, rest.1)),
                Err(e) => sd_beatmap_entry_list(input@, pos as int, n as int, version) == Err::<
                    (Seq<BeatmapEntryView>, int),
                    Error,
                >(e),
            },
        decreases n - i,
    {
        let ghost out_before = out.deep_view();
        match beatmap_entry(input, p, version) {
            Ok((v, p2)) => {
                out.push(v);
                proof {
                    assert(out.deep_view() =~= out_before + seq![v.deep_view()]);
                    match sd_beatmap_entry_list(input@, p2 as int, (n - i - 1) as int, version) {
                        Ok(rest2) => {
                            assert(out_before + (seq![v.deep_view()] + rest2.0) =~= out.deep_view()
                                + rest2.0);
                        },
                        Err(_) => {},
                    }
                }
                p = p2;
                i = i + 1;
            },
            Err(e) => {
                return Err(e);
            },
        }
    }
    proof {
        assert(out.deep_view() + Seq::<BeatmapEntryView>::empty() =~= out.deep_view());
    }
    Ok((out, p))
}

/// Represents the `osu.db` file.
#[derive(Clone, Debug)]
pub struct BeatmapListing {
    /// osu! version (e.g. 20150203)
    pub version: u32,
    /// Folder count
    pub folder_count: u32,
    /// AccountUnlocked (only false when the account is locked or banned in
    /// any way)
    pub account_unlocked: bool,
    /// Date the account will be unlocked
    pub account_unlock_date: WindowsDateTime,
    /// Player name
    pub player_name: OsuString,
    /// Beatmaps
    pub beatmaps: Vec<BeatmapEntry>,
    /// User permissions
    pub user_permissions: u32,
}

/// Mathematical value of a [`BeatmapListing`].
pub struct BeatmapListingView {
    pub version: u32,
    pub folder_count: u32,
    pub account_unlocked: bool,
    pub account_unlock_date: WindowsDateTime,
    pub player_name: Option<Seq<char>>,
    pub beatmaps: Seq<BeatmapEntryView>,
    pub user_permissions: u32,
}

impl View for BeatmapListing {
    type V = BeatmapListingView;

    open spec fn view(&self) -> BeatmapListingView {
        BeatmapListingView {
            version: self.version,
            folder_count: self.folder_count,
            account_unlocked: self.account_unlocked,
            account_unlock_date: self.account_unlock_date,
            player_name: self.player_name.deep_view(),
            beatmaps: self.beatmaps.deep_view(),
            user_permissions: self.user_permissions,
        }
    }
}

/// The whole `osu.db` layout starting at `pos`: the header, the
/// count-prefixed entry array (each entry decoded under the header's
/// version) and the trailing user permissions.
pub open spec fn sd_beatmap_listing(s: Seq<u8>, pos: int) -> Result<(BeatmapListingView, int), Error> {
    match sd_u32(s, pos) {
        Ok(o1) => match sd_u32(s, o1.1) {
            Ok(o2) => match sd_boolean(s, o2.1) {
                Ok(o3) => match sd_windows_datetime(s, o3.1) {
                    Ok(o4) => match sd_osu_string(s, o4.1) {
                        Ok(o5) => match sd_u32(s, o5.1) {
                            Ok(o6) => match sd_beatmap_entry_list(s, o6.1, o6.0 as int, o1.0) {
                                Ok(o7) => match sd_u32(s, o7.1) {
                                    Ok(o8) => Ok(
                                        (
                                            BeatmapListingView {
                                                version: o1.0,
                                                folder_count: o2.0,
                                                account_unlocked: o3.0,
                                                account_unlock_date: o4.0,
                                                player_name: o5.0,
                                                beatmaps: o7.0,
                                                user_permissions: o8.0,
                                            },
                                            o8.1,
                                        ),
                                    ),
                                    Err(e) => Err(e),
                                },
                                Err(e) => Err(e),
                            },
                            Err(e) => Err(e),
                        },
                        Err(e) => Err(e),
                    },
                    Err(e) => Err(e),
                },
                Err(e) => Err(e),
            },
            Err(e) => Err(e),
        },
        Err(e) => Err(e),
    }
}

/// Parses an `osu.db` file.
pub fn beatmap_listing(input: &[u8], pos: usize) -> (r: Result<(BeatmapListing, usize), Error>)
    ensures
        match sd_beatmap_listing(input@, pos as int) {
            Ok(o) => r matches Ok(v) && v.0@ == o.0 && v.1 as int == o.1,
            Err(e) => r matches Err(e2) && e2 == e,
        },
        r matches Ok(v) ==> pos <= v.1 && v.1 <= input@.len(),
{
    let (version, p1) = match read_u32(input, pos) {
        Ok(x) => x,
        Err(e) => { return Err(e) },
    };
    let (folder_count, p2) = match read_u32(input, p1) {
        Ok(x) => x,
        Err(e) => { return Err(e) },
    };
    let (account_unlocked, p3) = match boolean(input, p2) {
        Ok(x) => x,
        Err(e) => { return Err(e) },
    };
    let (account_unlock_date, p4) = match windows_datetime(input, p3) {
        Ok(x) => x,
        Err(e) => { return Err(e) },
    };
    let (player_name, p5) = match osu_string(input, p4) {
        Ok(x) => x,
        Err(e) => { return Err(e) },
    };
    let (count, p6) = match read_u32(input, p5) {
        Ok(x) => x,
        Err(e) => { return Err(e) },
    };
    let (beatmaps, p7) = match beatmap_entry_list(input, p6, count, version) {
        Ok(x) => x,
        Err(e) => { return Err(e) },
    };
    let (user_permissions, p8) = match read_u32(input, p7) {
        Ok(x) => x,
        Err(e) => { return Err(e) },
    };
    let listing = BeatmapListing {
        version,
        folder_count,
        account_unlocked,
        account_unlock_date,
        player_name,
        beatmaps,
        user_permissions,
    };
    Ok((listing, p8))
}

impl BeatmapListing {
    /// Parses the contents of an `osu.db` file. The declared entry count
    /// and the entries actually present must agree exactly: insufficient
    /// bytes fail with an end-of-input error and leftover bytes after the
    /// trailing permissions field fail with a trailing-bytes error.
    pub fn from_bytes(data: &[u8]) -> (r: Result<BeatmapListing, Error>)
        ensures
            match sd_beatmap_listing(data@, 0) {
                Ok(o) => if o.1 == data@.len() {
                    r matches Ok(v) && v@ == o.0
                } else {
                    r matches Err(e2) && e2 == (Error::TrailingBytes { offset: o.1 as usize })
                },
                Err(e) => r matches Err(e2) && e2 == e,
            },
    {
        match beatmap_listing(data, 0) {
            Ok((listing, end)) => {
                if end == data.len() {
                    Ok(listing)
                } else {
                    Err(Error::TrailingBytes { offset: end })
                }
            },
            Err(e) => Err(e),
        }
    }
}

} // verus!
