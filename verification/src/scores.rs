//! Models for the `scores.db` database file, which contains information on
//! locally achieved scores, together with the accuracy and grade arithmetic
//! over decoded records.
//!
//! The score data is identical to the replay format but carries no
//! input-related data, so the same record decoder serves `scores.db` arrays
//! and standalone `.osr` replays.
//!
//! The lifebar graph is carried inside a string field as repeated
//! `time|health,` pairs; the health value keeps its original textual form
//! (as bytes), so re-serializing a graph reproduces the exact text it was
//! parsed from. Accuracy is computed as an exact rational (numerator and
//! denominator of the percentage), and grades are decided by exact integer
//! comparisons against the mode-specific thresholds.

use vstd::prelude::*;

use crate::common::{
    boolean, gameplay_mode, has_silver_mod, modifiers, osu_string, sd_boolean, sd_gameplay_mode,
    sd_modifiers, sd_osu_string, sd_uleb128, sd_windows_datetime, uleb128, utf8_check,
    windows_datetime, GameplayMode, Mods, OsuString, WindowsDateTime, MOD_SCORE_V2,
    MOD_TARGET_PRACTICE,
};
use crate::error::Error;
use crate::reader::{read_u16, read_u32, read_u64, read_u8, sd_bytes, sd_u16, sd_u32, sd_u64, sd_u8, take_bytes};

verus! {

/// Letter rank summarizing play performance, from best to worst. The
/// silver variants replace SS and S when a silver modifier (Hidden,
/// Flashlight or FadeIn) is active.
#[derive(Clone, Copy, Debug, PartialEq, Eq, Structural)]
pub enum Grade {
    SS,
    SilverSS,
    S,
    SilverS,
    A,
    B,
    C,
    D,
}

/// One sample of the lifebar trace: a time in milliseconds and the health
/// value exactly as its text appeared in the file (e.g. `b"1"` or
/// `b"0.85"`), so that re-serializing preserves the original numeric text.
#[derive(Clone, Debug, PartialEq, Eq)]
pub struct LifebarPoint {
    /// Sample time in milliseconds.
    pub time: u32,
    /// The textual health value, kept byte for byte.
    pub health: Vec<u8>,
}

/// Mathematical value of a [`LifebarPoint`].
pub struct LifebarPointView {
    pub time: u32,
    pub health: Seq<u8>,
}

impl View for LifebarPoint {
    type V = LifebarPointView;

    open spec fn view(&self) -> LifebarPointView {
        LifebarPointView { time: self.time, health: self.health@ }
    }
}

impl DeepView for LifebarPoint {
    type V = LifebarPointView;

    open spec fn deep_view(&self) -> LifebarPointView {
        self.view()
    }
}

/// Represents the lifebar graph in a `.osr` replay file: time-ordered
/// health samples.
#[derive(Clone, Debug, PartialEq, Eq)]
pub struct LifebarGraph {
    pub points: Vec<LifebarPoint>,
}

impl View for LifebarGraph {
    type V = Seq<LifebarPointView>;

    open spec fn view(&self) -> Seq<LifebarPointView> {
        self.points.deep_view()
    }
}

impl DeepView for LifebarGraph {
    type V = Seq<LifebarPointView>;

    open spec fn deep_view(&self) -> Seq<LifebarPointView> {
        self.view()
    }
}

/// True for an ASCII decimal digit byte.
pub open spec fn is_digit_byte(b: u8) -> bool {
    0x30 <= b <= 0x39
}

/// The end of the run of decimal digit bytes starting at `i`.
pub open spec fn digit_run_end(s: Seq<u8>, i: int) -> int
    decreases s.len() - i,
{
    if 0 <= i < s.len() && is_digit_byte(s[i]) {
        digit_run_end(s, i + 1)
    } else {
        i
    }
}

/// Every byte of a digit run is a digit, and the run never leaves the
/// sequence.
pub proof fn lemma_digit_run(s: Seq<u8>, i: int)
    requires
        0 <= i <= s.len(),
    ensures
        i <= digit_run_end(s, i) <= s.len(),
        forall|k: int| i <= k < digit_run_end(s, i) ==> is_digit_byte(s[k]),
    decreases s.len() - i,
{
    if 0 <= i < s.len() && is_digit_byte(s[i]) {
        lemma_digit_run(s, i + 1);
    }
}

/// The numeric value of the digit bytes in `s[i..j]`.
pub open spec fn digits_value(s: Seq<u8>, i: int, j: int) -> nat
    decreases j - i,
{
    if i >= j {
        0
    } else {
        digits_value(s, i, j - 1) * 10 + (s[j - 1] - 0x30) as nat
    }
}

/// The end of the longest floating-point text starting at `i`, if any:
/// an optional sign, then either digits with an optional fraction or a
/// fraction alone, then an optional exponent (which needs at least one
/// digit to count).
pub open spec fn float_text_end(s: Seq<u8>, i: int) -> Option<int> {
    let j0 = if 0 <= i < s.len() && (s[i] == 0x2bu8 || s[i] == 0x2du8) {
        i + 1
    } else {
        i
    };
    let mantissa_end = if 0 <= j0 < s.len() && is_digit_byte(s[j0]) {
        let j1 = digit_run_end(s, j0);
        if j1 < s.len() && s[j1] == 0x2eu8 {
            Some(digit_run_end(s, j1 + 1))
        } else {
            Some(j1)
        }
    } else if 0 <= j0 && j0 + 1 < s.len() && s[j0] == 0x2eu8 && is_digit_byte(s[j0 + 1]) {
        Some(digit_run_end(s, j0 + 1))
    } else {
        None
    };
    match mantissa_end {
        None => None,
        Some(j2) => {
            if j2 < s.len() && (s[j2] == 0x65u8 || s[j2] == 0x45u8) {
                let k = if j2 + 1 < s.len() && (s[j2 + 1] == 0x2bu8 || s[j2 + 1] == 0x2du8) {
                    j2 + 2
                } else {
                    j2 + 1
                };
                if k < s.len() && is_digit_byte(s[k]) {
                    Some(digit_run_end(s, k))
                } else {
                    Some(j2)
                }
            } else {
                Some(j2)
            }
        },
    }
}

/// The lifebar pair starting at `i`, if the text there is a digit run that
/// fits a `u32`, a `|`, a floating-point text and a trailing comma: the
/// parsed point and the position after the comma.
pub open spec fn lifebar_pair_end(s: Seq<u8>, i: int) -> Option<(LifebarPointView, int)> {
    let j1 = digit_run_end(s, i);
    if j1 == i || digits_value(s, i, j1) > u32::MAX {
        None
    } else if j1 < s.len() && s[j1] == 0x7cu8 {
        match float_text_end(s, j1 + 1) {
            None => None,
            Some(j2) => {
                if j2 < s.len() && s[j2] == 0x2cu8 {
                    Some(
                        (
                            LifebarPointView {
                                time: digits_value(s, i, j1) as u32,
                                health: s.subrange(j1 + 1, j2),
                            },
                            j2 + 1,
                        ),
                    )
                } else {
                    None
                }
            },
        }
    } else {
        None
    }
}

/// The greedy sequence of lifebar pairs starting at `i`: pairs are taken
/// as long as they parse, and any remaining text is ignored.
pub open spec fn spec_lifebar_points(s: Seq<u8>, i: int) -> Seq<LifebarPointView>
    decreases s.len() - i,
{
    match lifebar_pair_end(s, i) {
        Some(o) => {
            if i < o.1 <= s.len() {
                seq![o.0] + spec_lifebar_points(s, o.1)
            } else {
                Seq::empty()
            }
        },
        None => Seq::empty(),
    }
}

/// Reads the end of the digit run starting at `i`.
fn digit_run_end_exec(s: &[u8], i: usize) -> (r: usize)
    requires
        i <= s@.len(),
    ensures
        r as int == digit_run_end(s@, i as int),
        i <= r <= s@.len(),
{
    let mut j: usize = i;
    while j < s.len()
        invariant_except_break
            i <= j <= s@.len(),
            digit_run_end(s@, i as int) == digit_run_end(s@, j as int),
        ensures
            i <= j <= s@.len(),
            j as int == digit_run_end(s@, i as int),
        decreases s@.len() - j,
    {
        let b = *vstd::slice::slice_index_get(s, j);
        if !(0x30 <= b && b <= 0x39) {
            break ;
        }
        j = j + 1;
    }
    j
}

/// Reads the value of the digit run `s[i..j]`, or `None` when it exceeds
/// the `u32` range.
#[verifier::loop_isolation(false)]
fn digits_value_exec(s: &[u8], i: usize, j: usize) -> (r: Option<u32>)
    requires
        i <= j <= s@.len(),
        forall|k: int| i <= k < j ==> is_digit_byte(s@[k]),
    ensures
        digits_value(s@, i as int, j as int) <= u32::MAX ==> (r matches Some(v) && v
            == digits_value(s@, i as int, j as int)),
        digits_value(s@, i as int, j as int) > u32::MAX ==> r is None,
{
    let mut val: u64 = 0;
    let mut k: usize = i;
    while k < j
        invariant
            i <= k <= j <= s@.len(),
            digits_value(s@, i as int, k as int) <= u32::MAX ==> val == digits_value(
                s@,
                i as int,
                k as int,
            ),
            digits_value(s@, i as int, k as int) > u32::MAX <==> val == 0x1_0000_0000u64,
            val <= 0x1_0000_0000u64,
        decreases j - k,
    {
        let b = *vstd::slice::slice_index_get(s, k);
        let d: u64 = (b - 0x30) as u64;
        let next = val * 10 + d;
        if next > 0xffff_ffff {
            val = 0x1_0000_0000;
        } else {
            val = next;
        }
        k = k + 1;
        proof {
            let dv = digits_value(s@, i as int, k as int);
            let dv_prev = digits_value(s@, i as int, k - 1);
            assert(dv == dv_prev * 10 + (s@[k - 1] - 0x30) as nat);
        }
    }
    if val <= 0xffff_ffff {
        Some(val as u32)
    } else {
        None
    }
}

/// Reads the end of the longest floating-point text starting at `i`.
fn float_text_end_exec(s: &[u8], i: usize) -> (r: Option<usize>)
    requires
        i <= s@.len(),
    ensures
        match float_text_end(s@, i as int) {
            Some(o) => r matches Some(v) && v as int == o && i <= v <= s@.len(),
            None => r is None,
        },
{
    let j0: usize = if i < s.len() && {
        let b = *vstd::slice::slice_index_get(s, i);
        b == 0x2b || b == 0x2d
    } {
        i + 1
    } else {
        i
    };
    let mantissa_end: Option<usize> = if j0 < s.len() && {
        let b = *vstd::slice::slice_index_get(s, j0);
        0x30 <= b && b <= 0x39
    } {
        let j1 = digit_run_end_exec(s, j0);
        if j1 < s.len() && *vstd::slice::slice_index_get(s, j1) == 0x2e {
            Some(digit_run_end_exec(s, j1 + 1))
        } else {
            Some(j1)
        }
    } else if j0 < s.len() && j0 + 1 < s.len() && *vstd::slice::slice_index_get(s, j0) == 0x2e && {
        let b = *vstd::slice::slice_index_get(s, j0 + 1);
        0x30 <= b && b <= 0x39
    } {
        Some(digit_run_end_exec(s, j0 + 1))
    } else {
        None
    };
    match mantissa_end {
        None => None,
        Some(j2) => {
            if j2 < s.len() && {
                let b = *vstd::slice::slice_index_get(s, j2);
                b == 0x65 || b == 0x45
            } {
                let k: usize = if j2 + 1 < s.len() && {
                    let b = *vstd::slice::slice_index_get(s, j2 + 1);
                    b == 0x2b || b == 0x2d
                } {
                    j2 + 2
                } else {
                    j2 + 1
                };
                if k < s.len() && {
                    let b = *vstd::slice::slice_index_get(s, k);
                    0x30 <= b && b <= 0x39
                } {
                    Some(digit_run_end_exec(s, k))
                } else {
                    Some(j2)
                }
            } else {
                Some(j2)
            }
        },
    }
}

/// Reads the lifebar pair starting at `i`, if one parses there.
fn lifebar_pair_exec(s: &[u8], i: usize) -> (r: Option<(LifebarPoint, usize)>)
    requires
        i <= s@.len(),
    ensures
        match lifebar_pair_end(s@, i as int) {
            Some(o) => r matches Some(v) && v.0.deep_view() == o.0 && v.1 as int == o.1 && i < v.1
                <= s@.len(),
            None => r is None,
        },
{
    let j1 = digit_run_end_exec(s, i);
    if j1 == i {
        return None;
    }
    proof {
        lemma_digit_run(s@, i as int);
    }
    let time = match digits_value_exec(s, i, j1) {
        Some(v) => v,
        None => { return None },
    };
    if !(j1 < s.len() && *vstd::slice::slice_index_get(s, j1) == 0x7c) {
        return None;
    }
    let j2 = match float_text_end_exec(s, j1 + 1) {
        Some(v) => v,
        None => { return None },
    };
    if !(j2 < s.len() && *vstd::slice::slice_index_get(s, j2) == 0x2c) {
        return None;
    }
    let (health, _) = match take_bytes(s, j1 + 1, j2 - (j1 + 1)) {
        Ok(x) => x,
        Err(_) => { return None },
    };
    Some((LifebarPoint { time, health }, j2 + 1))
}

/// Parses the `time|health,` points within a lifebar graph text, greedily;
/// any trailing text that does not form a pair is ignored.
pub fn lifebar_graph_points(s: &[u8]) -> (r: Vec<LifebarPoint>)
    ensures
        r.deep_view() == spec_lifebar_points(s@, 0),
{
    let mut out: Vec<LifebarPoint> = Vec::new();
    let mut i: usize = 0;
    loop
        invariant
            i <= s@.len(),
            spec_lifebar_points(s@, 0) == out.deep_view() + spec_lifebar_points(s@, i as int),
        ensures
            out.deep_view() == spec_lifebar_points(s@, 0),
        decreases s@.len() - i,
    {
        let ghost out_before = out.deep_view();
        match lifebar_pair_exec(s, i) {
            Some((pt, j)) => {
                out.push(pt);
                proof {
                    assert(out.deep_view() =~= out_before + seq![pt.deep_view()]);
                    assert(out_before + (seq![pt.deep_view()] + spec_lifebar_points(s@, j as int))
                        =~= out.deep_view() + spec_lifebar_points(s@, j as int));
                }
                i = j;
            },
            None => {
                proof {
                    assert(out.deep_view() + Seq::<LifebarPointView>::empty() =~= out.deep_view());
                }
                break ;
            },
        }
    }
    out
}

/// The decimal digit bytes of `n`, most significant first.
pub open spec fn dec_digits(n: u32) -> Seq<u8>
    decreases n,
{
    if n < 10 {
        seq![(0x30 + n) as u8]
    } else {
        dec_digits((n / 10) as u32) + seq![(0x30 + n % 10) as u8]
    }
}

/// Writes `n` in decimal.
pub fn write_dec_digits(n: u32) -> (r: Vec<u8>)
    ensures
        r@ == dec_digits(n),
    decreases n,
{
    if n < 10 {
        let mut out: Vec<u8> = Vec::new();
        out.push(0x30 + (n as u8));
        proof {
            assert(out@ =~= dec_digits(n));
        }
        out
    } else {
        let mut out = write_dec_digits(n / 10);
        out.push(0x30 + ((n % 10) as u8));
        proof {
            assert(out@ =~= dec_digits(n));
        }
        out
    }
}

/// The serialized text of a point sequence: each point as `time|health,`
/// in order, with the comma after every pair including the last.
pub open spec fn spec_lifebar_text(points: Seq<LifebarPointView>) -> Seq<u8>
    decreases points.len(),
{
    if points.len() == 0 {
        Seq::empty()
    } else {
        dec_digits(points[0].time) + seq![0x7cu8] + points[0].health + seq![0x2cu8]
            + spec_lifebar_text(points.drop_first())
    }
}

impl LifebarGraph {
    /// Serializes the graph back to its textual form: each point as
    /// `time|health,` in original order, the health text byte for byte as
    /// it was parsed.
    pub fn to_text(&self) -> (r: Vec<u8>)
        ensures
            r@ == spec_lifebar_text(self@),
    {
        let mut out: Vec<u8> = Vec::new();
        let mut i: usize = 0;
        proof {
            assert(self@.skip(0) =~= self@);
            assert(out@ + spec_lifebar_text(self@) =~= spec_lifebar_text(self@));
        }
        while i < self.points.len()
            invariant
                i <= self.points@.len(),
                spec_lifebar_text(self@) == out@ + spec_lifebar_text(self@.skip(i as int)),
            decreases self.points@.len() - i,
        {
            let ghost out_before = out@;
            let ghost rest = self@.skip(i as int);
            let p = &self.points[i];
            let mut digits = write_dec_digits(p.time);
            out.append(&mut digits);
            out.push(0x7c);
            let mut health = p.health.clone();
            out.append(&mut health);
            out.push(0x2c);
            proof {
                assert(rest[0] == self@[i as int]);
                assert(rest.drop_first() =~= self@.skip(i + 1));
                assert(spec_lifebar_text(rest) == dec_digits(rest[0].time) + seq![0x7cu8]
                    + rest[0].health + seq![0x2cu8] + spec_lifebar_text(rest.drop_first()));
                assert(out@ =~= out_before + (dec_digits(rest[0].time) + seq![0x7cu8]
                    + rest[0].health + seq![0x2cu8]));
                assert(out_before + spec_lifebar_text(rest) =~= out@ + spec_lifebar_text(
                    self@.skip(i + 1),
                ));
            }
            i = i + 1;
        }
        proof {
            assert(self@.skip(i as int) =~= Seq::<LifebarPointView>::empty());
            assert(out@ + spec_lifebar_text(Seq::empty()) =~= out@);
        }
        out
    }
}

/// The lifebar field starting at `pos`: an osu! string whose content, when
/// present, is parsed by the lifebar micro-format. Absent string means no
/// lifebar data; a present (even empty) string means a graph, possibly
/// with zero points.
pub open spec fn sd_lifebar(s: Seq<u8>, pos: int) -> Result<
    (Option<Seq<LifebarPointView>>, int),
    Error,
> {
    match sd_u8(s, pos) {
        Ok(o) => {
            let tag = o.0;
            let p = o.1;
            if tag == 0x00 {
                Ok((None, p))
            } else if tag == 0x0b {
                match sd_uleb128(s, p) {
                    Ok(o2) => {
                        let len = o2.0;
                        let p2 = o2.1;
                        if p2 + len <= s.len() {
                            let bytes = s.subrange(p2, p2 + len);
                            if vstd::utf8::valid_utf8(bytes) {
                                Ok((Some(spec_lifebar_points(bytes, 0)), p2 + len))
                            } else {
                                Err(Error::InvalidUtf8 { offset: p2 as usize })
                            }
                        } else {
                            Err(Error::UnexpectedEof { offset: p2 as usize })
                        }
                    },
                    Err(e) => Err(e),
                }
            } else {
                Err(Error::UnknownStringTag { offset: pos as usize, tag })
            }
        },
        Err(e) => Err(e),
    }
}

/// Parses the lifebar field: an osu! string holding `time|health,` pairs.
pub fn lifebar_graph(input: &[u8], pos: usize) -> (r: Result<(Option<LifebarGraph>, usize), Error>)
    ensures
        match sd_lifebar(input@, pos as int) {
            Ok(o) => r matches Ok(v) && v.0.deep_view() == o.0 && v.1 as int == o.1,
            Err(e) => r matches Err(e2) && e2 == e,
        },
        r matches Ok(v) ==> pos <= v.1 && v.1 <= input@.len(),
{
    let (tag, p) = match read_u8(input, pos) {
        Ok(x) => x,
        Err(e) => { return Err(e) },
    };
    if tag == 0x00 {
        Ok((None, p))
    } else if tag == 0x0b {
        let (len, p2) = match uleb128(input, p) {
            Ok(x) => x,
            Err(e) => { return Err(e) },
        };
        if len <= (input.len() - p2) as u64 {
            let n = len as usize;
            let (bytes, p3) = match take_bytes(input, p2, n) {
                Ok(x) => x,
                Err(e) => { return Err(e) },
            };
            if utf8_check(&bytes) {
                let points = lifebar_graph_points(bytes.as_slice());
                Ok((Some(LifebarGraph { points }), p3))
            } else {
                Err(Error::InvalidUtf8 { offset: p2 })
            }
        } else {
            Err(Error::UnexpectedEof { offset: p2 })
        }
    } else {
        Err(Error::UnknownStringTag { offset: pos, tag })
    }
}

/// Represents an individual replay for a score on a beatmap, either in the
/// `scores.db` file or a `.osr` replay.
///
/// The compressed replay data may be absent, e.g. when the record came
/// from `scores.db`.
#[derive(Clone, Debug)]
pub struct ScoreReplay {
    /// osu! gameplay mode
    pub gameplay_mode: GameplayMode,
    /// Version of this score/replay (e.g. 20150203)
    pub version: u32,
    /// Beatmap MD5 hash
    pub beatmap_md5: OsuString,
    /// Player name
    pub player_name: OsuString,
    /// Replay MD5 hash
    pub replay_md5: OsuString,
    /// Number of 300's
    pub hits_300: u16,
    /// Number of 100's in osu!, 150's in osu!taiko, 100's in osu!catch,
    /// 100's in osu!mania
    pub hits_100: u16,
    /// Number of 50's in osu!, small fruit in osu!catch, 50's in osu!mania
    pub hits_50: u16,
    /// Number of Gekis in osu!, Max 300's in osu!mania
    pub hits_geki: u16,
    /// Number of Katus in osu!, 200's in osu!mania
    pub hits_katu: u16,
    /// Number of misses
    pub misses: u16,
    /// Replay score
    pub score: u32,
    /// Max combo
    pub max_combo: u16,
    /// Perfect combo
    pub is_perfect_combo: bool,
    /// Mods used
    pub mods: Mods,
    /// Life bar graph. Only present when parsing a `.osr` replay file.
    pub lifebar_graph: Option<LifebarGraph>,
    /// Timestamp of replay
    pub timestamp: WindowsDateTime,
    /// LZMA compressed replay data, kept as an opaque blob. Only present
    /// when parsing a `.osr` replay file.
    pub replay_data: Option<Vec<u8>>,
    /// Online Score ID
    pub online_score_id: u64,
    /// Additional mod information (64-bit float bit pattern); present if
    /// and only if Target Practice is enabled. It is the total accuracy of
    /// all hits; divide by the number of targets in the map to find the
    /// accuracy displayed in-game.
    pub additional_mod_info: Option<u64>,
}

/// Mathematical value of a [`ScoreReplay`].
pub struct ScoreReplayView {
    pub gameplay_mode: GameplayMode,
    pub version: u32,
    pub beatmap_md5: Option<Seq<char>>,
    pub player_name: Option<Seq<char>>,
    pub replay_md5: Option<Seq<char>>,
    pub hits_300: u16,
    pub hits_100: u16,
    pub hits_50: u16,
    pub hits_geki: u16,
    pub hits_katu: u16,
    pub misses: u16,
    pub score: u32,
    pub max_combo: u16,
    pub is_perfect_combo: bool,
    pub mods: Mods,
    pub lifebar_graph: Option<Seq<LifebarPointView>>,
    pub timestamp: WindowsDateTime,
    pub replay_data: Option<Seq<u8>>,
    pub online_score_id: u64,
    pub additional_mod_info: Option<u64>,
}

impl View for ScoreReplay {
    type V = ScoreReplayView;

    open spec fn view(&self) -> ScoreReplayView {
        ScoreReplayView {
            gameplay_mode: self.gameplay_mode,
            version: self.version,
            beatmap_md5: self.beatmap_md5.deep_view(),
            player_name: self.player_name.deep_view(),
            replay_md5: self.replay_md5.deep_view(),
            hits_300: self.hits_300,
            hits_100: self.hits_100,
            hits_50: self.hits_50,
            hits_geki: self.hits_geki,
            hits_katu: self.hits_katu,
            misses: self.misses,
            score: self.score,
            max_combo: self.max_combo,
            is_perfect_combo: self.is_perfect_combo,
            mods: self.mods,
            lifebar_graph: self.lifebar_graph.deep_view(),
            timestamp: self.timestamp,
            replay_data: self.replay_data.deep_view(),
            online_score_id: self.online_score_id,
            additional_mod_info: self.additional_mod_info,
        }
    }
}

impl DeepView for ScoreReplay {
    type V = ScoreReplayView;

    open spec fn deep_view(&self) -> ScoreReplayView {
        self.view()
    }
}

/// The replay-action blob starting at `pos`: a `u32` length, then that
/// many raw bytes. The all-ones length is a sentinel meaning "no blob";
/// a zero length is a present-but-empty blob, distinct from the sentinel.
pub open spec fn sd_replay_blob(s: Seq<u8>, pos: int) -> Result<(Option<Seq<u8>>, int), Error> {
    match sd_u32(s, pos) {
        Ok(o) => {
            if o.0 == 0xffff_ffffu32 {
                Ok((None, o.1))
            } else {
                match sd_bytes(s, o.1, o.0 as int) {
                    Ok(o2) => Ok((Some(o2.0), o2.1)),
                    Err(e) => Err(e),
                }
            }
        },
        Err(e) => Err(e),
    }
}

/// A declared blob length equal to the all-ones sentinel yields no blob,
/// and a declared length of zero yields a present-but-empty blob; the two
/// stay distinguishable.
pub proof fn lemma_replay_blob_sentinel(s: Seq<u8>, pos: int)
    ensures
        (sd_replay_blob(s, pos) matches Ok(o) && o.0 is None) <==> (sd_u32(s, pos) matches Ok(l)
            && l.0 == 0xffff_ffffu32),
        (sd_replay_blob(s, pos) matches Ok(o) && o.0 == Some(Seq::<u8>::empty())) <==> (sd_u32(
            s,
            pos,
        ) matches Ok(l) && l.0 == 0),
{
    match sd_u32(s, pos) {
        Ok(l) => {
            if l.0 == 0 {
                assert(s.subrange(l.1, l.1 + 0) =~= Seq::<u8>::empty());
            } else if l.0 != 0xffff_ffffu32 {
                match sd_bytes(s, l.1, l.0 as int) {
                    Ok(o2) => {
                        assert(o2.0.len() == l.0 as int);
                    },
                    Err(_) => {},
                }
            }
        },
        Err(_) => {},
    }
}

/// Reads the replay-action blob.
fn replay_blob(input: &[u8], pos: usize) -> (r: Result<(Option<Vec<u8>>, usize), Error>)
    ensures
        match sd_replay_blob(input@, pos as int) {
            Ok(o) => r matches Ok(v) && v.0.deep_view() == o.0 && v.1 as int == o.1,
            Err(e) => r matches Err(e2) && e2 == e,
        },
        r matches Ok(v) ==> pos <= v.1 && v.1 <= input@.len(),
{
    let (len, p) = match read_u32(input, pos) {
        Ok(x) => x,
        Err(e) => { return Err(e) },
    };
    if len == 0xffff_ffff {
        Ok((None, p))
    } else {
        match take_bytes(input, p, len as usize) {
            Ok((bytes, p2)) => Ok((Some(bytes), p2)),
            Err(e) => Err(e),
        }
    }
}

/// The head of a score record: mode, record version and the three hashes
/// and names.
pub open spec fn sd_score_head(s: Seq<u8>, pos: int) -> Result<
    (
        (GameplayMode, u32, Option<Seq<char>>, Option<Seq<char>>, Option<Seq<char>>),
        int,
    ),
    Error,
> {
    match sd_gameplay_mode(s, pos) {
        Ok(o1) => match sd_u32(s, o1.1) {
            Ok(o2) => match sd_osu_string(s, o2.1) {
                Ok(o3) => match sd_osu_string(s, o3.1) {
                    Ok(o4) => match sd_osu_string(s, o4.1) {
                        Ok(o5) => Ok(((o1.0, o2.0, o3.0, o4.0, o5.0), o5.1)),
                        Err(e) => Err(e),
                    },
                    Err(e) => Err(e),
                },
                Err(e) => Err(e),
            },
            Err(e) => Err(e),
        },
        Err(e) => Err(e),
    }
}

/// The six judgement counters of a score record, in wire order.
pub open spec fn sd_score_counts(s: Seq<u8>, pos: int) -> Result<
    ((u16, u16, u16, u16, u16, u16), int),
    Error,
> {
    match sd_u16(s, pos) {
        Ok(o1) => match sd_u16(s, o1.1) {
            Ok(o2) => match sd_u16(s, o2.1) {
                Ok(o3) => match sd_u16(s, o3.1) {
                    Ok(o4) => match sd_u16(s, o4.1) {
                        Ok(o5) => match sd_u16(s, o5.1) {
                            Ok(o6) => Ok(((o1.0, o2.0, o3.0, o4.0, o5.0, o6.0), o6.1)),
                            Err(e) => Err(e),
                        },
                        Err(e) => Err(e),
                    },
                    Err(e) => Err(e),
                },
                Err(e) => Err(e),
            },
            Err(e) => Err(e),
        },
        Err(e) => Err(e),
    }
}

/// The score, combo, perfect-combo flag and modifier set of a record.
pub open spec fn sd_score_flags(s: Seq<u8>, pos: int) -> Result<
    ((u32, u16, bool, Mods), int),
    Error,
> {
    match sd_u32(s, pos) {
        Ok(o1) => match sd_u16(s, o1.1) {
            Ok(o2) => match sd_boolean(s, o2.1) {
                Ok(o3) => match sd_modifiers(s, o3.1) {
                    Ok(o4) => Ok(((o1.0, o2.0, o3.0, o4.0), o4.1)),
                    Err(e) => Err(e),
                },
                Err(e) => Err(e),
            },
            Err(e) => Err(e),
        },
        Err(e) => Err(e),
    }
}

/// The whole score record starting at `pos`. The trailing
/// accuracy-supplement field is present if and only if the TargetPractice
/// modifier bit is set in the record's modifier set.
pub open spec fn sd_score_replay(s: Seq<u8>, pos: int) -> Result<(ScoreReplayView, int), Error> {
    match sd_score_head(s, pos) {
        Ok(o1) => match sd_score_counts(s, o1.1) {
            Ok(o2) => match sd_score_flags(s, o2.1) {
                Ok(o3) => match sd_lifebar(s, o3.1) {
                    Ok(o4) => match sd_windows_datetime(s, o4.1) {
                        Ok(o5) => match sd_replay_blob(s, o5.1) {
                            Ok(o6) => match sd_u64(s, o6.1) {
                                Ok(o7) => {
                                    let mods = o3.0.3;
                                    let info = if mods.spec_contains(MOD_TARGET_PRACTICE) {
                                        match sd_u64(s, o7.1) {
                                            Ok(o8) => Ok((Some(o8.0), o8.1)),
                                            Err(e) => Err(e),
                                        }
                                    } else {
                                        Ok((None, o7.1))
                                    };
                                    match info {
                                        Ok(o9) => Ok(
                                            (
                                                ScoreReplayView {
                                                    gameplay_mode: o1.0.0,
                                                    version: o1.0.1,
                                                    beatmap_md5: o1.0.2,
                                                    player_name: o1.0.3,
                                                    replay_md5: o1.0.4,
                                                    hits_300: o2.0.0,
                                                    hits_100: o2.0.1,
                                                    hits_50: o2.0.2,
                                                    hits_geki: o2.0.3,
                                                    hits_katu: o2.0.4,
                                                    misses: o2.0.5,
                                                    score: o3.0.0,
                                                    max_combo: o3.0.1,
                                                    is_perfect_combo: o3.0.2,
                                                    mods: o3.0.3,
                                                    lifebar_graph: o4.0,
                                                    timestamp: o5.0,
                                                    replay_data: o6.0,
                                                    online_score_id: o7.0,
                                                    additional_mod_info: o9.0,
                                                },
                                                o9.1,
                                            ),
                                        ),
                                        Err(e) => Err(e),
                                    }
                                },
                                Err(e) => Err(e),
                            },
                            Err(e) => Err(e),
                        },
                        Err(e) => Err(e),
                    },
                    Err(e) => Err(e),
                },
                Err(e) => Err(e),
            },
            Err(e) => Err(e),
        },
        Err(e) => Err(e),
    }
}

/// Reads the head of a score record.
fn score_head(input: &[u8], pos: usize) -> (r: Result<
    ((GameplayMode, u32, OsuString, OsuString, OsuString), usize),
    Error,
>)
    ensures
        match sd_score_head(input@, pos as int) {
            Ok(o) => r matches Ok(v) && v.0.0 == o.0.0 && v.0.1 == o.0.1 && v.0.2.deep_view()
                == o.0.2 && v.0.3.deep_view() == o.0.3 && v.0.4.deep_view() == o.0.4 && v.1 as int
                == o.1,
            Err(e) => r matches Err(e2) && e2 == e,
        },
        r matches Ok(v) ==> pos <= v.1 && v.1 <= input@.len(),
{
    let (mode, p1) = match gameplay_mode(input, pos) {
        Ok(x) => x,
        Err(e) => { return Err(e) },
    };
    let (version, p2) = match read_u32(input, p1) {
        Ok(x) => x,
        Err(e) => { return Err(e) },
    };
    let (beatmap_md5, p3) = match osu_string(input, p2) {
        Ok(x) => x,
        Err(e) => { return Err(e) },
    };
    let (player_name, p4) = match osu_string(input, p3) {
        Ok(x) => x,
        Err(e) => { return Err(e) },
    };
    let (replay_md5, p5) = match osu_string(input, p4) {
        Ok(x) => x,
        Err(e) => { return Err(e) },
    };
    Ok(((mode, version, beatmap_md5, player_name, replay_md5), p5))
}

/// Reads the six judgement counters.
fn score_counts(input: &[u8], pos: usize) -> (r: Result<
    ((u16, u16, u16, u16, u16, u16), usize),
    Error,
>)
    ensures
        match sd_score_counts(input@, pos as int) {
            Ok(o) => r matches Ok(v) && v.0 == o.0 && v.1 as int == o.1,
            Err(e) => r matches Err(e2) && e2 == e,
        },
        r matches Ok(v) ==> pos <= v.1 && v.1 <= input@.len(),
{
    let (hits_300, p1) = match read_u16(input, pos) {
        Ok(x) => x,
        Err(e) => { return Err(e) },
    };
    let (hits_100, p2) = match read_u16(input, p1) {
        Ok(x) => x,
        Err(e) => { return Err(e) },
    };
    let (hits_50, p3) = match read_u16(input, p2) {
        Ok(x) => x,
        Err(e) => { return Err(e) },
    };
    let (hits_geki, p4) = match read_u16(input, p3) {
        Ok(x) => x,
        Err(e) => { return Err(e) },
    };
    let (hits_katu, p5) = match read_u16(input, p4) {
        Ok(x) => x,
        Err(e) => { return Err(e) },
    };
    let (misses, p6) = match read_u16(input, p5) {
        Ok(x) => x,
        Err(e) => { return Err(e) },
    };
    Ok(((hits_300, hits_100, hits_50, hits_geki, hits_katu, misses), p6))
}

/// Reads the score, combo, perfect flag and modifier set.
fn score_flags(input: &[u8], pos: usize) -> (r: Result<((u32, u16, bool, Mods), usize), Error>)
    ensures
        match sd_score_flags(input@, pos as int) {
            Ok(o) => r matches Ok(v) && v.0 == o.0 && v.1 as int == o.1,
            Err(e) => r matches Err(e2) && e2 == e,
        },
        r matches Ok(v) ==> pos <= v.1 && v.1 <= input@.len(),
{
    let (score, p1) = match read_u32(input, pos) {
        Ok(x) => x,
        Err(e) => { return Err(e) },
    };
    let (max_combo, p2) = match read_u16(input, p1) {
        Ok(x) => x,
        Err(e) => { return Err(e) },
    };
    let (is_perfect_combo, p3) = match boolean(input, p2) {
        Ok(x) => x,
        Err(e) => { return Err(e) },
    };
    let (mods, p4) = match modifiers(input, p3) {
        Ok(x) => x,
        Err(e) => { return Err(e) },
    };
    Ok(((score, max_combo, is_perfect_combo, mods), p4))
}

/// Parses a score in the `scores.db` file or a `.osr` replay file.
pub fn score_replay(input: &[u8], pos: usize) -> (r: Result<(ScoreReplay, usize), Error>)
    ensures
        match sd_score_replay(input@, pos as int) {
            Ok(o) => r matches Ok(v) && v.0@ == o.0 && v.1 as int == o.1,
            Err(e) => r matches Err(e2) && e2 == e,
        },
        r matches Ok(v) ==> pos <= v.1 && v.1 <= input@.len(),
        r matches Ok(v) ==> (v.0.mods.spec_contains(MOD_TARGET_PRACTICE)
            <==> v.0.additional_mod_info is Some),
{
    let ((gameplay_mode, version, beatmap_md5, player_name, replay_md5), p1) = match score_head(
        input,
        pos,
    ) {
        Ok(x) => x,
        Err(e) => { return Err(e) },
    };
    let ((hits_300, hits_100, hits_50, hits_geki, hits_katu, misses), p2) = match score_counts(
        input,
        p1,
    ) {
        Ok(x) => x,
        Err(e) => { return Err(e) },
    };
    let ((score, max_combo, is_perfect_combo, mods), p3) = match score_flags(input, p2) {
        Ok(x) => x,
        Err(e) => { return Err(e) },
    };
    let (lifebar, p4) = match lifebar_graph(input, p3) {
        Ok(x) => x,
        Err(e) => { return Err(e) },
    };
    let (timestamp, p5) = match windows_datetime(input, p4) {
        Ok(x) => x,
        Err(e) => { return Err(e) },
    };
    let (replay_data, p6) = match replay_blob(input, p5) {
        Ok(x) => x,
        Err(e) => { return Err(e) },
    };
    let (online_score_id, p7) = match read_u64(input, p6) {
        Ok(x) => x,
        Err(e) => { return Err(e) },
    };
    let (additional_mod_info, p8) = if mods.contains(MOD_TARGET_PRACTICE) {
        match read_u64(input, p7) {
            Ok((bits, p)) => (Some(bits), p),
            Err(e) => { return Err(e) },
        }
    } else {
        (None, p7)
    };
    let record = ScoreReplay {
        gameplay_mode,
        version,
        beatmap_md5,
        player_name,
        replay_md5,
        hits_300,
        hits_100,
        hits_50,
        hits_geki,
        hits_katu,
        misses,
        score,
        max_combo,
        is_perfect_combo,
        mods,
        lifebar_graph: lifebar,
        timestamp,
        replay_data,
        online_score_id,
        additional_mod_info,
    };
    Ok((record, p8))
}

/// Represents a list of scores for a beatmap in the `scores.db` file.
#[derive(Clone, Debug)]
pub struct BeatmapScores {
    /// Beatmap MD5 hash
    pub md5: OsuString,
    /// Scores achieved for this beatmap
    pub scores: Vec<ScoreReplay>,
}

/// Mathematical value of a [`BeatmapScores`].
pub struct BeatmapScoresView {
    pub md5: Option<Seq<char>>,
    pub scores: Seq<ScoreReplayView>,
}

impl View for BeatmapScores {
    type V = BeatmapScoresView;

    open spec fn view(&self) -> BeatmapScoresView {
        BeatmapScoresView { md5: self.md5.deep_view(), scores: self.scores.deep_view() }
    }
}

impl DeepView for BeatmapScores {
    type V = BeatmapScoresView;

    open spec fn deep_view(&self) -> BeatmapScoresView {
        self.view()
    }
}

/// Represents the `scores.db` file.
#[derive(Clone, Debug)]
pub struct ScoreListing {
    /// Version (e.g. 20150204)
    pub version: u32,
    /// List of scores achieved per beatmap
    pub beatmap_scores: Vec<BeatmapScores>,
}

/// Mathematical value of a [`ScoreListing`].
pub struct ScoreListingView {
    pub version: u32,
    pub beatmap_scores: Seq<BeatmapScoresView>,
}

impl View for ScoreListing {
    type V = ScoreListingView;

    open spec fn view(&self) -> ScoreListingView {
        ScoreListingView { version: self.version, beatmap_scores: self.beatmap_scores.deep_view() }
    }
}

/// `n` consecutive score records starting at `pos`.
pub open spec fn sd_score_replay_list(s: Seq<u8>, pos: int, n: int) -> Result<
    (Seq<ScoreReplayView>, int),
    Error,
>
    decreases n,
{
    if n <= 0 {
        Ok((Seq::empty(), pos))
    } else {
        match sd_score_replay(s, pos) {
            Ok(o) => match sd_score_replay_list(s, o.1, n - 1) {
                Ok(o2) => Ok((seq![o.0] + o2.0, o2.1)),
                Err(e) => Err(e),
            },
            Err(e) => Err(e),
        }
    }
}

/// Reads `n` consecutive score records.
#[verifier::rlimit(100)]
#[verifier::spinoff_prover]
fn score_replay_list(input: &[u8], pos: usize, n: u32) -> (r: Result<
    (Vec<ScoreReplay>, usize),
    Error,
>)
    requires
        pos <= input@.len(),
    ensures
        match sd_score_replay_list(input@, pos as int, n as int) {
            Ok(o) => r matches Ok(v) && v.0.deep_view() == o.0 && v.1 as int == o.1,
            Err(e) => r matches Err(e2) && e2 == e,
        },
        r matches Ok(v) ==> pos <= v.1 && v.1 <= input@.len(),
{
    let mut out: Vec<ScoreReplay> = Vec::new();
    let mut p: usize = pos;
    let mut i: u32 = 0;
    while i < n
        invariant
            i <= n,
            pos <= p <= input@.len(),
            match sd_score_replay_list(input@, p as int, (n - i) as int) {
                Ok(rest) => sd_score_replay_list(input@, pos as int, n as int) == Ok::<
                    (Seq<ScoreReplayView>, int),
                    Error,
                >((out.deep_view() + rest.0, rest.1)),
                Err(e) => sd_score_replay_list(input@, pos as int, n as int) == Err::<
                    (Seq<ScoreReplayView>, int),
                    Error,
                >(e),
            },
        decreases n - i,
    {
        let ghost out_before = out.deep_view();
        match score_replay(input, p) {
            Ok((v, p2)) => {
                out.push(v);
                proof {
                    assert(out.deep_view() =~= out_before + seq![v.deep_view()]);
                    match sd_score_replay_list(input@, p2 as int, (n - i - 1) as int) {
                        Ok(rest2) => {
                            assert(out_before + (seq![v.deep_view()] + rest2.0) =~= out.deep_view()
                                + rest2.0);
                        },
                        Err(_) => {},
                    }
                }
                p = p2;
                i = i + 1;
            },
            Err(e) => {
                return Err(e);
            },
        }
    }
    proof {
        assert(out.deep_view() + Seq::<ScoreReplayView>::empty() =~= out.deep_view());
    }
    Ok((out, p))
}

/// The per-beatmap score array starting at `pos`: the beatmap hash, a
/// `u32` count and that many records.
pub open spec fn sd_beatmap_scores(s: Seq<u8>, pos: int) -> Result<(BeatmapScoresView, int), Error> {
    match sd_osu_string(s, pos) {
        Ok(o) => match sd_u32(s, o.1) {
            Ok(o2) => match sd_score_replay_list(s, o2.1, o2.0 as int) {
                Ok(o3) => Ok((BeatmapScoresView { md5: o.0, scores: o3.0 }, o3.1)),
                Err(e) => Err(e),
            },
            Err(e) => Err(e),
        },
        Err(e) => Err(e),
    }
}

/// Parses the scores for a particular beatmap in the `scores.db` file.
pub fn beatmap_scores(input: &[u8], pos: usize) -> (r: Result<(BeatmapScores, usize), Error>)
    ensures
        match sd_beatmap_scores(input@, pos as int) {
            Ok(o) => r matches Ok(v) && v.0@ == o.0 && v.1 as int == o.1,
            Err(e) => r matches Err(e2) && e2 == e,
        },
        r matches Ok(v) ==> pos <= v.1 && v.1 <= input@.len(),
{
    let (md5, p1) = match osu_string(input, pos) {
        Ok(x) => x,
        Err(e) => { return Err(e) },
    };
    let (count, p2) = match read_u32(input, p1) {
        Ok(x) => x,
        Err(e) => { return Err(e) },
    };
    let (scores, p3) = match score_replay_list(input, p2, count) {
        Ok(x) => x,
        Err(e) => { return Err(e) },
    };
    Ok((BeatmapScores { md5, scores }, p3))
}

/// `n` consecutive per-beatmap score arrays starting at `pos`.
pub open spec fn sd_beatmap_scores_list(s: Seq<u8>, pos: int, n: int) -> Result<
    (Seq<BeatmapScoresView>, int),
    Error,
>
    decreases n,
{
    if n <= 0 {
        Ok((Seq::empty(), pos))
    } else {
        match sd_beatmap_scores(s, pos) {
            Ok(o) => match sd_beatmap_scores_list(s, o.1, n - 1) {
                Ok(o2) => Ok((seq![o.0] + o2.0, o2.1)),
                Err(e) => Err(e),
            },
            Err(e) => Err(e),
        }
    }
}

/// Reads `n` consecutive per-beatmap score arrays.
#[verifier::rlimit(100)]
#[verifier::spinoff_prover]
fn beatmap_scores_list(input: &[u8], pos: usize, n: u32) -> (r: Result<
    (Vec<BeatmapScores>, usize),
    Error,
>)
    requires
        pos <= input@.len(),
    ensures
        match sd_beatmap_scores_list(input@, pos as int, n as int) {
            Ok(o) => r matches Ok(v) && v.0.deep_view() == o.0 && v.1 as int == o.1,
            Err(e) => r matches Err(e2) && e2 == e,
        },
        r matches Ok(v) ==> pos <= v.1 && v.1 <= input@.len(),
{
    let mut out: Vec<BeatmapScores> = Vec::new();
    let mut p: usize = pos;
    let mut i: u32 = 0;
    while i < n
        invariant
            i <= n,
            pos <= p <= input@.len(),
            match sd_beatmap_scores_list(input@, p as int, (n - i) as int) {
                Ok(rest) => sd_beatmap_scores_list(input@, pos as int, n as int) == Ok::<
                    (Seq<BeatmapScoresView>, int),
                    Error,
                >((out.deep_view() + rest.0, rest.1)),
                Err(e) => sd_beatmap_scores_list(input@, pos as int, n as int) == Err::<
                    (Seq<BeatmapScoresView>, int),
                    Error,
                >(e),
            },
        decreases n - i,
    {
        let ghost out_before = out.deep_view();
        match beatmap_scores(input, p) {
            Ok((v, p2)) => {
                out.push(v);
                proof {
                    assert(out.deep_view() =~= out_before + seq![v.deep_view()]);
                    match sd_beatmap_scores_list(input@, p2 as int, (n - i - 1) as int) {
                        Ok(rest2) => {
                            assert(out_before + (seq![v.deep_view()] + rest2.0) =~= out.deep_view()
                                + rest2.0);
                        },
                        Err(_) => {},
                    }
                }
                p = p2;
                i = i + 1;
            },
            Err(e) => {
                return Err(e);
            },
        }
    }
    proof {
        assert(out.deep_view() + Seq::<BeatmapScoresView>::empty() =~= out.deep_view());
    }
    Ok((out, p))
}

/// The whole `scores.db` layout starting at `pos`: a version, an array
/// count and that many per-beatmap score arrays.
pub open spec fn sd_score_listing(s: Seq<u8>, pos: int) -> Result<(ScoreListingView, int), Error> {
    match sd_u32(s, pos) {
        Ok(o) => match sd_u32(s, o.1) {
            Ok(o2) => match sd_beatmap_scores_list(s, o2.1, o2.0 as int) {
                Ok(o3) => Ok(
                    (ScoreListingView { version: o.0, beatmap_scores: o3.0 }, o3.1),
                ),
                Err(e) => Err(e),
            },
            Err(e) => Err(e),
        },
        Err(e) => Err(e),
    }
}

/// Parses a `scores.db` file.
pub fn score_listing(input: &[u8], pos: usize) -> (r: Result<(ScoreListing, usize), Error>)
    ensures
        match sd_score_listing(input@, pos as int) {
            Ok(o) => r matches Ok(v) && v.0@ == o.0 && v.1 as int == o.1,
            Err(e) => r matches Err(e2) && e2 == e,
        },
        r matches Ok(v) ==> pos <= v.1 && v.1 <= input@.len(),
{
    let (version, p1) = match read_u32(input, pos) {
        Ok(x) => x,
        Err(e) => { return Err(e) },
    };
    let (count, p2) = match read_u32(input, p1) {
        Ok(x) => x,
        Err(e) => { return Err(e) },
    };
    let (beatmap_scores, p3) = match beatmap_scores_list(input, p2, count) {
        Ok(x) => x,
        Err(e) => { return Err(e) },
    };
    Ok((ScoreListing { version, beatmap_scores }, p3))
}

impl ScoreListing {
    /// Parses the contents of a `scores.db` file. Trailing bytes after the
    /// listing are left unread.
    pub fn from_bytes(data: &[u8]) -> (r: Result<ScoreListing, Error>)
        ensures
            match sd_score_listing(data@, 0) {
                Ok(o) => r matches Ok(v) && v@ == o.0,
                Err(e) => r matches Err(e2) && e2 == e,
            },
    {
        match score_listing(data, 0) {
            Ok((listing, _)) => Ok(listing),
            Err(e) => Err(e),
        }
    }
}

/// Numerator of the accuracy percentage of a record: mode-specific
/// weighted hit points, scaled so that `num / den` is the percentage.
pub open spec fn spec_accuracy_num(v: ScoreReplayView) -> int {
    let a = v.hits_300 as int;
    let b = v.hits_100 as int;
    let c = v.hits_50 as int;
    let geki = v.hits_geki as int;
    let katu = v.hits_katu as int;
    match v.gameplay_mode {
        GameplayMode::Standard => 100 * (300 * a + 100 * b + 50 * c),
        GameplayMode::Taiko => 100 * (2 * a + b),
        GameplayMode::Catch => 100 * (a + b + c),
        GameplayMode::Mania => {
            let w: int = if v.mods.spec_contains(MOD_SCORE_V2) {
                300
            } else {
                305
            };
            100 * (w * geki + 300 * a + 200 * katu + 100 * b + 50 * c)
        },
    }
}

/// Denominator of the accuracy percentage of a record. It is zero exactly
/// when the record counts no judgements for its mode, in which case the
/// accuracy is undefined.
pub open spec fn spec_accuracy_den(v: ScoreReplayView) -> int {
    let a = v.hits_300 as int;
    let b = v.hits_100 as int;
    let c = v.hits_50 as int;
    let geki = v.hits_geki as int;
    let katu = v.hits_katu as int;
    let m = v.misses as int;
    match v.gameplay_mode {
        GameplayMode::Standard => 300 * (a + b + c + m),
        GameplayMode::Taiko => 2 * (a + b + m),
        GameplayMode::Catch => a + b + c + m + katu,
        GameplayMode::Mania => {
            let w: int = if v.mods.spec_contains(MOD_SCORE_V2) {
                300
            } else {
                305
            };
            w * (geki + a + b + c + m)
        },
    }
}

/// The Standard base grade over the four judgement counts, by exact
/// rational comparisons: SS needs a 300 and nothing else; the S/A/B/C
/// ladder compares the ratio of 300s (and of 50s for S) against the
/// thresholds 0.9/0.8/0.7/0.6 and 0.01; no judgements at all grades D.
pub open spec fn spec_grade_standard(a: int, b: int, c: int, m: int) -> Grade {
    let t = a + b + c + m;
    if a > 0 && b == 0 && c == 0 && m == 0 {
        Grade::SS
    } else if t > 0 && 10 * a >= 9 * t && 100 * c <= t && m == 0 {
        Grade::S
    } else if t > 0 && ((10 * a >= 8 * t && m == 0) || 10 * a >= 9 * t) {
        Grade::A
    } else if t > 0 && ((10 * a >= 7 * t && m == 0) || 10 * a >= 8 * t) {
        Grade::B
    } else if t > 0 && 10 * a >= 6 * t {
        Grade::C
    } else {
        Grade::D
    }
}

/// The Taiko base grade: as Standard but over greats, goods and misses
/// only, with no 50s condition.
pub open spec fn spec_grade_taiko(a: int, b: int, m: int) -> Grade {
    let t = a + b + m;
    if a > 0 && b == 0 && m == 0 {
        Grade::SS
    } else if t > 0 && 10 * a >= 9 * t && m == 0 {
        Grade::S
    } else if t > 0 && ((10 * a >= 8 * t && m == 0) || 10 * a >= 9 * t) {
        Grade::A
    } else if t > 0 && ((10 * a >= 7 * t && m == 0) || 10 * a >= 8 * t) {
        Grade::B
    } else if t > 0 && 10 * a >= 6 * t {
        Grade::C
    } else {
        Grade::D
    }
}

/// The Catch base grade: SS whenever nothing was missed, else strict
/// accuracy thresholds at 98, 94, 90 and 85 percent.
pub open spec fn spec_grade_catch(a: int, b: int, c: int, m: int, katu: int) -> Grade {
    let caught = a + b + c;
    let den = a + b + c + m + katu;
    if m == 0 && katu == 0 {
        Grade::SS
    } else if 100 * caught > 98 * den {
        Grade::S
    } else if 100 * caught > 94 * den {
        Grade::A
    } else if 100 * caught > 90 * den {
        Grade::B
    } else if 100 * caught > 85 * den {
        Grade::C
    } else {
        Grade::D
    }
}

/// The Mania base grade. With ScoreV2 only rainbow 300s and nothing else
/// is an SS; without it, rainbow 300s or plain 300s alone suffice. Below
/// that, the ladder compares the weighted accuracy against 95, 90, 80 and
/// 70 percent, inclusive.
pub open spec fn spec_grade_mania(
    a: int,
    b: int,
    c: int,
    geki: int,
    katu: int,
    m: int,
    sv2: bool,
) -> Grade {
    let w: int = if sv2 {
        300
    } else {
        305
    };
    let total = geki + a + b + c + m;
    let points = w * geki + 300 * a + 200 * katu + 100 * b + 50 * c;
    if b == 0 && c == 0 && katu == 0 && m == 0 && ((sv2 && geki > 0 && a == 0) || (!sv2 && (geki > 0
        || a > 0))) {
        Grade::SS
    } else if total > 0 && 100 * points >= 95 * (w * total) {
        Grade::S
    } else if total > 0 && 100 * points >= 90 * (w * total) {
        Grade::A
    } else if total > 0 && 100 * points >= 80 * (w * total) {
        Grade::B
    } else if total > 0 && 100 * points >= 70 * (w * total) {
        Grade::C
    } else {
        Grade::D
    }
}

/// The base grade of a record before the silver promotion, decided by
/// exact rational comparisons against the mode-specific thresholds. A
/// record with no judgements for its mode (and not in the SS case of its
/// mode) grades D.
pub open spec fn spec_base_grade(v: ScoreReplayView) -> Grade {
    let a = v.hits_300 as int;
    let b = v.hits_100 as int;
    let c = v.hits_50 as int;
    let geki = v.hits_geki as int;
    let katu = v.hits_katu as int;
    let m = v.misses as int;
    match v.gameplay_mode {
        GameplayMode::Standard => spec_grade_standard(a, b, c, m),
        GameplayMode::Taiko => spec_grade_taiko(a, b, m),
        GameplayMode::Catch => spec_grade_catch(a, b, c, m, katu),
        GameplayMode::Mania => spec_grade_mania(
            a,
            b,
            c,
            geki,
            katu,
            m,
            v.mods.spec_contains(MOD_SCORE_V2),
        ),
    }
}

/// Computes the Standard base grade.
fn grade_standard(a: u16, b: u16, c: u16, m: u16) -> (r: Grade)
    ensures
        r == spec_grade_standard(a as int, b as int, c as int, m as int),
{
    let a = a as u64;
    let b = b as u64;
    let c = c as u64;
    let m = m as u64;
    let t = a + b + c + m;
    if a > 0 && b == 0 && c == 0 && m == 0 {
        Grade::SS
    } else if t > 0 && 10 * a >= 9 * t && 100 * c <= t && m == 0 {
        Grade::S
    } else if t > 0 && ((10 * a >= 8 * t && m == 0) || 10 * a >= 9 * t) {
        Grade::A
    } else if t > 0 && ((10 * a >= 7 * t && m == 0) || 10 * a >= 8 * t) {
        Grade::B
    } else if t > 0 && 10 * a >= 6 * t {
        Grade::C
    } else {
        Grade::D
    }
}

/// Computes the Taiko base grade.
fn grade_taiko(a: u16, b: u16, m: u16) -> (r: Grade)
    ensures
        r == spec_grade_taiko(a as int, b as int, m as int),
{
    let a = a as u64;
    let b = b as u64;
    let m = m as u64;
    let t = a + b + m;
    if a > 0 && b == 0 && m == 0 {
        Grade::SS
    } else if t > 0 && 10 * a >= 9 * t && m == 0 {
        Grade::S
    } else if t > 0 && ((10 * a >= 8 * t && m == 0) || 10 * a >= 9 * t) {
        Grade::A
    } else if t > 0 && ((10 * a >= 7 * t && m == 0) || 10 * a >= 8 * t) {
        Grade::B
    } else if t > 0 && 10 * a >= 6 * t {
        Grade::C
    } else {
        Grade::D
    }
}

/// Computes the Catch base grade.
fn grade_catch(a: u16, b: u16, c: u16, m: u16, katu: u16) -> (r: Grade)
    ensures
        r == spec_grade_catch(a as int, b as int, c as int, m as int, katu as int),
{
    let a = a as u64;
    let b = b as u64;
    let c = c as u64;
    let m = m as u64;
    let katu = katu as u64;
    let caught = a + b + c;
    let den = a + b + c + m + katu;
    if m == 0 && katu == 0 {
        Grade::SS
    } else if 100 * caught > 98 * den {
        Grade::S
    } else if 100 * caught > 94 * den {
        Grade::A
    } else if 100 * caught > 90 * den {
        Grade::B
    } else if 100 * caught > 85 * den {
        Grade::C
    } else {
        Grade::D
    }
}

/// Computes the Mania base grade.
fn grade_mania(a: u16, b: u16, c: u16, geki: u16, katu: u16, m: u16, sv2: bool) -> (r: Grade)
    ensures
        r == spec_grade_mania(
            a as int,
            b as int,
            c as int,
            geki as int,
            katu as int,
            m as int,
            sv2,
        ),
{
    let a = a as u64;
    let b = b as u64;
    let c = c as u64;
    let geki = geki as u64;
    let katu = katu as u64;
    let m = m as u64;
    let w: u64 = if sv2 {
        300
    } else {
        305
    };
    let total = geki + a + b + c + m;
    proof {
        assert(w * geki <= 305 * 65535) by (nonlinear_arith)
            requires
                w <= 305 && geki <= 65535,
        ;
        assert(w * total <= 305 * 327675) by (nonlinear_arith)
            requires
                w <= 305 && total <= 327675,
        ;
    }
    let points = w * geki + 300 * a + 200 * katu + 100 * b + 50 * c;
    if b == 0 && c == 0 && katu == 0 && m == 0 && ((sv2 && geki > 0 && a == 0) || (!sv2 && (geki > 0
        || a > 0))) {
        Grade::SS
    } else if total > 0 && 100 * points >= 95 * (w * total) {
        Grade::S
    } else if total > 0 && 100 * points >= 90 * (w * total) {
        Grade::A
    } else if total > 0 && 100 * points >= 80 * (w * total) {
        Grade::B
    } else if total > 0 && 100 * points >= 70 * (w * total) {
        Grade::C
    } else {
        Grade::D
    }
}

/// The grade of a record: the base grade, with SS and S promoted to their
/// silver variants when a silver modifier (Hidden, Flashlight or FadeIn)
/// is active.
pub open spec fn spec_grade(v: ScoreReplayView) -> Grade {
    let base = spec_base_grade(v);
    if has_silver_mod(v.mods) {
        if base == Grade::SS {
            Grade::SilverSS
        } else if base == Grade::S {
            Grade::SilverS
        } else {
            base
        }
    } else {
        base
    }
}

impl ScoreReplay {
    /// Parses the contents of a `.osr` replay: exactly one record with no
    /// outer header. Trailing bytes after the record are left unread.
    pub fn from_bytes(data: &[u8]) -> (r: Result<ScoreReplay, Error>)
        ensures
            match sd_score_replay(data@, 0) {
                Ok(o) => r matches Ok(v) && v@ == o.0,
                Err(e) => r matches Err(e2) && e2 == e,
            },
            r matches Ok(v) ==> (v.mods.spec_contains(MOD_TARGET_PRACTICE)
                <==> v.additional_mod_info is Some),
    {
        match score_replay(data, 0) {
            Ok((record, _)) => Ok(record),
            Err(e) => Err(e),
        }
    }

    /// The accuracy of this score as an exact fraction of a percentage:
    /// the returned `(numerator, denominator)` satisfy
    /// `numerator / denominator == accuracy percentage`, using the
    /// mode-specific formulae. The denominator is zero exactly when the
    /// record counts no judgements for its mode.
    pub fn accuracy_fraction(&self) -> (r: (u64, u64))
        ensures
            r.0 as int == spec_accuracy_num(self@),
            r.1 as int == spec_accuracy_den(self@),
    {
        let a = self.hits_300 as u64;
        let b = self.hits_100 as u64;
        let c = self.hits_50 as u64;
        let geki = self.hits_geki as u64;
        let katu = self.hits_katu as u64;
        let m = self.misses as u64;
        match self.gameplay_mode {
            GameplayMode::Standard => (
                100 * (300 * a + 100 * b + 50 * c),
                300 * (a + b + c + m),
            ),
            GameplayMode::Taiko => (100 * (2 * a + b), 2 * (a + b + m)),
            GameplayMode::Catch => (100 * (a + b + c), a + b + c + m + katu),
            GameplayMode::Mania => {
                let w: u64 = if self.mods.contains(MOD_SCORE_V2) {
                    300
                } else {
                    305
                };
                (
                    100 * (w * geki + 300 * a + 200 * katu + 100 * b + 50 * c),
                    w * (geki + a + b + c + m),
                )
            },
        }
    }

    /// Determines the grade achieved for this replay: the mode-specific
    /// base grade, then the silver promotion for Hidden, Flashlight or
    /// FadeIn.
    pub fn grade(&self) -> (r: Grade)
        ensures
            r == spec_grade(self@),
    {
        let base = match self.gameplay_mode {
            GameplayMode::Standard => grade_standard(
                self.hits_300,
                self.hits_100,
                self.hits_50,
                self.misses,
            ),
            GameplayMode::Taiko => grade_taiko(self.hits_300, self.hits_100, self.misses),
            GameplayMode::Catch => grade_catch(
                self.hits_300,
                self.hits_100,
                self.hits_50,
                self.misses,
                self.hits_katu,
            ),
            GameplayMode::Mania => grade_mania(
                self.hits_300,
                self.hits_100,
                self.hits_50,
                self.hits_geki,
                self.hits_katu,
                self.misses,
                self.mods.contains(MOD_SCORE_V2),
            ),
        };
        let silver = self.mods.contains(crate::common::MOD_HIDDEN) || self.mods.contains(
            crate::common::MOD_FLASHLIGHT,
        ) || self.mods.contains(crate::common::MOD_FADE_IN);
        match (base, silver) {
            (Grade::SS, true) => Grade::SilverSS,
            (Grade::S, true) => Grade::SilverS,
            (g, _) => g,
        }
    }
}

/// A Standard-mode record with at least one 300 and no 100s, 50s or
/// misses always grades SS, whatever its other fields hold (SilverSS when
/// a silver modifier is active), and its accuracy is exactly 100 percent.
/// Setting Hidden on such a record turns the grade into SilverSS and
/// leaves the accuracy fraction unchanged.
pub proof fn lemma_standard_perfect_grade(v: ScoreReplayView, v2: ScoreReplayView)
    requires
        v.gameplay_mode == GameplayMode::Standard,
        v.hits_300 > 0,
        v.hits_100 == 0,
        v.hits_50 == 0,
        v.misses == 0,
        v2.gameplay_mode == v.gameplay_mode,
        v2.hits_300 == v.hits_300,
        v2.hits_100 == v.hits_100,
        v2.hits_50 == v.hits_50,
        v2.hits_geki == v.hits_geki,
        v2.hits_katu == v.hits_katu,
        v2.misses == v.misses,
        v2.mods.spec_contains(crate::common::MOD_HIDDEN),
    ensures
        !has_silver_mod(v.mods) ==> spec_grade(v) == Grade::SS,
        has_silver_mod(v.mods) ==> spec_grade(v) == Grade::SilverSS,
        spec_grade(v2) == Grade::SilverSS,
        spec_accuracy_num(v) == 100 * spec_accuracy_den(v),
        spec_accuracy_den(v) > 0,
        spec_accuracy_num(v2) == spec_accuracy_num(v),
        spec_accuracy_den(v2) == spec_accuracy_den(v),
{
}

/// A digit run stops no later than any non-digit position at or after its
/// start.
proof fn lemma_digit_run_bounded(s: Seq<u8>, i: int, p: int)
    requires
        0 <= i <= p < s.len(),
        !is_digit_byte(s[p]),
    ensures
        digit_run_end(s, i) <= p,
    decreases p - i,
{
    if i < p && is_digit_byte(s[i]) {
        lemma_digit_run_bounded(s, i + 1, p);
    }
}

/// A digit run covers exactly a block of digits ended by a non-digit.
proof fn lemma_digit_run_exact(s: Seq<u8>, i: int, j: int)
    requires
        0 <= i <= j < s.len(),
        forall|k: int| i <= k < j ==> is_digit_byte(s[k]),
        !is_digit_byte(s[j]),
    ensures
        digit_run_end(s, i) == j,
    decreases j - i,
{
    if i < j {
        lemma_digit_run_exact(s, i + 1, j);
    }
}

/// Two equal byte windows have equally long digit runs, provided the run
/// stops strictly inside the window.
proof fn lemma_digit_run_transfer(s1: Seq<u8>, i1: int, s2: Seq<u8>, i2: int, n: int)
    requires
        0 <= i1,
        i1 + n <= s1.len(),
        0 <= i2,
        i2 + n <= s2.len(),
        s1.subrange(i1, i1 + n) == s2.subrange(i2, i2 + n),
        digit_run_end(s1, i1) - i1 < n,
    ensures
        digit_run_end(s2, i2) - i2 == digit_run_end(s1, i1) - i1,
    decreases n,
{
    lemma_digit_run(s1, i1);
    assert(n >= 1);
    assert(s1.subrange(i1, i1 + n)[0] == s1[i1]);
    assert(s2.subrange(i2, i2 + n)[0] == s2[i2]);
    if is_digit_byte(s1[i1]) {
        assert(s1.subrange(i1 + 1, i1 + n) =~= s2.subrange(i2 + 1, i2 + n)) by {
            assert(forall|k: int|
                0 <= k < n - 1 ==> #[trigger] s1.subrange(i1 + 1, i1 + n)[k] == s1.subrange(
                    i1,
                    i1 + n,
                )[k + 1] && s2.subrange(i2 + 1, i2 + n)[k] == s2.subrange(i2, i2 + n)[k + 1]);
        }
        lemma_digit_run_transfer(s1, i1 + 1, s2, i2 + 1, n - 1);
    }
}

/// Two equal byte windows carry the same digit value.
proof fn lemma_digits_value_transfer(s1: Seq<u8>, i1: int, s2: Seq<u8>, i2: int, n: int)
    requires
        0 <= i1,
        i1 + n <= s1.len(),
        0 <= i2,
        i2 + n <= s2.len(),
        s1.subrange(i1, i1 + n) == s2.subrange(i2, i2 + n),
    ensures
        digits_value(s1, i1, i1 + n) == digits_value(s2, i2, i2 + n),
    decreases n,
{
    if n > 0 {
        assert(s1.subrange(i1, i1 + n)[n - 1] == s1[i1 + n - 1]);
        assert(s2.subrange(i2, i2 + n)[n - 1] == s2[i2 + n - 1]);
        assert(s1.subrange(i1, i1 + n - 1) =~= s2.subrange(i2, i2 + n - 1)) by {
            assert(forall|k: int|
                0 <= k < n - 1 ==> #[trigger] s1.subrange(i1, i1 + n - 1)[k] == s1.subrange(
                    i1,
                    i1 + n,
                )[k] && s2.subrange(i2, i2 + n - 1)[k] == s2.subrange(i2, i2 + n)[k]);
        }
        lemma_digits_value_transfer(s1, i1, s2, i2, n - 1);
    }
}

/// The decimal digits of `n` are digits, start with at least one byte, and
/// read back as `n`.
proof fn lemma_dec_digits(n: u32)
    ensures
        dec_digits(n).len() >= 1,
        forall|k: int| 0 <= k < dec_digits(n).len() ==> is_digit_byte(#[trigger] dec_digits(n)[k]),
        digits_value(dec_digits(n), 0, dec_digits(n).len() as int) == n,
    decreases n,
{
    let s = dec_digits(n);
    let len = s.len() as int;
    if n < 10 {
        reveal_with_fuel(digits_value, 2);
    } else {
        lemma_dec_digits(n / 10);
        let prefix = dec_digits(n / 10);
        assert(s == prefix + seq![(0x30 + n % 10) as u8]);
        assert(s[len - 1] == (0x30 + n % 10) as u8);
        assert(prefix.subrange(0, len - 1) =~= s.subrange(0, len - 1)) by {
            assert(forall|k: int| 0 <= k < len - 1 ==> prefix[k] == #[trigger] s[k]);
            assert(prefix.subrange(0, len - 1) =~= prefix);
        }
        assert(prefix.subrange(0, prefix.len() as int) =~= prefix);
        lemma_digits_value_transfer(prefix, 0, s, 0, len - 1);
        assert(digits_value(s, 0, len) == digits_value(s, 0, len - 1) * 10 + (s[len - 1]
            - 0x30) as nat);
        assert(forall|k: int| 0 <= k < len - 1 ==> is_digit_byte(#[trigger] s[k])) by {
            assert(forall|k: int| 0 <= k < len - 1 ==> #[trigger] s[k] == prefix[k]);
        }
        assert(is_digit_byte(s[len - 1]));
        assert(digits_value(s, 0, len) == n);
    }
}

/// Bytes of two equal windows agree position by position.
proof fn lemma_window_byte(s1: Seq<u8>, i1: int, s2: Seq<u8>, i2: int, n: int, p: int)
    requires
        0 <= i1,
        i1 + n <= s1.len(),
        0 <= i2,
        i2 + n <= s2.len(),
        s1.subrange(i1, i1 + n) == s2.subrange(i2, i2 + n),
        i1 <= p < i1 + n,
    ensures
        s2[i2 + (p - i1)] == s1[p],
{
    assert(s1.subrange(i1, i1 + n)[p - i1] == s1[p]);
    assert(s2.subrange(i2, i2 + n)[p - i1] == s2[i2 + (p - i1)]);
}

/// A sub-window of two equal windows is again a pair of equal windows.
proof fn lemma_subwindow(s1: Seq<u8>, i1: int, s2: Seq<u8>, i2: int, n: int, a: int, m: int)
    requires
        0 <= i1,
        i1 + n <= s1.len(),
        0 <= i2,
        i2 + n <= s2.len(),
        s1.subrange(i1, i1 + n) == s2.subrange(i2, i2 + n),
        0 <= a,
        0 <= m,
        a + m <= n,
    ensures
        s1.subrange(i1 + a, i1 + a + m) == s2.subrange(i2 + a, i2 + a + m),
{
    assert(s1.subrange(i1 + a, i1 + a + m) =~= s2.subrange(i2 + a, i2 + a + m)) by {
        assert(forall|k: int|
            0 <= k < m ==> #[trigger] s1.subrange(i1 + a, i1 + a + m)[k] == s1.subrange(
                i1,
                i1 + n,
            )[a + k] && s2.subrange(i2 + a, i2 + a + m)[k] == s2.subrange(i2, i2 + n)[a + k]);
    }
}

/// A digit run that starts inside two equal windows and is cut off by a
/// comma at the window's last compared position has the same length in
/// both, and never reaches the comma.
proof fn lemma_run_at(s1: Seq<u8>, i1: int, s2: Seq<u8>, i2: int, n: int, d: int, p: int)
    requires
        0 <= i1,
        i1 + n <= s1.len(),
        0 <= i2,
        i2 + n <= s2.len(),
        s1.subrange(i1, i1 + n) == s2.subrange(i2, i2 + n),
        0 <= d < n,
        s1[i1 + d] == 0x2cu8,
        i1 <= p <= i1 + d,
    ensures
        digit_run_end(s1, p) <= i1 + d,
        digit_run_end(s2, i2 + (p - i1)) - (i2 + (p - i1)) == digit_run_end(s1, p) - p,
{
    lemma_digit_run_bounded(s1, p, i1 + d);
    lemma_subwindow(s1, i1, s2, i2, n, p - i1, n - (p - i1));
    lemma_digit_run_transfer(s1, p, s2, i2 + (p - i1), n - (p - i1));
}

/// A recognized floating-point text never starts before its position nor
/// runs past the sequence.
proof fn lemma_float_text_bounds(s: Seq<u8>, a: int)
    requires
        0 <= a,
    ensures
        float_text_end(s, a) matches Some(j) ==> a <= j <= s.len(),
{
    let j0 = if 0 <= a < s.len() && (s[a] == 0x2bu8 || s[a] == 0x2du8) {
        a + 1
    } else {
        a
    };
    if 0 <= j0 < s.len() && is_digit_byte(s[j0]) {
        lemma_digit_run(s, j0);
        let j1 = digit_run_end(s, j0);
        let j2 = if j1 < s.len() && s[j1] == 0x2eu8 {
            lemma_digit_run(s, j1 + 1);
            digit_run_end(s, j1 + 1)
        } else {
            j1
        };
        if j2 < s.len() && (s[j2] == 0x65u8 || s[j2] == 0x45u8) {
            let k = if j2 + 1 < s.len() && (s[j2 + 1] == 0x2bu8 || s[j2 + 1] == 0x2du8) {
                j2 + 2
            } else {
                j2 + 1
            };
            if k < s.len() && is_digit_byte(s[k]) {
                lemma_digit_run(s, k);
            }
        }
    } else if 0 <= j0 && j0 + 1 < s.len() && s[j0] == 0x2eu8 && is_digit_byte(s[j0 + 1]) {
        lemma_digit_run(s, j0 + 1);
        let j2 = digit_run_end(s, j0 + 1);
        if j2 < s.len() && (s[j2] == 0x65u8 || s[j2] == 0x45u8) {
            let k = if j2 + 1 < s.len() && (s[j2 + 1] == 0x2bu8 || s[j2 + 1] == 0x2du8) {
                j2 + 2
            } else {
                j2 + 1
            };
            if k < s.len() && is_digit_byte(s[k]) {
                lemma_digit_run(s, k);
            }
        }
    }
}

/// A floating-point text that two equal windows share, cut off by a comma,
/// ends at the same distance in both.
proof fn lemma_float_text_transfer(s1: Seq<u8>, i1: int, s2: Seq<u8>, i2: int, n: int, d: int)
    requires
        0 <= i1,
        i1 + n <= s1.len(),
        0 <= i2,
        i2 + n <= s2.len(),
        s1.subrange(i1, i1 + n) == s2.subrange(i2, i2 + n),
        float_text_end(s1, i1) == Some(i1 + d),
        0 <= d < n,
        s1[i1 + d] == 0x2cu8,
    ensures
        float_text_end(s2, i2) == Some(i2 + d),
{
    lemma_window_byte(s1, i1, s2, i2, n, i1);
    let j0 = if s1[i1] == 0x2bu8 || s1[i1] == 0x2du8 {
        i1 + 1
    } else {
        i1
    };
    // A sign byte is not the comma, so the text continues past it.
    assert(j0 <= i1 + d);
    let off0 = j0 - i1;
    if 0 <= j0 < s1.len() && is_digit_byte(s1[j0]) {
        // Mantissa led by digits.
        lemma_window_byte(s1, i1, s2, i2, n, j0);
        lemma_run_at(s1, i1, s2, i2, n, d, j0);
        let j1 = digit_run_end(s1, j0);
        lemma_digit_run(s1, j0);
        assert(j1 <= i1 + d);
        lemma_window_byte(s1, i1, s2, i2, n, j1);
        let j2 = if j1 < s1.len() && s1[j1] == 0x2eu8 {
            lemma_run_at(s1, i1, s2, i2, n, d, j1 + 1);
            digit_run_end(s1, j1 + 1)
        } else {
            j1
        };
        lemma_digit_run(s1, j1 + 1);
        assert(j2 <= i1 + d);
        lemma_window_byte(s1, i1, s2, i2, n, j2);
        if j2 < s1.len() && (s1[j2] == 0x65u8 || s1[j2] == 0x45u8) {
            assert(j2 < i1 + d);
            lemma_window_byte(s1, i1, s2, i2, n, j2 + 1);
            let k = if j2 + 1 < s1.len() && (s1[j2 + 1] == 0x2bu8 || s1[j2 + 1] == 0x2du8) {
                j2 + 2
            } else {
                j2 + 1
            };
            assert(k <= i1 + d);
            lemma_window_byte(s1, i1, s2, i2, n, k);
            if k < s1.len() && is_digit_byte(s1[k]) {
                lemma_run_at(s1, i1, s2, i2, n, d, k);
            }
        }
    } else {
        // In the successful case the other mantissa form must apply: a
        // fraction alone.
        assert(j0 + 1 < s1.len() && s1[j0] == 0x2eu8 && is_digit_byte(s1[j0 + 1]));
        assert(j0 < i1 + d);
        lemma_window_byte(s1, i1, s2, i2, n, j0);
        lemma_window_byte(s1, i1, s2, i2, n, j0 + 1);
        lemma_run_at(s1, i1, s2, i2, n, d, j0 + 1);
        let j2 = digit_run_end(s1, j0 + 1);
        lemma_digit_run(s1, j0 + 1);
        assert(j2 <= i1 + d);
        lemma_window_byte(s1, i1, s2, i2, n, j2);
        if j2 < s1.len() && (s1[j2] == 0x65u8 || s1[j2] == 0x45u8) {
            assert(j2 < i1 + d);
            lemma_window_byte(s1, i1, s2, i2, n, j2 + 1);
            let k = if j2 + 1 < s1.len() && (s1[j2 + 1] == 0x2bu8 || s1[j2 + 1] == 0x2du8) {
                j2 + 2
            } else {
                j2 + 1
            };
            assert(k <= i1 + d);
            lemma_window_byte(s1, i1, s2, i2, n, k);
            if k < s1.len() && is_digit_byte(s1[k]) {
                lemma_run_at(s1, i1, s2, i2, n, d, k);
            }
        }
    }
}

/// A health text is well formed when, followed by a comma, it reads back
/// as one floating-point text covering exactly itself. Every health text
/// the parser produces is of this shape.
pub open spec fn lifebar_health_wf(h: Seq<u8>) -> bool {
    float_text_end(h + seq![0x2cu8], 0) == Some(h.len() as int)
}

/// Every point of the sequence carries a well-formed health text.
pub open spec fn lifebar_points_wf(points: Seq<LifebarPointView>) -> bool {
    forall|k: int| 0 <= k < points.len() ==> lifebar_health_wf(#[trigger] points[k].health)
}

/// Parsing a serialized point sequence embedded as the suffix of a larger
/// text yields the points back.
#[verifier::rlimit(100)]
#[verifier::spinoff_prover]
proof fn lemma_lifebar_round_trip_at(s: Seq<u8>, i: int, points: Seq<LifebarPointView>)
    requires
        0 <= i <= s.len(),
        s.subrange(i, s.len() as int) == spec_lifebar_text(points),
        lifebar_points_wf(points),
    ensures
        spec_lifebar_points(s, i) == points,
    decreases points.len(),
{
    let text = spec_lifebar_text(points);
    assert(s.len() - i == text.len());
    assert(forall|k: int| 0 <= k < text.len() ==> #[trigger] s[i + k] == text[k]) by {
        assert(forall|k: int|
            0 <= k < text.len() ==> s.subrange(i, s.len() as int)[k] == #[trigger] s[i + k]);
    }
    if points.len() == 0 {
        assert(i == s.len());
        assert(spec_lifebar_points(s, i) =~= points);
    } else {
        let p0 = points[0];
        let dec = dec_digits(p0.time);
        let h = p0.health;
        let dlen = dec.len() as int;
        let hlen = h.len() as int;
        let rest_text = spec_lifebar_text(points.drop_first());
        lemma_dec_digits(p0.time);
        assert(text == dec + seq![0x7cu8] + h + seq![0x2cu8] + rest_text);
        assert(text.len() == dlen + 1 + hlen + 1 + rest_text.len());
        let j1 = i + dlen;
        let j2 = j1 + 1 + hlen;
        let jnext = j2 + 1;
        // The four regions of the first pair, seen through `s`.
        assert(forall|k: int| 0 <= k < dlen ==> #[trigger] text[k] == dec[k]);
        assert(text[dlen] == 0x7cu8);
        assert(forall|k: int| 0 <= k < hlen ==> #[trigger] text[dlen + 1 + k] == h[k]);
        assert(text[dlen + 1 + hlen] == 0x2cu8);
        // The leading digit run covers exactly the encoded time.
        assert(forall|k: int| i <= k < j1 ==> is_digit_byte(#[trigger] s[k])) by {
            assert(forall|k: int| i <= k < j1 ==> s[k] == text[k - i] && text[k - i] == dec[k - i]);
        }
        assert(s[j1] == 0x7cu8);
        assert(!is_digit_byte(s[j1]));
        lemma_digit_run_exact(s, i, j1);
        assert(dec.subrange(0, dlen) =~= s.subrange(i, i + dlen)) by {
            assert(forall|k: int|
                0 <= k < dlen ==> #[trigger] dec.subrange(0, dlen)[k] == dec[k] && s.subrange(
                    i,
                    i + dlen,
                )[k] == s[i + k]);
        }
        lemma_digits_value_transfer(dec, 0, s, i, dlen);
        assert(digits_value(s, i, j1) == p0.time);
        // The health text, followed by its comma, transfers into `s`.
        let h_comma = h + seq![0x2cu8];
        assert(h_comma.subrange(0, hlen + 1) =~= s.subrange(j1 + 1, j1 + 1 + (hlen + 1))) by {
            assert(forall|k: int|
                0 <= k < hlen + 1 ==> #[trigger] h_comma.subrange(0, hlen + 1)[k] == h_comma[k]
                    && s.subrange(j1 + 1, j1 + 1 + (hlen + 1))[k] == s[j1 + 1 + k]);
            assert(forall|k: int|
                0 <= k < hlen + 1 ==> #[trigger] s[j1 + 1 + k] == text[dlen + 1 + k]);
            assert(forall|k: int| 0 <= k < hlen ==> #[trigger] h_comma[k] == h[k]);
            assert(h_comma[hlen] == 0x2cu8);
        }
        assert(lifebar_health_wf(h));
        lemma_float_text_transfer(h_comma, 0, s, j1 + 1, hlen + 1, hlen);
        assert(float_text_end(s, j1 + 1) == Some(j2));
        assert(s[j2] == 0x2cu8);
        // The pair parses to exactly the first point.
        assert(s.subrange(j1 + 1, j2) =~= h) by {
            assert(forall|k: int|
                0 <= k < hlen ==> #[trigger] s.subrange(j1 + 1, j2)[k] == s[j1 + 1 + k] && s[j1 + 1
                    + k] == text[dlen + 1 + k] && text[dlen + 1 + k] == h[k]);
        }
        assert(lifebar_pair_end(s, i) == Some(
            (LifebarPointView { time: p0.time, health: h }, jnext),
        ));
        assert((LifebarPointView { time: p0.time, health: h }) == p0);
        // The rest of the text is the serialization of the remaining points.
        assert(s.subrange(jnext, s.len() as int) =~= rest_text) by {
            assert(forall|k: int|
                0 <= k < rest_text.len() ==> #[trigger] s.subrange(jnext, s.len() as int)[k]
                    == s[jnext + k] && s[jnext + k] == text[dlen + 1 + hlen + 1 + k] && text[dlen + 1
                    + hlen + 1 + k] == rest_text[k]);
        }
        assert(lifebar_points_wf(points.drop_first())) by {
            assert(forall|k: int|
                0 <= k < points.len() - 1 ==> #[trigger] points.drop_first()[k] == points[k + 1]);
        }
        lemma_lifebar_round_trip_at(s, jnext, points.drop_first());
        assert(spec_lifebar_points(s, i) == seq![p0] + points.drop_first());
        assert(seq![p0] + points.drop_first() =~= points);
    }
}

/// Round trip: serializing any sequence of points with well-formed health
/// texts and parsing the result yields the same points. Every graph the
/// parser itself produces is of this shape.
pub proof fn lemma_lifebar_round_trip(points: Seq<LifebarPointView>)
    requires
        lifebar_points_wf(points),
    ensures
        spec_lifebar_points(spec_lifebar_text(points), 0) == points,
{
    let s = spec_lifebar_text(points);
    assert(s.subrange(0, s.len() as int) =~= s);
    lemma_lifebar_round_trip_at(s, 0, points);
}

/// Whatever text the lifebar parser reads, the points it produces carry
/// well-formed health texts, so they round-trip through serialization.
pub proof fn lemma_lifebar_parsed_wf(s: Seq<u8>, i: int)
    requires
        0 <= i,
    ensures
        lifebar_points_wf(spec_lifebar_points(s, i)),
    decreases s.len() - i,
{
    match lifebar_pair_end(s, i) {
        Some(o) => {
            if i < o.1 <= s.len() {
                let j1 = digit_run_end(s, i);
                lemma_digit_run(s, i);
                assert(float_text_end(s, j1 + 1) == Some(o.1 - 1));
                assert(s[o.1 - 1] == 0x2cu8);
                lemma_float_text_bounds(s, j1 + 1);
                assert(j1 + 1 <= o.1 - 1 <= s.len());
                let hlen = (o.1 - 1) - (j1 + 1);
                let h = s.subrange(j1 + 1, o.1 - 1);
                assert(h.len() == hlen);
                let h_comma = h + seq![0x2cu8];
                assert(h_comma.subrange(0, hlen + 1) =~= s.subrange(j1 + 1, j1 + 1 + (hlen + 1)))
                    by {
                    assert(forall|k: int|
                        0 <= k < hlen ==> #[trigger] h_comma[k] == s.subrange(j1 + 1, o.1 - 1)[k]);
                    assert(h_comma[hlen] == 0x2cu8);
                    assert(forall|k: int|
                        0 <= k < hlen + 1 ==> #[trigger] h_comma.subrange(0, hlen + 1)[k]
                            == h_comma[k] && s.subrange(j1 + 1, j1 + 1 + (hlen + 1))[k] == s[j1 + 1
                            + k]);
                }
                lemma_float_text_transfer(s, j1 + 1, h_comma, 0, hlen + 1, hlen);
                assert(lifebar_health_wf(h));
                lemma_lifebar_parsed_wf(s, o.1);
                let rest = spec_lifebar_points(s, o.1);
                assert(spec_lifebar_points(s, i) == seq![o.0] + rest);
                assert(forall|k: int|
                    0 <= k < rest.len() ==> #[trigger] (seq![o.0] + rest)[k + 1] == rest[k]);
                assert((seq![o.0] + rest)[0] == o.0);
            }
        },
        None => {},
    }
}

} // verus!
