//! Tests for the `osu.db` decoders: ranked status, star-rating pairs,
//! timing points and whole listings under both version gates.

use osu_db_parser::beatmaps::{
    byte_to_f32_bits, int_double_pair, ranked_status, star_ratings, timing_point, BeatmapListing,
    RankedStatus, StarRating, TimingPoint,
};
use osu_db_parser::common::Mods;
use osu_db_parser::error::Error;

#[test]
fn ranked_status_decoding_works() {
    assert_eq!(ranked_status(&[0], 0), Ok((RankedStatus::Unknown, 1)));
    assert_eq!(ranked_status(&[1], 0), Ok((RankedStatus::Unsubmitted, 1)));
    assert_eq!(ranked_status(&[2], 0), Ok((RankedStatus::Pending, 1)));
    assert_eq!(ranked_status(&[4], 0), Ok((RankedStatus::Ranked, 1)));
    assert_eq!(ranked_status(&[5], 0), Ok((RankedStatus::Approved, 1)));
    assert_eq!(ranked_status(&[6], 0), Ok((RankedStatus::Qualified, 1)));
    assert_eq!(ranked_status(&[7], 0), Ok((RankedStatus::Loved, 1)));

    assert_eq!(
        ranked_status(&[10], 0),
        Err(Error::UnknownRankedStatus { offset: 0, value: 10 })
    );
}

#[test]
fn ranked_status_reserved_byte_fails() {
    // The value 3 is reserved and is itself invalid
    assert_eq!(
        ranked_status(&[3], 0),
        Err(Error::UnknownRankedStatus { offset: 0, value: 3 })
    );
}

#[test]
fn int_double_pair_decoding_works() {
    let int: u32 = 100;
    let double: f64 = 1234.56;
    let extra = [0x01, 0x02, 0x03];

    let mut pair = Vec::new();
    pair.push(0x08);
    pair.extend_from_slice(&int.to_le_bytes());
    pair.push(0x0d);
    pair.extend_from_slice(&double.to_le_bytes());
    pair.extend_from_slice(&extra);

    let mut missing_front_tag = Vec::new();
    missing_front_tag.extend_from_slice(&int.to_le_bytes());
    missing_front_tag.extend_from_slice(&double.to_le_bytes());

    let mut missing_middle_tag = Vec::new();
    missing_middle_tag.push(0x08);
    missing_middle_tag.extend_from_slice(&int.to_le_bytes());
    missing_middle_tag.extend_from_slice(&double.to_le_bytes());

    assert_eq!(int_double_pair(&pair, 0), Ok(((int, double.to_bits()), 14)));

    assert_eq!(
        int_double_pair(&missing_front_tag, 0),
        Err(Error::MismatchedTag {
            offset: 0,
            expected: 0x08,
            found: int.to_le_bytes()[0],
        })
    );

    assert_eq!(
        int_double_pair(&missing_middle_tag, 0),
        Err(Error::MismatchedTag {
            offset: 5,
            expected: 0x0d,
            found: double.to_le_bytes()[0],
        })
    );
}

#[test]
fn osu_int_double_pair_decoding_works() {
    let int: u32 = 100;
    let double: f64 = 1234.56;

    let mut pair = Vec::new();
    pair.push(0x08);
    pair.extend_from_slice(&int.to_le_bytes());
    pair.push(0x0d);
    pair.extend_from_slice(&double.to_le_bytes());

    assert_eq!(int_double_pair(&pair, 0), Ok(((int, double.to_bits()), 14)));
}

#[test]
fn timing_point_decoding_works() {
    let bpm: f64 = 180.0;
    let song_offset: f64 = 250.0;

    let mut input = Vec::new();
    input.extend_from_slice(&bpm.to_le_bytes());
    input.extend_from_slice(&song_offset.to_le_bytes());
    input.push(0x01);

    // Extra data
    input.extend_from_slice(&[0x05, 0x06]);

    assert_eq!(
        timing_point(&input, 0),
        Ok((
            TimingPoint {
                bpm: bpm.to_bits(),
                song_offset: song_offset.to_bits(),
                inherited: true,
            },
            17
        ))
    );
}

#[test]
fn osu_timing_point_decoding_works() {
    let bpm: f64 = 180.0;
    let song_offset: f64 = 250.0;

    let mut input = Vec::new();
    input.extend_from_slice(&bpm.to_le_bytes());
    input.extend_from_slice(&song_offset.to_le_bytes());
    input.push(0x01);
    input.extend_from_slice(&[0x05, 0x06]);

    let (decoded, rest) = timing_point(&input, 0).unwrap();
    assert_eq!(rest, 17);
    assert_eq!(f64::from_bits(decoded.bpm), bpm);
    assert_eq!(f64::from_bits(decoded.song_offset), song_offset);
    assert!(decoded.inherited);
}

#[test]
fn star_ratings_decoding_works() {
    let ratings = vec![
        (Mods { bits: 0 }, 1.2f64),
        (Mods { bits: 1 }, 2.3f64),
    ];
    let length = ratings.len() as u32;

    let mut input = length.to_le_bytes().to_vec();

    for (mods, rating) in ratings.iter() {
        input.push(0x08);
        input.extend_from_slice(&mods.bits.to_le_bytes());
        input.push(0x0d);
        input.extend_from_slice(&rating.to_le_bytes());
    }

    let expected: Vec<StarRating> = ratings
        .iter()
        .map(|(mods, rating)| StarRating { mods: *mods, rating: rating.to_bits() })
        .collect();

    assert_eq!(star_ratings(&input, 0), Ok((expected, input.len())));
}

#[test]
fn byte_to_f32_bits_matches_float_conversion() {
    for b in 0..=255u8 {
        assert_eq!(f32::from_bits(byte_to_f32_bits(b)), b as f32);
    }
}

/// Appends an osu! string encoding of `s` (tag 0x0b) to `out`.
fn push_string(out: &mut Vec<u8>, s: &str) {
    out.push(0x0b);
    assert!(s.len() < 0x80);
    out.push(s.len() as u8);
    out.extend_from_slice(s.as_bytes());
}

/// Builds the bytes of one beatmap entry under the given listing version.
fn entry_bytes(version: u32) -> Vec<u8> {
    let mut e = Vec::new();
    if version < 20191106 {
        e.extend_from_slice(&0xDDu32.to_le_bytes()); // size
    }
    push_string(&mut e, "artist");
    push_string(&mut e, "artist-u");
    push_string(&mut e, "title");
    push_string(&mut e, "title-u");
    push_string(&mut e, "creator");
    push_string(&mut e, "Hard");
    push_string(&mut e, "audio.mp3");
    push_string(&mut e, "d41d8cd98f00b204e9800998ecf8427e");
    push_string(&mut e, "map.osu");
    e.push(4); // ranked
    e.extend_from_slice(&10u16.to_le_bytes()); // hitcircles
    e.extend_from_slice(&5u16.to_le_bytes()); // sliders
    e.extend_from_slice(&1u16.to_le_bytes()); // spinners
    e.extend_from_slice(&638261550200000000u64.to_le_bytes()); // modified
    if version < 20140609 {
        e.push(9); // AR
        e.push(4); // CS
        e.push(7); // HP
        e.push(8); // OD
    } else {
        e.extend_from_slice(&9.3f32.to_le_bytes());
        e.extend_from_slice(&4.0f32.to_le_bytes());
        e.extend_from_slice(&6.5f32.to_le_bytes());
        e.extend_from_slice(&8.1f32.to_le_bytes());
    }
    e.extend_from_slice(&1.4f64.to_le_bytes()); // slider velocity
    for ratings in [0u32, 1, 0, 2] {
        e.extend_from_slice(&ratings.to_le_bytes());
        for i in 0..ratings {
            e.push(0x08);
            e.extend_from_slice(&(i as u32).to_le_bytes());
            e.push(0x0d);
            e.extend_from_slice(&(5.25f64 + i as f64).to_le_bytes());
        }
    }
    e.extend_from_slice(&95u32.to_le_bytes()); // drain time
    e.extend_from_slice(&120000u32.to_le_bytes()); // total time
    e.extend_from_slice(&30000u32.to_le_bytes()); // preview time
    e.extend_from_slice(&1u32.to_le_bytes()); // timing point count
    e.extend_from_slice(&180.0f64.to_le_bytes());
    e.extend_from_slice(&250.0f64.to_le_bytes());
    e.push(0x00); // not inherited
    e.extend_from_slice(&111u32.to_le_bytes()); // difficulty id
    e.extend_from_slice(&222u32.to_le_bytes()); // beatmap id
    e.extend_from_slice(&333u32.to_le_bytes()); // thread id
    e.push(2); // grade std
    e.push(9); // grade taiko
    e.push(9); // grade catch
    e.push(9); // grade mania
    e.extend_from_slice(&0u16.to_le_bytes()); // local offset
    e.extend_from_slice(&0.7f32.to_le_bytes()); // stack leniency
    e.push(0); // standard mode
    push_string(&mut e, "source");
    push_string(&mut e, "tag1 tag2");
    e.extend_from_slice(&0u16.to_le_bytes()); // online offset
    e.push(0x00); // font: absent
    e.push(0x01); // unplayed
    e.extend_from_slice(&0u64.to_le_bytes()); // last played
    e.push(0x00); // not osz2
    push_string(&mut e, "folder");
    e.extend_from_slice(&0u64.to_le_bytes()); // last checked online
    e.push(0x00);
    e.push(0x00);
    e.push(0x00);
    e.push(0x00);
    if version < 20140609 {
        e.extend_from_slice(&0.0f32.to_le_bytes()); // legacy filler float
    }
    e.extend_from_slice(&0u32.to_le_bytes()); // legacy filler integer
    e.push(3); // mania scroll speed
    e
}

/// Builds a whole `osu.db` with one entry under the given version.
fn listing_bytes(version: u32) -> Vec<u8> {
    let mut d = Vec::new();
    d.extend_from_slice(&version.to_le_bytes());
    d.extend_from_slice(&7u32.to_le_bytes()); // folder count
    d.push(0x01); // account unlocked
    d.extend_from_slice(&0u64.to_le_bytes()); // unlock date
    push_string(&mut d, "player");
    d.extend_from_slice(&1u32.to_le_bytes()); // beatmap count
    d.extend_from_slice(&entry_bytes(version));
    d.extend_from_slice(&0u32.to_le_bytes()); // user permissions
    d
}

#[test]
fn beatmap_listing_decodes_modern_version() {
    let version = 20191106;
    let listing = BeatmapListing::from_bytes(&listing_bytes(version)).unwrap();
    assert_eq!(listing.version, version);
    assert_eq!(listing.folder_count, 7);
    assert!(listing.account_unlocked);
    assert_eq!(listing.player_name, Some("player".to_string()));
    assert_eq!(listing.beatmaps.len(), 1);
    let entry = &listing.beatmaps[0];
    assert_eq!(entry.size, None); // gone from this version on
    assert_eq!(entry.artist_name, Some("artist".to_string()));
    assert_eq!(entry.md5, Some("d41d8cd98f00b204e9800998ecf8427e".to_string()));
    assert_eq!(entry.ranked_status, RankedStatus::Ranked);
    assert_eq!(
        (entry.hitcircle_count, entry.slider_count, entry.spinner_count),
        (10, 5, 1)
    );
    assert_eq!(f32::from_bits(entry.approach_rate), 9.3);
    assert_eq!(f32::from_bits(entry.overall_difficulty), 8.1);
    assert_eq!(f64::from_bits(entry.slider_velocity), 1.4);
    assert_eq!(entry.star_ratings_std.len(), 0);
    assert_eq!(entry.star_ratings_taiko.len(), 1);
    assert_eq!(entry.star_ratings_mania.len(), 2);
    assert_eq!(f64::from_bits(entry.star_ratings_mania[1].rating), 6.25);
    assert_eq!(entry.timing_points.len(), 1);
    assert_eq!(f64::from_bits(entry.timing_points[0].bpm), 180.0);
    assert_eq!(entry.difficulty_id, 111);
    assert_eq!(entry.font, None);
    assert_eq!(entry.folder_name, Some("folder".to_string()));
    assert_eq!(entry.mania_scroll_speed, 3);
}

#[test]
fn beatmap_listing_decodes_legacy_version() {
    // Old versions carry a size prefix, byte-wide difficulty statistics
    // and the legacy float filler.
    let version = 20140608;
    let listing = BeatmapListing::from_bytes(&listing_bytes(version)).unwrap();
    let entry = &listing.beatmaps[0];
    assert_eq!(entry.size, Some(0xDD));
    assert_eq!(f32::from_bits(entry.approach_rate), 9.0);
    assert_eq!(f32::from_bits(entry.circle_size), 4.0);
    assert_eq!(f32::from_bits(entry.hp_drain), 7.0);
    assert_eq!(f32::from_bits(entry.overall_difficulty), 8.0);
}

#[test]
fn beatmap_listing_rejects_leftover_and_truncated_input() {
    let version = 20191106;
    let good = listing_bytes(version);

    // A trailing byte after the structure is an error
    let mut long = good.clone();
    long.push(0x00);
    assert!(matches!(
        BeatmapListing::from_bytes(&long),
        Err(Error::TrailingBytes { offset }) if offset == good.len()
    ));

    // A truncated listing is an end-of-input error
    let short = &good[..good.len() - 5];
    assert!(matches!(
        BeatmapListing::from_bytes(short),
        Err(Error::UnexpectedEof { .. })
    ));

    // A corrupted star-rating marker is a mismatched-tag error
    let mut broken = good;
    // the 0x08 marker of the first taiko rating pair: find it by decoding
    // the intact prefix; simplest is to corrupt the known byte pattern
    let marker_pos = broken.windows(5).position(|w| w[0] == 0x08 && w[1..5] == 0u32.to_le_bytes()).unwrap();
    broken[marker_pos] = 0x09;
    assert!(matches!(
        BeatmapListing::from_bytes(&broken),
        Err(Error::MismatchedTag { expected: 0x08, .. })
    ));
}

#[test]
fn beatmap_listing_rejects_bad_enum_bytes() {
    let version = 20191106;
    let good = listing_bytes(version);
    // Ranked status byte 4 sits right after the nine strings; corrupt it
    // to the reserved value 3.
    let pos = good.windows(3).position(|w| w[0] == 4 && w[1..3] == 10u16.to_le_bytes()).unwrap();
    let mut broken = good;
    broken[pos] = 3;
    assert!(matches!(
        BeatmapListing::from_bytes(&broken),
        Err(Error::UnknownRankedStatus { value: 3, .. })
    ));
}
