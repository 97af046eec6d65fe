//! Tests for score records, the lifebar micro-format, the replay blob
//! sentinel and the accuracy and grade arithmetic.

use osu_db_parser::common::{
    GameplayMode, Mods, WindowsDateTime, MOD_FLASHLIGHT, MOD_HIDDEN, MOD_SCORE_V2,
    MOD_TARGET_PRACTICE,
};
use osu_db_parser::error::Error;
use osu_db_parser::scores::{
    lifebar_graph, lifebar_graph_points, Grade, LifebarGraph, LifebarPoint, ScoreListing,
    ScoreReplay,
};

#[test]
fn lifebar_graph_parses_correctly() {
    let empty_bytes = vec![0x00];
    let zero_bytes = vec![0x0b, 0x00];

    let non_empty = "1676|1,3732|1,5805|1,7847|1,9909|1,";
    let mut non_empty_bytes = vec![0x0b, non_empty.len() as u8];
    non_empty_bytes.extend_from_slice(non_empty.as_bytes());

    // Parsing the empty and zero-length strings
    assert_eq!(lifebar_graph(&empty_bytes, 0), Ok((None, 1)));
    assert_eq!(
        lifebar_graph(&zero_bytes, 0),
        Ok((Some(LifebarGraph { points: Vec::new() }), 2))
    );

    // Parsing the non-empty string
    let (graph, rest) = lifebar_graph(&non_empty_bytes, 0).unwrap();
    assert_eq!(rest, non_empty_bytes.len());
    let graph = graph.unwrap();
    let times: Vec<u32> = graph.points.iter().map(|p| p.time).collect();
    assert_eq!(times, vec![1676, 3732, 5805, 7847, 9909]);
    for point in &graph.points {
        let health: f32 = String::from_utf8(point.health.clone()).unwrap().parse().unwrap();
        assert_eq!(health, 1.0);
    }
}

#[test]
fn lifebar_graph_display_is_correct() {
    let graph = LifebarGraph {
        points: vec![
            LifebarPoint { time: 1676, health: b"1".to_vec() },
            LifebarPoint { time: 3732, health: b"1".to_vec() },
            LifebarPoint { time: 5805, health: b"1".to_vec() },
            LifebarPoint { time: 7847, health: b"1".to_vec() },
            LifebarPoint { time: 9909, health: b"1".to_vec() },
        ],
    };

    assert_eq!(
        String::from_utf8(graph.to_text()).unwrap(),
        "1676|1,3732|1,5805|1,7847|1,9909|1,"
    );
}

#[test]
fn lifebar_round_trip_preserves_text() {
    // Parsing then re-serializing reproduces the identical string,
    // including fractional and negative health values.
    for text in [
        "1676|1,3732|1,5805|1,7847|1,9909|1,",
        "0|1,100|0.85,200|0.5,300|0,",
        "5|-0.25,10|1.5e2,",
        "",
    ] {
        let points = lifebar_graph_points(text.as_bytes());
        let graph = LifebarGraph { points };
        assert_eq!(String::from_utf8(graph.to_text()).unwrap(), text);
    }
}

#[test]
fn lifebar_parsing_is_greedy_and_tolerant() {
    // Text after the last complete pair is ignored, as is text that never
    // forms a pair.
    assert_eq!(lifebar_graph_points(b"12|0.5,junk").len(), 1);
    assert_eq!(lifebar_graph_points(b"12|0.5").len(), 0);
    assert_eq!(lifebar_graph_points(b"|1,").len(), 0);
    assert_eq!(lifebar_graph_points(b"abc").len(), 0);
    // A time that overflows a u32 stops the parse
    assert_eq!(lifebar_graph_points(b"99999999999999999999|1,").len(), 0);
}

/// Builds the bytes of one score record.
fn record_bytes(
    mode: u8,
    counts: [u16; 6],
    mods: u32,
    lifebar: Option<&str>,
    blob_len: u32,
    blob: &[u8],
    mod_info: Option<f64>,
) -> Vec<u8> {
    let mut d = Vec::new();
    d.push(mode);
    d.extend_from_slice(&20150203u32.to_le_bytes()); // record version
    d.push(0x00); // beatmap hash: absent
    d.push(0x0b); // player name
    d.push(0x03);
    d.extend_from_slice(b"abc");
    d.push(0x00); // replay hash: absent
    for c in counts {
        d.extend_from_slice(&c.to_le_bytes());
    }
    d.extend_from_slice(&1_000_000u32.to_le_bytes()); // score
    d.extend_from_slice(&42u16.to_le_bytes()); // max combo
    d.push(0x01); // perfect combo
    d.extend_from_slice(&mods.to_le_bytes());
    match lifebar {
        None => d.push(0x00),
        Some(text) => {
            d.push(0x0b);
            assert!(text.len() < 0x80);
            d.push(text.len() as u8);
            d.extend_from_slice(text.as_bytes());
        },
    }
    d.extend_from_slice(&638261550200000000u64.to_le_bytes()); // timestamp
    d.extend_from_slice(&blob_len.to_le_bytes());
    d.extend_from_slice(blob);
    d.extend_from_slice(&777u64.to_le_bytes()); // online score id
    if let Some(info) = mod_info {
        d.extend_from_slice(&info.to_le_bytes());
    }
    d
}

#[test]
fn score_replay_decodes_standalone_record() {
    let data = record_bytes(
        1,
        [5, 4, 3, 2, 1, 0],
        0,
        Some("10|1,"),
        3,
        b"xyz",
        None,
    );
    let record = ScoreReplay::from_bytes(&data).unwrap();
    assert_eq!(record.gameplay_mode, GameplayMode::Taiko);
    assert_eq!(record.version, 20150203);
    assert_eq!(record.beatmap_md5, None);
    assert_eq!(record.player_name, Some("abc".to_string()));
    assert_eq!(
        (record.hits_300, record.hits_100, record.hits_50),
        (5, 4, 3)
    );
    assert_eq!(
        (record.hits_geki, record.hits_katu, record.misses),
        (2, 1, 0)
    );
    assert_eq!(record.score, 1_000_000);
    assert_eq!(record.max_combo, 42);
    assert!(record.is_perfect_combo);
    assert_eq!(record.mods, Mods { bits: 0 });
    let graph = record.lifebar_graph.unwrap();
    assert_eq!(graph.points, vec![LifebarPoint { time: 10, health: b"1".to_vec() }]);
    assert_eq!(record.timestamp, WindowsDateTime { ticks: 638261550200000000 });
    assert_eq!(record.replay_data, Some(b"xyz".to_vec()));
    assert_eq!(record.online_score_id, 777);
    assert_eq!(record.additional_mod_info, None);
}

#[test]
fn target_practice_gates_the_mod_info_field() {
    // With the TargetPractice bit set the trailing supplement must be
    // present after decoding...
    let with = record_bytes(
        0,
        [1, 0, 0, 0, 0, 0],
        MOD_TARGET_PRACTICE,
        None,
        0xFFFF_FFFF,
        b"",
        Some(198.5),
    );
    let record = ScoreReplay::from_bytes(&with).unwrap();
    assert!(record.mods.contains(MOD_TARGET_PRACTICE));
    assert_eq!(record.additional_mod_info, Some(198.5f64.to_bits()));

    // ... and without the bit it must be absent.
    let without = record_bytes(0, [1, 0, 0, 0, 0, 0], 0, None, 0xFFFF_FFFF, b"", None);
    let record = ScoreReplay::from_bytes(&without).unwrap();
    assert!(!record.mods.contains(MOD_TARGET_PRACTICE));
    assert_eq!(record.additional_mod_info, None);

    // A record that claims TargetPractice but ends before the supplement
    // is truncated.
    let truncated = record_bytes(
        0,
        [1, 0, 0, 0, 0, 0],
        MOD_TARGET_PRACTICE,
        None,
        0xFFFF_FFFF,
        b"",
        None,
    );
    assert!(matches!(
        ScoreReplay::from_bytes(&truncated),
        Err(Error::UnexpectedEof { .. })
    ));
}

#[test]
fn replay_blob_sentinel_and_empty_blob_differ() {
    // The all-ones length means "no blob"...
    let none = record_bytes(0, [1, 0, 0, 0, 0, 0], 0, None, 0xFFFF_FFFF, b"", None);
    assert_eq!(ScoreReplay::from_bytes(&none).unwrap().replay_data, None);

    // ... while a zero length is a present-but-empty blob.
    let empty = record_bytes(0, [1, 0, 0, 0, 0, 0], 0, None, 0, b"", None);
    assert_eq!(ScoreReplay::from_bytes(&empty).unwrap().replay_data, Some(Vec::new()));
}

#[test]
fn score_listing_decodes_per_beatmap_arrays() {
    let record = record_bytes(0, [1, 0, 0, 0, 0, 0], 0, None, 0xFFFF_FFFF, b"", None);
    let mut d = Vec::new();
    d.extend_from_slice(&20150204u32.to_le_bytes());
    d.extend_from_slice(&1u32.to_le_bytes()); // one beatmap
    d.push(0x0b);
    d.push(0x03);
    d.extend_from_slice(b"md5");
    d.extend_from_slice(&2u32.to_le_bytes()); // two scores
    d.extend_from_slice(&record);
    d.extend_from_slice(&record);
    let listing = ScoreListing::from_bytes(&d).unwrap();
    assert_eq!(listing.version, 20150204);
    assert_eq!(listing.beatmap_scores.len(), 1);
    assert_eq!(listing.beatmap_scores[0].md5, Some("md5".to_string()));
    assert_eq!(listing.beatmap_scores[0].scores.len(), 2);
    assert_eq!(listing.beatmap_scores[0].scores[1].hits_300, 1);
}

/// A record with the given mode, judgement counts and modifier bits; the
/// remaining fields are fixed.
fn record(mode: GameplayMode, counts: [u16; 6], mods: u32) -> ScoreReplay {
    ScoreReplay {
        gameplay_mode: mode,
        version: 20150203,
        beatmap_md5: None,
        player_name: None,
        replay_md5: None,
        hits_300: counts[0],
        hits_100: counts[1],
        hits_50: counts[2],
        hits_geki: counts[3],
        hits_katu: counts[4],
        misses: counts[5],
        score: 0,
        max_combo: 0,
        is_perfect_combo: false,
        mods: Mods { bits: mods },
        lifebar_graph: None,
        timestamp: WindowsDateTime { ticks: 0 },
        replay_data: None,
        online_score_id: 0,
        additional_mod_info: None,
    }
}

#[test]
fn standard_perfect_record_grades_ss_and_silver_ss() {
    // 300s only: always SS, whatever the other fields hold
    let perfect = record(GameplayMode::Standard, [17, 0, 0, 9, 9, 0], 0);
    assert_eq!(perfect.grade(), Grade::SS);
    let (num, den) = perfect.accuracy_fraction();
    assert!(den > 0);
    assert_eq!(num, 100 * den); // accuracy is exactly 100%

    // Adding Hidden turns the grade silver and leaves accuracy unchanged
    let hidden = record(GameplayMode::Standard, [17, 0, 0, 9, 9, 0], MOD_HIDDEN);
    assert_eq!(hidden.grade(), Grade::SilverSS);
    assert_eq!(hidden.accuracy_fraction(), (num, den));
}

#[test]
fn standard_grade_ladder() {
    // 90% 300s, no misses, no 50s: S; with Flashlight: silver S
    assert_eq!(record(GameplayMode::Standard, [9, 1, 0, 0, 0, 0], 0).grade(), Grade::S);
    assert_eq!(
        record(GameplayMode::Standard, [9, 1, 0, 0, 0, 0], MOD_FLASHLIGHT).grade(),
        Grade::SilverS
    );
    // 90% 300s but with a miss: A (the silver promotion leaves it alone)
    assert_eq!(record(GameplayMode::Standard, [18, 1, 0, 0, 0, 1], MOD_HIDDEN).grade(), Grade::A);
    // 80% 300s, no misses: A
    assert_eq!(record(GameplayMode::Standard, [8, 2, 0, 0, 0, 0], 0).grade(), Grade::A);
    // 70% 300s, no misses: B
    assert_eq!(record(GameplayMode::Standard, [7, 3, 0, 0, 0, 0], 0).grade(), Grade::B);
    // 60% 300s: C
    assert_eq!(record(GameplayMode::Standard, [6, 2, 0, 0, 0, 2], 0).grade(), Grade::C);
    // Anything less: D
    assert_eq!(record(GameplayMode::Standard, [1, 9, 0, 0, 0, 0], 0).grade(), Grade::D);
    // More than 1% 50s blocks the S
    assert_eq!(record(GameplayMode::Standard, [95, 0, 5, 0, 0, 0], 0).grade(), Grade::A);
    // A record with no objects at all grades D
    assert_eq!(record(GameplayMode::Standard, [0, 0, 0, 0, 0, 0], 0).grade(), Grade::D);
}

#[test]
fn taiko_grade_and_accuracy() {
    // Taiko SS needs greats only
    assert_eq!(record(GameplayMode::Taiko, [5, 0, 0, 0, 0, 0], 0).grade(), Grade::SS);
    // 90% greats without misses: S
    assert_eq!(record(GameplayMode::Taiko, [9, 1, 0, 0, 0, 0], 0).grade(), Grade::S);
    // Accuracy: (greats + goods/2) / total; the 50 counter is unused
    let r = record(GameplayMode::Taiko, [3, 1, 7, 0, 0, 1], 0);
    // (3 + 0.5) / 5 = 70%
    assert_eq!(r.accuracy_fraction(), (100 * (2 * 3 + 1), 2 * (3 + 1 + 1)));
}

#[test]
fn catch_grade_uses_strict_thresholds() {
    // No missed fruits or droplets: SS even with plain hits
    assert_eq!(record(GameplayMode::Catch, [1, 2, 3, 0, 0, 0], 0).grade(), Grade::SS);
    // Exactly 98% caught is not an S (the threshold is strict): 49 of 50
    assert_eq!(record(GameplayMode::Catch, [49, 0, 0, 0, 0, 1], 0).grade(), Grade::A);
    // Just above 98%: S
    assert_eq!(record(GameplayMode::Catch, [99, 0, 0, 0, 0, 1], 0).grade(), Grade::S);
    // Missed droplets (katu) block the SS and join the denominator
    let r = record(GameplayMode::Catch, [9, 0, 0, 0, 1, 0], 0);
    assert_eq!(r.accuracy_fraction(), (100 * 9, 10));
    assert_eq!(r.grade(), Grade::C); // exactly 90% is not > 90, but > 85
}

#[test]
fn mania_grade_depends_on_score_version() {
    // Without ScoreV2, rainbow 300s or plain 300s alone give SS
    assert_eq!(record(GameplayMode::Mania, [4, 0, 0, 6, 0, 0], 0).grade(), Grade::SS);
    // With ScoreV2, only rainbow 300s count for SS
    assert_eq!(
        record(GameplayMode::Mania, [0, 0, 0, 6, 0, 0], MOD_SCORE_V2).grade(),
        Grade::SS
    );
    // With ScoreV2, plain 300s alone are not an SS; their 100% accuracy
    // lands on the inclusive 95% threshold instead, an S (silver S under
    // a silver modifier)
    assert_eq!(
        record(GameplayMode::Mania, [61, 0, 0, 0, 0, 0], MOD_SCORE_V2).grade(),
        Grade::S
    );
    assert_eq!(
        record(GameplayMode::Mania, [61, 0, 0, 0, 0, 0], MOD_SCORE_V2 | MOD_HIDDEN).grade(),
        Grade::SilverS
    );
    // Inclusive thresholds: exactly 95% is an S
    let r = record(GameplayMode::Mania, [0, 0, 0, 19, 0, 1], MOD_SCORE_V2);
    assert_eq!(r.accuracy_fraction(), (100 * 300 * 19, 300 * 20));
    assert_eq!(r.grade(), Grade::S);
    // Weighted accuracy: gekis at 305 without ScoreV2
    let r = record(GameplayMode::Mania, [0, 0, 0, 1, 0, 1], 0);
    assert_eq!(r.accuracy_fraction(), (100 * 305, 305 * 2));
    assert_eq!(r.grade(), Grade::D); // 50%
}
