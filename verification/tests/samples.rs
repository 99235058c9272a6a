use vibemusic::samples::{apply_volume, mix_chunk, mix_sample, VOLUME_UNIT};

#[test]
fn unity_volume_is_identity() {
    assert_eq!(apply_volume(0, VOLUME_UNIT), 0);
    assert_eq!(apply_volume(1234, VOLUME_UNIT), 1234);
    assert_eq!(apply_volume(-1234, VOLUME_UNIT), -1234);
    assert_eq!(apply_volume(i32::MAX, VOLUME_UNIT), i32::MAX);
    assert_eq!(apply_volume(i32::MIN, VOLUME_UNIT), i32::MIN);
}

#[test]
fn half_volume_halves_magnitude() {
    assert_eq!(apply_volume(1000, VOLUME_UNIT / 2), 500);
    assert_eq!(apply_volume(-1000, VOLUME_UNIT / 2), -500);
    assert_eq!(apply_volume(9, VOLUME_UNIT / 2), 4);
    assert_eq!(apply_volume(-9, VOLUME_UNIT / 2), -4);
    assert_eq!(apply_volume(1, VOLUME_UNIT / 2), 0);
}

#[test]
fn zero_volume_silences() {
    assert_eq!(apply_volume(i32::MAX, 0), 0);
    assert_eq!(apply_volume(i32::MIN, 0), 0);
}

#[test]
fn boosted_volume_clamps_at_the_rails() {
    assert_eq!(apply_volume(i32::MAX, 2 * VOLUME_UNIT), i32::MAX);
    assert_eq!(apply_volume(i32::MIN, 2 * VOLUME_UNIT), i32::MIN);
    assert_eq!(apply_volume(1000, 2 * VOLUME_UNIT), 2000);
    assert_eq!(apply_volume(-1000, 3 * VOLUME_UNIT / 2), -1500);
}

#[test]
fn mix_starts_fully_outgoing() {
    assert_eq!(mix_sample(100, 2000, 0, 3000), 100);
    assert_eq!(mix_sample(-100, 2000, 0, 3000), -100);
}

#[test]
fn mix_ends_fully_incoming() {
    assert_eq!(mix_sample(100, 2000, 3000, 3000), 2000);
    assert_eq!(mix_sample(100, -2000, 3000, 3000), -2000);
}

#[test]
fn mix_midpoint_is_the_average() {
    assert_eq!(mix_sample(0, 100, 1500, 3000), 50);
    assert_eq!(mix_sample(-100, 100, 1500, 3000), 0);
}

#[test]
fn mix_is_monotone_in_elapsed_time() {
    let mut prev = mix_sample(-500, 700, 0, 1000);
    for e in 1..=1000u64 {
        let cur = mix_sample(-500, 700, e, 1000);
        assert!(cur >= prev, "mix ratio regressed at elapsed {}", e);
        prev = cur;
    }
    assert_eq!(prev, 700);
}

#[test]
fn mix_chunk_is_driven_by_the_incoming_chunk() {
    let outgoing = vec![100i32; 2];
    let incoming = vec![200i32; 5];
    let out = mix_chunk(&outgoing, &incoming, 1500, 3000);
    assert_eq!(out.len(), 5);
    // Where the outgoing chunk ended early it counts as silence.
    assert_eq!(out, vec![150, 150, 100, 100, 100]);
}

#[test]
fn mix_chunk_of_empty_incoming_is_empty() {
    let outgoing = vec![100i32; 4];
    let out = mix_chunk(&outgoing, &Vec::new(), 10, 3000);
    assert_eq!(out.len(), 0);
}
