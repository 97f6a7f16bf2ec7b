use clrays::texture::{
    texture_index, texture_table_sound, tx_get_height, tx_get_sample, tx_get_scalar, tx_get_start,
    tx_get_width,
};

fn atlas() -> (Vec<u32>, Vec<u8>) {
    // texture 0: 2x1 at byte 0; texture 1: 1x2 at byte 6
    let tps = vec![0, 2, 1, 6, 1, 2];
    let ts: Vec<u8> = (0u8..12).map(|b| b * 10).collect();
    (tps, ts)
}

#[test]
fn table_entries_are_read_in_triples() {
    let (tps, _) = atlas();
    assert_eq!(tx_get_start(0, &tps), 0);
    assert_eq!(tx_get_width(0, &tps), 2);
    assert_eq!(tx_get_height(0, &tps), 1);
    assert_eq!(tx_get_start(1, &tps), 6);
    assert_eq!(tx_get_width(1, &tps), 1);
    assert_eq!(tx_get_height(1, &tps), 2);
}

#[test]
fn sample_reads_three_bytes_per_texel() {
    let (tps, ts) = atlas();
    assert_eq!(tx_get_sample(0, &tps, &ts, 0, 0, 2), (0, 10, 20));
    assert_eq!(tx_get_sample(0, &tps, &ts, 1, 0, 2), (30, 40, 50));
    assert_eq!(tx_get_sample(1, &tps, &ts, 0, 1, 1), (90, 100, 110));
}

#[test]
fn scalar_reads_first_channel_of_texel() {
    let (tps, ts) = atlas();
    assert_eq!(tx_get_scalar(1, &tps, &ts, 0, 0, 1), 60);
    assert_eq!(tx_get_scalar(1, &tps, &ts, 0, 1, 1), 90);
    assert_eq!(tx_get_scalar(0, &tps, &ts, 1, 0, 2), 30);
}

#[test]
fn slot_zero_names_no_texture() {
    assert_eq!(texture_index(0), None);
    assert_eq!(texture_index(1), Some(0));
    assert_eq!(texture_index(7), Some(6));
    assert_eq!(texture_index(u32::MAX), Some(u32::MAX - 1));
}

#[test]
fn table_check_accepts_textures_inside_the_pool() {
    let (tps, ts) = atlas();
    assert!(texture_table_sound(&tps, ts.len()));
    assert!(texture_table_sound(&[], 0));
}

#[test]
fn table_check_rejects_overlapping_textures() {
    // texture 1 starts inside texture 0
    assert!(!texture_table_sound(&[0, 2, 1, 3, 1, 1], 100));
    // empty textures overlap nothing
    assert!(texture_table_sound(&[0, 0, 5, 0, 2, 1], 6));
    assert!(texture_table_sound(&[6, 1, 1, 0, 2, 1], 9));
}

#[test]
fn table_check_rejects_textures_past_the_pool() {
    let (tps, ts) = atlas();
    assert!(!texture_table_sound(&tps, ts.len() - 1));
    assert!(!texture_table_sound(&[0, 2], 100));
    assert!(!texture_table_sound(&[0, 70000, 70000], usize::MAX));
}

#[test]
fn every_texel_of_a_sound_table_can_be_sampled() {
    let (tps, ts) = atlas();
    assert!(texture_table_sound(&tps, ts.len()));
    let mut seen = Vec::new();
    for tex in 0..2u32 {
        let w = tx_get_width(tex, &tps);
        for y in 0..tx_get_height(tex, &tps) {
            for x in 0..w {
                let (r, g, b) = tx_get_sample(tex, &tps, &ts, x, y, w);
                seen.extend([r, g, b]);
            }
        }
    }
    assert_eq!(seen, ts);
}
