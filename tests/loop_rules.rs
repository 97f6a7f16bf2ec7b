use clrays::state::{
    next_reduced_rate, next_render_mode, set_key_bindings, start_aa, toggled_aa, RenderMode,
    KEYS_AMOUNT,
};

#[test]
fn movement_reduces_then_one_full_frame() {
    assert_eq!(next_render_mode(true, RenderMode::Full), RenderMode::Reduced);
    assert_eq!(next_render_mode(true, RenderMode::Idle), RenderMode::Reduced);
    assert_eq!(next_render_mode(false, RenderMode::Reduced), RenderMode::Full);
    assert_eq!(next_render_mode(false, RenderMode::Full), RenderMode::Idle);
    assert_eq!(next_render_mode(false, RenderMode::Idle), RenderMode::Idle);
}

#[test]
fn focus_mode_switches_sample_count() {
    assert_eq!(start_aa(true, 4), 4);
    assert_eq!(start_aa(false, 4), 1);
    assert_eq!(toggled_aa(1, 4), 4);
    assert_eq!(toggled_aa(4, 4), 1);
}

#[test]
fn slow_reduced_frames_raise_the_rate() {
    assert_eq!(next_reduced_rate(RenderMode::Reduced, true, 2), 3);
    assert_eq!(next_reduced_rate(RenderMode::Reduced, false, 2), 2);
    assert_eq!(next_reduced_rate(RenderMode::Full, true, 2), 2);
}

#[test]
fn key_bindings_follow_presses() {
    let mut keys = [false; KEYS_AMOUNT];
    let mut map = [0i32; KEYS_AMOUNT];
    for (i, m) in map.iter_mut().enumerate() {
        *m = 100 + i as i32;
    }
    map[5] = 100;
    set_key_bindings(&mut keys, &map, 100, true);
    assert!(keys[0] && keys[5]);
    assert_eq!(keys.iter().filter(|k| **k).count(), 2);
    set_key_bindings(&mut keys, &map, 100, false);
    assert_eq!(keys, [false; KEYS_AMOUNT]);
    set_key_bindings(&mut keys, &map, 7, true);
    assert_eq!(keys, [false; KEYS_AMOUNT]);
}
