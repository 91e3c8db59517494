use sony_anc::anc::{
    ambient_level_for, ambient_params, cycle_mode, merge_bands, should_emit, AncCliMode,
    CycleDirection, DEFAULT_AMBIENT_LEVEL,
};

#[test]
fn ambient_level_defaults_when_zero() {
    assert_eq!(ambient_level_for(0), DEFAULT_AMBIENT_LEVEL);
}

#[test]
fn ambient_level_clamps_to_twenty() {
    assert_eq!(ambient_level_for(25), 20);
}

#[test]
fn ambient_level_passes_through() {
    assert_eq!(ambient_level_for(15), 15);
}

#[test]
fn cycle_next_rotates_anc_ambient_off() {
    assert_eq!(
        cycle_mode(AncCliMode::Anc, CycleDirection::Next),
        AncCliMode::Ambient
    );
    assert_eq!(
        cycle_mode(AncCliMode::Ambient, CycleDirection::Next),
        AncCliMode::Off
    );
    assert_eq!(
        cycle_mode(AncCliMode::Off, CycleDirection::Next),
        AncCliMode::Anc
    );
}

#[test]
fn cycle_prev_rotates_reverse() {
    assert_eq!(
        cycle_mode(AncCliMode::Anc, CycleDirection::Prev),
        AncCliMode::Off
    );
    assert_eq!(
        cycle_mode(AncCliMode::Off, CycleDirection::Prev),
        AncCliMode::Ambient
    );
    assert_eq!(
        cycle_mode(AncCliMode::Ambient, CycleDirection::Prev),
        AncCliMode::Anc
    );
}

#[test]
fn ambient_params_defaults() {
    assert_eq!(
        ambient_params(AncCliMode::Ambient, 0, None, None),
        (DEFAULT_AMBIENT_LEVEL, true)
    );
    assert_eq!(
        ambient_params(AncCliMode::Ambient, 15, None, None),
        (15, true)
    );
}

#[test]
fn ambient_params_overrides() {
    assert_eq!(
        ambient_params(AncCliMode::Ambient, 0, Some(7), None),
        (7, true)
    );
    assert_eq!(
        ambient_params(AncCliMode::Ambient, 0, Some(50), None),
        (20, true)
    ); // clamped
    assert_eq!(
        ambient_params(AncCliMode::Ambient, 0, None, Some(false)),
        (DEFAULT_AMBIENT_LEVEL, false)
    );
}

#[test]
fn ambient_params_non_ambient_modes_zeroed() {
    assert_eq!(
        ambient_params(AncCliMode::Anc, 15, Some(7), Some(true)),
        (0, false)
    );
    assert_eq!(
        ambient_params(AncCliMode::Off, 15, Some(7), Some(true)),
        (0, false)
    );
}

#[test]
fn merge_bands_applies_only_overrides() {
    let base = [1i8, 2, 3, 4, 5, 6];
    let overrides = [Some(9), None, None, None, None, Some(-9)];
    assert_eq!(merge_bands(base, overrides), [9, 2, 3, 4, 5, -9]);
}

#[test]
fn merge_bands_no_overrides_keeps_base() {
    let base = [0i8, 0, 0, 0, 0, 0];
    assert_eq!(merge_bands(base, [None; 6]), base);
}

#[test]
fn should_emit_only_on_change() {
    assert!(should_emit(None, Some(AncCliMode::Anc)));
    assert!(should_emit(Some(AncCliMode::Anc), Some(AncCliMode::Off)));
    assert!(should_emit(Some(AncCliMode::Anc), None));
    assert!(!should_emit(Some(AncCliMode::Anc), Some(AncCliMode::Anc)));
    assert!(!should_emit(None, None));
}
