use sony_anc::device::device_matches;
use sony_anc::anc::{
    anc_set_command, anc_state_of, bands_of, equalizer_set_command, state_or_default,
    voice_override, AncCliMode, AncState, CliCustomPreset, CliEqualizerPreset, CycleDirection,
    cycle_mode, merge_bands, ambient_level_for, ambient_params,
};
use sony_anc::command::{build_command, AncMode, Command, EqualizerPreset};
use sony_anc::output::{
    battery_output, codec_output, equalizer_output, error_output, pressure_output,
    status_output,
};
use sony_anc::payload::{BatteryLevel, Codec, Payload};
use sony_anc::watch::{emit_anc_if_changed, WatchState};

#[test]
fn cycling_back_and_forth_returns_to_start() {
    for m in [AncCliMode::Anc, AncCliMode::Off, AncCliMode::Ambient] {
        let there = cycle_mode(m, CycleDirection::Next);
        assert_ne!(there, m);
        assert_eq!(cycle_mode(there, CycleDirection::Prev), m);
        let mut x = m;
        for _ in 0..3 {
            x = cycle_mode(x, CycleDirection::Prev);
        }
        assert_eq!(x, m);
    }
}

#[test]
fn ambient_level_bounds() {
    for l in [0u8, 1, 20, 21, 255] {
        let r = ambient_level_for(l);
        assert!((1..=20).contains(&r));
        assert_eq!(ambient_params(AncCliMode::Ambient, l, Some(255), None).0, 20);
    }
    assert_eq!(ambient_level_for(20), 20);
    assert_eq!(ambient_level_for(21), 20);
}

#[test]
fn merging_twice_is_merging_once() {
    let base = [1i8, -2, 3, -4, 5, -6];
    let overrides = [None, Some(7), None, Some(-7), None, None];
    let once = merge_bands(base, overrides);
    assert_eq!(once, [1, 7, 3, -7, 5, -6]);
    assert_eq!(merge_bands(once, overrides), once);
}

#[test]
fn mode_names_convert_both_ways() {
    for m in [AncCliMode::Anc, AncCliMode::Off, AncCliMode::Ambient] {
        assert_eq!(AncCliMode::from_anc_mode(m.to_anc_mode()), m);
    }
    assert_eq!(AncCliMode::Anc.to_anc_mode(), AncMode::ActiveNoiseCanceling);
    assert_eq!(AncCliMode::Ambient.to_anc_mode(), AncMode::AmbientSound);
    assert_eq!(AncCliMode::Off.to_anc_mode(), AncMode::Off);
}

#[test]
fn preset_conversions() {
    assert_eq!(CliEqualizerPreset::TrebleBoost.to_preset(), EqualizerPreset::TrebleBoost);
    assert_eq!(CliEqualizerPreset::Speech.to_preset(), EqualizerPreset::Speech);
    assert_eq!(CliCustomPreset::Manual.to_preset(), EqualizerPreset::Manual);
    assert_eq!(CliCustomPreset::Custom2.to_preset(), EqualizerPreset::Custom2);
    assert!(CliCustomPreset::Custom1.to_preset().is_customizable());
    assert!(!CliEqualizerPreset::Off.to_preset().is_customizable());
}

#[test]
fn set_flags_and_fallbacks() {
    assert_eq!(voice_override(true, false), Some(true));
    assert_eq!(voice_override(false, true), Some(false));
    assert_eq!(voice_override(false, false), None);
    let reported = AncState { mode: AncCliMode::Off, ambient_level: 4 };
    assert_eq!(state_or_default(Some(reported), AncCliMode::Ambient), reported);
    assert_eq!(
        state_or_default(None, AncCliMode::Ambient),
        AncState { mode: AncCliMode::Ambient, ambient_level: 10 }
    );
}

#[test]
fn mode_switch_commands() {
    let cmd = anc_set_command(AncCliMode::Ambient, 0, None, None);
    assert_eq!(
        cmd,
        Command::AncSet {
            dragging_ambient_sound_slider: false,
            mode: AncMode::AmbientSound,
            ambient_sound_voice_passthrough: true,
            ambient_sound_level: 10,
        }
    );
    let cmd = anc_set_command(AncCliMode::Anc, 15, Some(3), Some(true));
    assert_eq!(
        cmd,
        Command::AncSet {
            dragging_ambient_sound_slider: false,
            mode: AncMode::ActiveNoiseCanceling,
            ambient_sound_voice_passthrough: false,
            ambient_sound_level: 0,
        }
    );
    assert!(build_command(&anc_set_command(AncCliMode::Ambient, 200, Some(200), None), 0).is_ok());
}

#[test]
fn equalizer_band_commands() {
    let current = Payload::Equalizer {
        preset: EqualizerPreset::Manual,
        clear_bass: 1,
        band_400: 2,
        band_1000: 3,
        band_2500: 4,
        band_6300: 5,
        band_16000: 6,
    };
    assert_eq!(bands_of(&current), [1, 2, 3, 4, 5, 6]);
    assert_eq!(bands_of(&Payload::InitReply), [0; 6]);
    let cmd = equalizer_set_command(
        EqualizerPreset::Custom1,
        &current,
        [Some(3), None, None, None, None, None],
    );
    assert_eq!(
        cmd,
        Command::ChangeEqualizerSetting {
            preset: EqualizerPreset::Custom1,
            bass_level: 3,
            band_400: 2,
            band_1000: 3,
            band_2500: 4,
            band_6300: 5,
            band_16000: 6,
        }
    );
    let cmd = equalizer_set_command(EqualizerPreset::Manual, &Payload::InitReply, [None; 6]);
    assert_eq!(
        cmd,
        Command::ChangeEqualizerSetting {
            preset: EqualizerPreset::Manual,
            bass_level: 0,
            band_400: 0,
            band_1000: 0,
            band_2500: 0,
            band_6300: 0,
            band_16000: 0,
        }
    );
}

#[test]
fn status_lines() {
    let out = status_output(Some(AncState { mode: AncCliMode::Anc, ambient_level: 0 }));
    assert_eq!(out.text, "\u{f025}");
    assert_eq!(out.tooltip, "ANC: Anc");
    assert_eq!(out.class, "anc");
    let out = status_output(Some(AncState { mode: AncCliMode::Ambient, ambient_level: 3 }));
    assert_eq!((out.text.as_str(), out.tooltip.as_str(), out.class.as_str()), ("\u{f028}", "ANC: Ambient", "ambient"));
    let out = status_output(Some(AncState { mode: AncCliMode::Off, ambient_level: 3 }));
    assert_eq!((out.text.as_str(), out.tooltip.as_str(), out.class.as_str()), ("\u{f05e}", "ANC: Off", "anc-off"));
    let out = status_output(None);
    assert_eq!(out.text, "");
    assert_eq!(out.tooltip, "WF-1000XM5 not connected");
    assert_eq!(out.class, "disconnected");
}

#[test]
fn battery_lines() {
    let out = battery_output(
        BatteryLevel::Headphones { left: 80, right: 85 },
        BatteryLevel::Case(75),
    );
    assert_eq!(out.text, "L:80% R:85%");
    assert_eq!(out.tooltip, "Left: 80%\nRight: 85%\nCase: 75%");
    assert_eq!(out.class, "battery");
    let out = battery_output(BatteryLevel::Case(5), BatteryLevel::Headphones { left: 0, right: 100 });
    assert_eq!(out.text, format!("{:?}", BatteryLevel::Case(5)));
    assert_eq!(
        out.tooltip,
        format!(
            "Headphones: {:?}\nCase: {:?}",
            BatteryLevel::Case(5),
            BatteryLevel::Headphones { left: 0, right: 100 }
        )
    );
}

#[test]
fn pressure_and_codec_lines() {
    let out = pressure_output(66);
    assert_eq!(out.text, "66 dB");
    assert_eq!(out.tooltip, "Sound pressure: 66 dB");
    assert_eq!(out.class, "pressure");
    assert_eq!(pressure_output(0).text, "0 dB");
    assert_eq!(pressure_output(1234567).text, "1234567 dB");
    let out = codec_output(Codec::AptxHd);
    assert_eq!(out.text, "APTX HD");
    assert_eq!(out.tooltip, "Codec: APTX HD");
    assert_eq!(out.class, "codec");
}

#[test]
fn equalizer_lines() {
    let out = equalizer_output(&Payload::Equalizer {
        preset: EqualizerPreset::Bright,
        clear_bass: 2,
        band_400: 0,
        band_1000: -10,
        band_2500: 10,
        band_6300: -128,
        band_16000: -3,
    });
    assert_eq!(out.text, "Bright");
    assert_eq!(
        out.tooltip,
        "Preset: Bright\nBass: +2\n400Hz: +0\n1kHz: -10\n2.5kHz: +10\n6.3kHz: -128\n16kHz: -3"
    );
    assert_eq!(out.class, "equalizer");
    let out = equalizer_output(&Payload::InitReply);
    assert_eq!(out.text, "EQ");
    assert_eq!(out.tooltip, "Unknown equalizer state");
}

#[test]
fn error_line() {
    let out = error_output("no init reply from device");
    assert_eq!(out.text, "ERR");
    assert_eq!(out.tooltip, "sony-anc: no init reply from device");
    assert_eq!(out.class, "error");
}

#[test]
fn status_from_payload() {
    let p = Payload::AncStatus {
        mode: AncMode::AmbientSound,
        ambient_sound_voice_passthrough: false,
        ambient_sound_level: 7,
    };
    assert_eq!(
        anc_state_of(&p),
        Some(AncState { mode: AncCliMode::Ambient, ambient_level: 7 })
    );
    assert_eq!(anc_state_of(&Payload::Codec { codec: Codec::Sbc }), None);
}

#[test]
fn emit_dedupes_repeated_modes() {
    let mut last = None;
    let anc = AncState { mode: AncCliMode::Anc, ambient_level: 1 };
    assert!(emit_anc_if_changed(&mut last, None).is_none());
    let line = emit_anc_if_changed(&mut last, Some(anc)).expect("mode changed");
    assert_eq!(line.class, "anc");
    assert_eq!(last, Some(AncCliMode::Anc));
    assert!(emit_anc_if_changed(&mut last, Some(anc)).is_none());
    assert!(emit_anc_if_changed(&mut last, Some(AncState { ambient_level: 9, ..anc })).is_none());
    let line = emit_anc_if_changed(&mut last, None).expect("disconnected");
    assert_eq!(line.class, "disconnected");
    assert_eq!(last, None);
}

#[test]
fn watch_state_events() {
    let (mut w, first) = WatchState::start();
    assert_eq!(first.class, "disconnected");
    // The startup line already shows the disconnected state.
    assert!(w.on_disconnect().is_none());
    assert_eq!(w.cycle_request(CycleDirection::Next), (AncCliMode::Ambient, 10));
    let s = AncState { mode: AncCliMode::Off, ambient_level: 14 };
    assert_eq!(w.on_status(s).expect("changed").class, "anc-off");
    assert_eq!(w.current_level, 14);
    assert!(w.on_status(AncState { ambient_level: 3, ..s }).is_none());
    assert_eq!(w.current_level, 3);
    assert_eq!(w.cycle_request(CycleDirection::Prev), (AncCliMode::Ambient, 3));
    assert_eq!(w.on_disconnect().expect("changed").class, "disconnected");
    assert_eq!(w.current_level, 3);
}

#[test]
fn device_selection() {
    let addr = "AA:BB:CC:DD:EE:FF";
    assert!(device_matches(None, Some("Sony WF-1000XM5"), addr));
    assert!(!device_matches(None, Some("wf-1000xm5"), addr));
    assert!(!device_matches(None, None, addr));
    assert!(device_matches(Some("wf-1000"), Some("WF-1000XM5"), addr));
    assert!(!device_matches(Some("xm4"), Some("WF-1000XM5"), addr));
    assert!(!device_matches(Some("wf"), None, addr));
    assert!(device_matches(Some("aa:bb:cc:dd:ee:ff"), None, addr));
    assert!(!device_matches(Some("aa:bb:cc:dd:ee"), Some("WF-1000XM5"), addr));
    assert!(device_matches(Some(""), Some("anything"), addr));
}

#[test]
fn watch_never_shows_the_same_line_twice() {
    let (mut w, first) = WatchState::start();
    let mut lines = vec![first];
    let anc = AncState { mode: AncCliMode::Anc, ambient_level: 2 };
    let off = AncState { mode: AncCliMode::Off, ambient_level: 2 };
    let events = [None, Some(anc), Some(anc), None, None, Some(off), Some(anc), Some(anc)];
    for e in events {
        let line = match e {
            Some(s) => w.on_status(s),
            None => w.on_disconnect(),
        };
        if let Some(l) = line {
            lines.push(l);
        }
    }
    assert_eq!(lines.len(), 5);
    for pair in lines.windows(2) {
        assert!(pair[0].class != pair[1].class);
    }
}
