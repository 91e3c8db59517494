use vstd::prelude::*;

use crate::anc::{AncCliMode, AncState};
use crate::command::{preset_of, EqualizerPreset};
use crate::payload::{codec_name, BatteryLevel, Codec, Payload};

verus! {

/// One line of status-bar output: the text shown, its tooltip and a CSS class.
#[derive(Debug)]
pub struct WaybarOutput {
    pub text: String,
    pub tooltip: String,
    pub class: String,
}

impl View for WaybarOutput {
    type V = (Seq<char>, Seq<char>, Seq<char>);

    /// The text, tooltip and class, in that order.
    open spec fn view(&self) -> (Seq<char>, Seq<char>, Seq<char>) {
        (self.text@, self.tooltip@, self.class@)
    }
}

/// The decimal digit character for `d < 10`.
pub open spec fn digit_char(d: nat) -> char {
    if d == 0 {
        '0'
    } else if d == 1 {
        '1'
    } else if d == 2 {
        '2'
    } else if d == 3 {
        '3'
    } else if d == 4 {
        '4'
    } else if d == 5 {
        '5'
    } else if d == 6 {
        '6'
    } else if d == 7 {
        '7'
    } else if d == 8 {
        '8'
    } else {
        '9'
    }
}

/// The decimal notation of `n`, most significant digit first, without
/// leading zeros.
pub open spec fn decimal(n: nat) -> Seq<char>
    decreases n,
{
    if n < 10 {
        seq![digit_char(n)]
    } else {
        decimal(n / 10) + seq![digit_char(n % 10)]
    }
}

/// The notation of a signed value with its sign always written: "+3", "+0", "-7".
pub open spec fn signed_decimal(v: int) -> Seq<char> {
    if v >= 0 {
        seq!['+'] + decimal(v as nat)
    } else {
        seq!['-'] + decimal((-v) as nat)
    }
}

fn digit_str(d: usize) -> (s: &'static str)
    requires
        d < 10,
    ensures
        s@ == seq![digit_char(d as nat)],
{
    proof {
        reveal_strlit("0");
        reveal_strlit("1");
        reveal_strlit("2");
        reveal_strlit("3");
        reveal_strlit("4");
        reveal_strlit("5");
        reveal_strlit("6");
        reveal_strlit("7");
        reveal_strlit("8");
        reveal_strlit("9");
    }
    match d {
        0 => "0",
        1 => "1",
        2 => "2",
        3 => "3",
        4 => "4",
        5 => "5",
        6 => "6",
        7 => "7",
        8 => "8",
        _ => "9",
    }
}

/// Appends the decimal notation of `n`.
fn push_decimal(s: &mut String, n: usize)
    ensures
        final(s)@ == old(s)@ + decimal(n as nat),
    decreases n,
{
    if n >= 10 {
        push_decimal(s, n / 10);
    }
    s.append(digit_str(n % 10));
    proof {
        if n >= 10 {
            assert(old(s)@ + decimal((n / 10) as nat) + seq![digit_char((n % 10) as nat)]
                =~= old(s)@ + decimal(n as nat));
        } else {
            assert(old(s)@ + seq![digit_char((n % 10) as nat)] =~= old(s)@ + decimal(n as nat));
        }
    }
}

/// Appends a signed value with its sign always written.
fn push_signed(s: &mut String, v: i8)
    ensures
        final(s)@ == old(s)@ + signed_decimal(v as int),
{
    proof {
        reveal_strlit("+");
        reveal_strlit("-");
    }
    if v >= 0 {
        s.append("+");
        push_decimal(s, v as usize);
        assert(final(s)@ =~= old(s)@ + signed_decimal(v as int));
    } else {
        s.append("-");
        let magnitude: usize = (0 - (v as i16)) as usize;
        push_decimal(s, magnitude);
        assert(final(s)@ =~= old(s)@ + signed_decimal(v as int));
    }
}

/// A string holding the given text.
fn text(s: &str) -> (out: String)
    ensures
        out@ == s@,
{
    String::from_str(s)
}

/// The icon text, tooltip and class shown for a mode.
pub open spec fn mode_text(m: AncCliMode) -> Seq<char> {
    match m {
        AncCliMode::Anc => seq!['\u{f025}'],
        AncCliMode::Ambient => seq!['\u{f028}'],
        AncCliMode::Off => seq!['\u{f05e}'],
    }
}

pub open spec fn mode_tooltip(m: AncCliMode) -> Seq<char> {
    match m {
        AncCliMode::Anc => "ANC: Anc"@,
        AncCliMode::Ambient => "ANC: Ambient"@,
        AncCliMode::Off => "ANC: Off"@,
    }
}

pub open spec fn mode_class(m: AncCliMode) -> Seq<char> {
    match m {
        AncCliMode::Anc => "anc"@,
        AncCliMode::Ambient => "ambient"@,
        AncCliMode::Off => "anc-off"@,
    }
}

/// The status line for a noise-control state; `None` is the disconnected
/// earbuds, shown with empty text.
pub open spec fn status_line(state: Option<AncState>) -> (Seq<char>, Seq<char>, Seq<char>) {
    match state {
        Some(s) => (mode_text(s.mode), mode_tooltip(s.mode), mode_class(s.mode)),
        None => (Seq::<char>::empty(), "WF-1000XM5 not connected"@, "disconnected"@),
    }
}

/// The status line for a noise-control state; `None` is the disconnected
/// earbuds, shown with empty text.
pub fn status_output(state: Option<AncState>) -> (out: WaybarOutput)
    ensures
        out@ == status_line(state),
{
    match state {
        Some(state) => {
            proof {
                reveal_strlit("\u{f025}");
                reveal_strlit("\u{f028}");
                reveal_strlit("\u{f05e}");
            }
            // Icons from the common Font Awesome set that ships with Nerd Fonts.
            let (icon, tooltip, class) = match state.mode {
                AncCliMode::Anc => (text("\u{f025}"), text("ANC: Anc"), text("anc")),  // headphones
                AncCliMode::Ambient => (text("\u{f028}"), text("ANC: Ambient"), text("ambient")),  // volume-up
                AncCliMode::Off => (text("\u{f05e}"), text("ANC: Off"), text("anc-off")),  // ban
            };
            WaybarOutput { text: icon, tooltip, class }
        },
        None => WaybarOutput {
            text: String::new(),
            tooltip: text("WF-1000XM5 not connected"),
            class: text("disconnected"),
        },
    }
}

/// How a battery reading is written for debugging: "Case(75)" or
/// "Headphones { left: 80, right: 85 }".
pub open spec fn battery_debug(b: BatteryLevel) -> Seq<char> {
    match b {
        BatteryLevel::Case(p) => "Case("@ + decimal(p as nat) + ")"@,
        BatteryLevel::Headphones { left, right } => "Headphones { left: "@ + decimal(left as nat)
            + ", right: "@ + decimal(right as nat) + " }"@,
    }
}

fn battery_debug_string(b: BatteryLevel) -> (s: String)
    ensures
        s@ == battery_debug(b),
{
    match b {
        BatteryLevel::Case(p) => {
            let mut s = text("Case(");
            push_decimal(&mut s, p);
            s.append(")");
            s
        },
        BatteryLevel::Headphones { left, right } => {
            let mut s = text("Headphones { left: ");
            push_decimal(&mut s, left);
            s.append(", right: ");
            push_decimal(&mut s, right);
            s.append(" }");
            s
        },
    }
}

/// The battery line: both earbuds and the case when the readings are of those
/// kinds, else the two readings written out.
pub open spec fn battery_text(hp: BatteryLevel, case: BatteryLevel) -> Seq<char> {
    match (hp, case) {
        (BatteryLevel::Headphones { left, right }, BatteryLevel::Case(_)) => "L:"@ + decimal(
            left as nat,
        ) + "% R:"@ + decimal(right as nat) + "%"@,
        _ => battery_debug(hp),
    }
}

pub open spec fn battery_tooltip(hp: BatteryLevel, case: BatteryLevel) -> Seq<char> {
    match (hp, case) {
        (BatteryLevel::Headphones { left, right }, BatteryLevel::Case(case_pct)) => "Left: "@
            + decimal(left as nat) + "%\nRight: "@ + decimal(right as nat) + "%\nCase: "@
            + decimal(case_pct as nat) + "%"@,
        _ => "Headphones: "@ + battery_debug(hp) + "\nCase: "@ + battery_debug(case),
    }
}

/// The battery line for the earbud and case readings.
pub fn battery_output(hp: BatteryLevel, case: BatteryLevel) -> (out: WaybarOutput)
    ensures
        out.text@ == battery_text(hp, case),
        out.tooltip@ == battery_tooltip(hp, case),
        out.class@ == "battery"@,
{
    match (hp, case) {
        (BatteryLevel::Headphones { left, right }, BatteryLevel::Case(case_pct)) => {
            let mut t = text("L:");
            push_decimal(&mut t, left);
            t.append("% R:");
            push_decimal(&mut t, right);
            t.append("%");
            let mut tip = text("Left: ");
            push_decimal(&mut tip, left);
            tip.append("%\nRight: ");
            push_decimal(&mut tip, right);
            tip.append("%\nCase: ");
            push_decimal(&mut tip, case_pct);
            tip.append("%");
            WaybarOutput { text: t, tooltip: tip, class: text("battery") }
        },
        _ => {
            let t = battery_debug_string(hp);
            let mut tip = text("Headphones: ");
            let hp_text = battery_debug_string(hp);
            tip.append(hp_text.as_str());
            tip.append("\nCase: ");
            let case_text = battery_debug_string(case);
            tip.append(case_text.as_str());
            WaybarOutput { text: t, tooltip: tip, class: text("battery") }
        },
    }
}

/// The sound-pressure line for a reading in dB.
pub fn pressure_output(db: usize) -> (out: WaybarOutput)
    ensures
        out.text@ == decimal(db as nat) + " dB"@,
        out.tooltip@ == "Sound pressure: "@ + decimal(db as nat) + " dB"@,
        out.class@ == "pressure"@,
{
    let mut t = String::new();
    push_decimal(&mut t, db);
    t.append(" dB");
    let mut tip = text("Sound pressure: ");
    push_decimal(&mut tip, db);
    tip.append(" dB");
    WaybarOutput { text: t, tooltip: tip, class: text("pressure") }
}

/// The codec line.
pub fn codec_output(codec: Codec) -> (out: WaybarOutput)
    ensures
        out.text@ == codec_name(codec),
        out.tooltip@ == "Codec: "@ + codec_name(codec),
        out.class@ == "codec"@,
{
    let t = text(codec.as_str());
    let mut tip = text("Codec: ");
    tip.append(codec.as_str());
    WaybarOutput { text: t, tooltip: tip, class: text("codec") }
}

/// The display name of a preset.
pub open spec fn preset_name(p: EqualizerPreset) -> Seq<char> {
    match p {
        EqualizerPreset::Off => "Off"@,
        EqualizerPreset::Bright => "Bright"@,
        EqualizerPreset::Excited => "Excited"@,
        EqualizerPreset::Mellow => "Mellow"@,
        EqualizerPreset::Relaxed => "Relaxed"@,
        EqualizerPreset::Vocal => "Vocal"@,
        EqualizerPreset::TrebleBoost => "Treble Boost"@,
        EqualizerPreset::BassBoost => "Bass Boost"@,
        EqualizerPreset::Speech => "Speech"@,
        EqualizerPreset::Manual => "Manual"@,
        EqualizerPreset::Custom1 => "Custom 1"@,
        EqualizerPreset::Custom2 => "Custom 2"@,
    }
}

/// The name shown for each preset byte, and different presets are shown by
/// different names.
pub proof fn law_preset_names(byte: u8, p1: EqualizerPreset, p2: EqualizerPreset)
    ensures
        preset_of(byte) matches Some(p) ==> preset_name(p) == if byte == 0x00 {
            "Off"@
        } else if byte == 0x10 {
            "Bright"@
        } else if byte == 0x11 {
            "Excited"@
        } else if byte == 0x12 {
            "Mellow"@
        } else if byte == 0x13 {
            "Relaxed"@
        } else if byte == 0x14 {
            "Vocal"@
        } else if byte == 0x15 {
            "Treble Boost"@
        } else if byte == 0x16 {
            "Bass Boost"@
        } else if byte == 0x17 {
            "Speech"@
        } else if byte == 0xa0 {
            "Manual"@
        } else if byte == 0xa1 {
            "Custom 1"@
        } else {
            "Custom 2"@
        },
        p1 != p2 ==> preset_name(p1) != preset_name(p2),
{
    reveal_strlit("Off");
    reveal_strlit("Bright");
    reveal_strlit("Excited");
    reveal_strlit("Mellow");
    reveal_strlit("Relaxed");
    reveal_strlit("Vocal");
    reveal_strlit("Treble Boost");
    reveal_strlit("Bass Boost");
    reveal_strlit("Speech");
    reveal_strlit("Manual");
    reveal_strlit("Custom 1");
    reveal_strlit("Custom 2");
    assert("Off"@.len() == 3);
    assert("Vocal"@.len() == 5);
    assert("Bright"@.len() == 6 && "Bright"@[0] == 'B');
    assert("Mellow"@.len() == 6 && "Mellow"@[0] == 'M' && "Mellow"@[1] == 'e');
    assert("Speech"@.len() == 6 && "Speech"@[0] == 'S');
    assert("Manual"@.len() == 6 && "Manual"@[0] == 'M' && "Manual"@[1] == 'a');
    assert("Excited"@.len() == 7 && "Excited"@[0] == 'E');
    assert("Relaxed"@.len() == 7 && "Relaxed"@[0] == 'R');
    assert("Custom 1"@.len() == 8 && "Custom 1"@[7] == '1');
    assert("Custom 2"@.len() == 8 && "Custom 2"@[7] == '2');
    assert("Bass Boost"@.len() == 10);
    assert("Treble Boost"@.len() == 12);
}

/// The display name of a preset.
pub fn preset_display(p: EqualizerPreset) -> (s: &'static str)
    ensures
        s@ == preset_name(p),
{
    match p {
        EqualizerPreset::Off => "Off",
        EqualizerPreset::Bright => "Bright",
        EqualizerPreset::Excited => "Excited",
        EqualizerPreset::Mellow => "Mellow",
        EqualizerPreset::Relaxed => "Relaxed",
        EqualizerPreset::Vocal => "Vocal",
        EqualizerPreset::TrebleBoost => "Treble Boost",
        EqualizerPreset::BassBoost => "Bass Boost",
        EqualizerPreset::Speech => "Speech",
        EqualizerPreset::Manual => "Manual",
        EqualizerPreset::Custom1 => "Custom 1",
        EqualizerPreset::Custom2 => "Custom 2",
    }
}

/// The equalizer tooltip: the preset and every band with its sign.
pub open spec fn equalizer_tooltip(
    preset: EqualizerPreset,
    bass: i8,
    b400: i8,
    b1k: i8,
    b2k5: i8,
    b6k3: i8,
    b16k: i8,
) -> Seq<char> {
    "Preset: "@ + preset_name(preset) + "\nBass: "@ + signed_decimal(bass as int) + "\n400Hz: "@
        + signed_decimal(b400 as int) + "\n1kHz: "@ + signed_decimal(b1k as int) + "\n2.5kHz: "@
        + signed_decimal(b2k5 as int) + "\n6.3kHz: "@ + signed_decimal(b6k3 as int)
        + "\n16kHz: "@ + signed_decimal(b16k as int)
}

/// The equalizer line for an equalizer payload; a placeholder for any other
/// payload.
pub fn equalizer_output(payload: &Payload) -> (out: WaybarOutput)
    ensures
        out.class@ == "equalizer"@,
        match *payload {
            Payload::Equalizer {
                preset,
                clear_bass,
                band_400,
                band_1000,
                band_2500,
                band_6300,
                band_16000,
            } => {
                &&& out.text@ == preset_name(preset)
                &&& out.tooltip@ == equalizer_tooltip(
                    preset,
                    clear_bass,
                    band_400,
                    band_1000,
                    band_2500,
                    band_6300,
                    band_16000,
                )
            },
            _ => {
                &&& out.text@ == "EQ"@
                &&& out.tooltip@ == "Unknown equalizer state"@
            },
        },
{
    match payload {
        Payload::Equalizer {
            preset,
            clear_bass,
            band_400,
            band_1000,
            band_2500,
            band_6300,
            band_16000,
        } => {
            let t = text(preset_display(*preset));
            let mut tip = text("Preset: ");
            tip.append(preset_display(*preset));
            tip.append("\nBass: ");
            push_signed(&mut tip, *clear_bass);
            tip.append("\n400Hz: ");
            push_signed(&mut tip, *band_400);
            tip.append("\n1kHz: ");
            push_signed(&mut tip, *band_1000);
            tip.append("\n2.5kHz: ");
            push_signed(&mut tip, *band_2500);
            tip.append("\n6.3kHz: ");
            push_signed(&mut tip, *band_6300);
            tip.append("\n16kHz: ");
            push_signed(&mut tip, *band_16000);
            WaybarOutput { text: t, tooltip: tip, class: text("equalizer") }
        },
        _ => WaybarOutput {
            text: text("EQ"),
            tooltip: text("Unknown equalizer state"),
            class: text("equalizer"),
        },
    }
}

/// The line shown when a command failed, with the failure's description.
pub fn error_output(detail: &str) -> (out: WaybarOutput)
    ensures
        out.text@ == "ERR"@,
        out.tooltip@ == "sony-anc: "@ + detail@,
        out.class@ == "error"@,
{
    let mut tip = text("sony-anc: ");
    tip.append(detail);
    WaybarOutput { text: text("ERR"), tooltip: tip, class: text("error") }
}

} // verus!
