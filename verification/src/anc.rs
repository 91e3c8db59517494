use vstd::prelude::*;

use crate::command::{command_error, preset_is_customizable, AncMode, Command, EqualizerPreset};
use crate::payload::Payload;

verus! {

/// The ambient-sound level used when the device reports none.
pub const DEFAULT_AMBIENT_LEVEL: u8 = 10;

/// The highest ambient-sound level the earbuds accept.
pub const MAX_AMBIENT_LEVEL: u8 = 20;

/// The noise-control modes as the command line names them.
#[derive(Clone, Copy, Debug, PartialEq, Eq, Structural)]
pub enum AncCliMode {
    Anc,
    Off,
    Ambient,
}

/// Which way to step through the modes.
#[derive(Clone, Copy, Debug, PartialEq, Eq, Structural)]
pub enum CycleDirection {
    Next,
    Prev,
}

/// The equalizer presets that can be selected from the command line.
#[derive(Clone, Copy, Debug, PartialEq, Eq, Structural)]
pub enum CliEqualizerPreset {
    Off,
    Bright,
    Excited,
    Mellow,
    Relaxed,
    Vocal,
    TrebleBoost,
    BassBoost,
    Speech,
}

/// The preset slots that custom band levels can be written into.
#[derive(Clone, Copy, Debug, PartialEq, Eq, Structural)]
pub enum CliCustomPreset {
    Manual,
    Custom1,
    Custom2,
}

/// The noise-control state last reported by the earbuds.
#[derive(Clone, Copy, Debug, PartialEq, Eq, Structural)]
pub struct AncState {
    pub mode: AncCliMode,
    pub ambient_level: u8,
}

/// The device mode for a command-line mode.
pub open spec fn device_mode(m: AncCliMode) -> AncMode {
    match m {
        AncCliMode::Anc => AncMode::ActiveNoiseCanceling,
        AncCliMode::Off => AncMode::Off,
        AncCliMode::Ambient => AncMode::AmbientSound,
    }
}

/// The command-line mode for a device mode.
pub open spec fn cli_mode(m: AncMode) -> AncCliMode {
    match m {
        AncMode::ActiveNoiseCanceling => AncCliMode::Anc,
        AncMode::Off => AncCliMode::Off,
        AncMode::AmbientSound => AncCliMode::Ambient,
    }
}

impl AncCliMode {
    /// The command-line name of a device mode.
    pub fn from_anc_mode(mode: AncMode) -> (m: Self)
        ensures
            m == cli_mode(mode),
    {
        match mode {
            AncMode::ActiveNoiseCanceling => AncCliMode::Anc,
            AncMode::Off => AncCliMode::Off,
            AncMode::AmbientSound => AncCliMode::Ambient,
        }
    }

    /// The device mode this command-line mode selects.
    pub fn to_anc_mode(self) -> (m: AncMode)
        ensures
            m == device_mode(self),
    {
        match self {
            AncCliMode::Anc => AncMode::ActiveNoiseCanceling,
            AncCliMode::Off => AncMode::Off,
            AncCliMode::Ambient => AncMode::AmbientSound,
        }
    }
}

/// The two namings of the modes are one-to-one: converting there and back
/// gives the mode one started from.
pub proof fn law_mode_names_roundtrip(c: AncCliMode, d: AncMode)
    ensures
        cli_mode(device_mode(c)) == c,
        device_mode(cli_mode(d)) == d,
{
}

/// The device preset a command-line preset selects.
pub open spec fn preset_of_cli(p: CliEqualizerPreset) -> EqualizerPreset {
    match p {
        CliEqualizerPreset::Off => EqualizerPreset::Off,
        CliEqualizerPreset::Bright => EqualizerPreset::Bright,
        CliEqualizerPreset::Excited => EqualizerPreset::Excited,
        CliEqualizerPreset::Mellow => EqualizerPreset::Mellow,
        CliEqualizerPreset::Relaxed => EqualizerPreset::Relaxed,
        CliEqualizerPreset::Vocal => EqualizerPreset::Vocal,
        CliEqualizerPreset::TrebleBoost => EqualizerPreset::TrebleBoost,
        CliEqualizerPreset::BassBoost => EqualizerPreset::BassBoost,
        CliEqualizerPreset::Speech => EqualizerPreset::Speech,
    }
}

/// The device preset a custom slot names.
pub open spec fn preset_of_custom(p: CliCustomPreset) -> EqualizerPreset {
    match p {
        CliCustomPreset::Manual => EqualizerPreset::Manual,
        CliCustomPreset::Custom1 => EqualizerPreset::Custom1,
        CliCustomPreset::Custom2 => EqualizerPreset::Custom2,
    }
}

impl CliEqualizerPreset {
    /// The device preset this selects.
    pub fn to_preset(self) -> (p: EqualizerPreset)
        ensures
            p == preset_of_cli(self),
    {
        match self {
            CliEqualizerPreset::Off => EqualizerPreset::Off,
            CliEqualizerPreset::Bright => EqualizerPreset::Bright,
            CliEqualizerPreset::Excited => EqualizerPreset::Excited,
            CliEqualizerPreset::Mellow => EqualizerPreset::Mellow,
            CliEqualizerPreset::Relaxed => EqualizerPreset::Relaxed,
            CliEqualizerPreset::Vocal => EqualizerPreset::Vocal,
            CliEqualizerPreset::TrebleBoost => EqualizerPreset::TrebleBoost,
            CliEqualizerPreset::BassBoost => EqualizerPreset::BassBoost,
            CliEqualizerPreset::Speech => EqualizerPreset::Speech,
        }
    }
}

impl CliCustomPreset {
    /// The device preset this slot names.
    pub fn to_preset(self) -> (p: EqualizerPreset)
        ensures
            p == preset_of_custom(self),
    {
        match self {
            CliCustomPreset::Manual => EqualizerPreset::Manual,
            CliCustomPreset::Custom1 => EqualizerPreset::Custom1,
            CliCustomPreset::Custom2 => EqualizerPreset::Custom2,
        }
    }
}

/// Every slot offered for custom band levels is a preset that accepts them,
/// and no selectable named preset does.
pub proof fn law_custom_slots_are_customizable(c: CliCustomPreset, n: CliEqualizerPreset)
    ensures
        preset_is_customizable(preset_of_custom(c)),
        !preset_is_customizable(preset_of_cli(n)),
{
}

/// The ambient level to use for a reported level: the default when the device
/// reports 0, otherwise the reported level capped at the maximum.
pub open spec fn spec_ambient_level_for(current: u8) -> u8 {
    if current == 0 {
        DEFAULT_AMBIENT_LEVEL
    } else if current <= MAX_AMBIENT_LEVEL {
        current
    } else {
        MAX_AMBIENT_LEVEL
    }
}

/// Resolves the ambient sound level to use: falls back to the default when the
/// device reports 0, otherwise clamps the current level into the valid range.
pub fn ambient_level_for(current: u8) -> (level: u8)
    ensures
        level == spec_ambient_level_for(current),
{
    if current == 0 {
        DEFAULT_AMBIENT_LEVEL
    } else {
        current.min(MAX_AMBIENT_LEVEL)
    }
}

/// The (ambient level, voice passthrough) pair sent for a target mode.
pub open spec fn spec_ambient_params(
    target: AncCliMode,
    current_level: u8,
    level_override: Option<u8>,
    voice_override: Option<bool>,
) -> (u8, bool) {
    match target {
        AncCliMode::Ambient => {
            let level = match level_override {
                Some(l) => l,
                None => spec_ambient_level_for(current_level),
            };
            (
                if level <= MAX_AMBIENT_LEVEL {
                    level
                } else {
                    MAX_AMBIENT_LEVEL
                },
                match voice_override {
                    Some(v) => v,
                    None => true,
                },
            )
        },
        AncCliMode::Anc | AncCliMode::Off => (0, false),
    }
}

/// Computes the (ambient sound level, voice passthrough) pair to send for a target
/// mode. Only ambient mode uses a level and voice setting; the other modes always
/// get (0, false). Without an override the level falls back to
/// `ambient_level_for(current_level)` and voice passthrough defaults to on.
pub fn ambient_params(
    target: AncCliMode,
    current_level: u8,
    level_override: Option<u8>,
    voice_override: Option<bool>,
) -> (params: (u8, bool))
    ensures
        params == spec_ambient_params(target, current_level, level_override, voice_override),
{
    match target {
        AncCliMode::Ambient => {
            let level = match level_override {
                Some(l) => l,
                None => ambient_level_for(current_level),
            };
            let voice = match voice_override {
                Some(v) => v,
                None => true,
            };
            (level.min(MAX_AMBIENT_LEVEL), voice)
        },
        AncCliMode::Anc | AncCliMode::Off => (0, false),
    }
}

/// Whatever the inputs, the level sent never exceeds the maximum; outside
/// ambient mode nothing but (0, off) is sent; without overrides ambient mode
/// sends the resolved current level with voice passthrough on.
pub proof fn law_ambient_params_bounds(
    target: AncCliMode,
    current_level: u8,
    level_override: Option<u8>,
    voice_override: Option<bool>,
)
    ensures
        spec_ambient_params(target, current_level, level_override, voice_override).0
            <= MAX_AMBIENT_LEVEL,
        target != AncCliMode::Ambient ==> spec_ambient_params(
            target,
            current_level,
            level_override,
            voice_override,
        ) == (0u8, false),
        spec_ambient_params(AncCliMode::Ambient, current_level, None, None) == (
            spec_ambient_level_for(current_level),
            true,
        ),
        1 <= spec_ambient_level_for(current_level) <= MAX_AMBIENT_LEVEL,
{
}

/// The band values after applying per-band overrides to a baseline.
pub open spec fn spec_merge_bands(base: Seq<i8>, overrides: Seq<Option<i8>>) -> Seq<i8> {
    Seq::new(
        base.len(),
        |i: int|
            match overrides[i] {
                Some(v) => v,
                None => base[i],
            },
    )
}

/// Applies per-band overrides over a baseline curve.
/// Index order: [bass, 400Hz, 1kHz, 2.5kHz, 6.3kHz, 16kHz].
pub fn merge_bands(base: [i8; 6], overrides: [Option<i8>; 6]) -> (out: [i8; 6])
    ensures
        out@ == spec_merge_bands(base@, overrides@),
{
    let mut out = base;
    let mut i: usize = 0;
    while i < 6
        invariant
            0 <= i <= 6,
            out@.len() == 6,
            forall|j: int|
                0 <= j < 6 ==> #[trigger] out@[j] == if j < i {
                    match overrides@[j] {
                        Some(v) => v,
                        None => base@[j],
                    }
                } else {
                    base@[j]
                },
        decreases 6 - i,
    {
        if let Some(v) = overrides[i] {
            out[i] = v;
        }
        i = i + 1;
    }
    assert(out@ =~= spec_merge_bands(base@, overrides@));
    out
}

/// Overriding nothing keeps the baseline; only overridden bands change, and
/// they take the override; applying the same overrides twice changes nothing
/// more.
pub proof fn law_merge_bands(base: Seq<i8>, overrides: Seq<Option<i8>>, i: int)
    requires
        base.len() == overrides.len(),
        0 <= i < base.len(),
    ensures
        (forall|j: int| 0 <= j < overrides.len() ==> overrides[j] is None) ==> spec_merge_bands(
            base,
            overrides,
        ) == base,
        overrides[i] is None ==> spec_merge_bands(base, overrides)[i] == base[i],
        overrides[i] matches Some(v) ==> spec_merge_bands(base, overrides)[i] == v,
        spec_merge_bands(spec_merge_bands(base, overrides), overrides) == spec_merge_bands(
            base,
            overrides,
        ),
{
    assert(spec_merge_bands(spec_merge_bands(base, overrides), overrides) =~= spec_merge_bands(
        base,
        overrides,
    ));
    if forall|j: int| 0 <= j < overrides.len() ==> overrides[j] is None {
        assert(spec_merge_bands(base, overrides) =~= base);
    }
}

/// The mode one step from `current` in `direction`: next goes
/// ANC, ambient, off and round again; previous goes the other way.
pub open spec fn spec_cycle_mode(current: AncCliMode, direction: CycleDirection) -> AncCliMode {
    match direction {
        CycleDirection::Next => match current {
            AncCliMode::Anc => AncCliMode::Ambient,
            AncCliMode::Ambient => AncCliMode::Off,
            AncCliMode::Off => AncCliMode::Anc,
        },
        CycleDirection::Prev => match current {
            AncCliMode::Anc => AncCliMode::Off,
            AncCliMode::Ambient => AncCliMode::Anc,
            AncCliMode::Off => AncCliMode::Ambient,
        },
    }
}

/// Steps the mode once in the given direction.
pub fn cycle_mode(current: AncCliMode, direction: CycleDirection) -> (next: AncCliMode)
    ensures
        next == spec_cycle_mode(current, direction),
{
    match direction {
        CycleDirection::Next => match current {
            AncCliMode::Anc => AncCliMode::Ambient,
            AncCliMode::Ambient => AncCliMode::Off,
            AncCliMode::Off => AncCliMode::Anc,
        },
        CycleDirection::Prev => match current {
            AncCliMode::Anc => AncCliMode::Off,
            AncCliMode::Ambient => AncCliMode::Anc,
            AncCliMode::Off => AncCliMode::Ambient,
        },
    }
}

/// Cycling always changes the mode; a step back undoes a step forward and the
/// other way round; three steps in one direction come back to the start.
pub proof fn law_cycle(m: AncCliMode, d: CycleDirection)
    ensures
        spec_cycle_mode(m, d) != m,
        spec_cycle_mode(spec_cycle_mode(m, CycleDirection::Next), CycleDirection::Prev) == m,
        spec_cycle_mode(spec_cycle_mode(m, CycleDirection::Prev), CycleDirection::Next) == m,
        spec_cycle_mode(spec_cycle_mode(spec_cycle_mode(m, d), d), d) == m,
{
}

/// Whether a new mode differs from the last emitted one (`None` stands for the
/// disconnected state).
pub fn should_emit(last: Option<AncCliMode>, new: Option<AncCliMode>) -> (b: bool)
    ensures
        b == (last != new),
{
    match (last, new) {
        (None, None) => false,
        (Some(a), Some(b)) => a != b,
        _ => true,
    }
}

/// The state a status payload reports, if it is one.
pub open spec fn spec_anc_state_of(payload: Payload) -> Option<AncState> {
    match payload {
        Payload::AncStatus { mode, ambient_sound_level, .. } => Some(
            AncState { mode: cli_mode(mode), ambient_level: ambient_sound_level },
        ),
        _ => None,
    }
}

/// The noise-control state a payload reports; `None` for other payloads.
pub fn anc_state_of(payload: &Payload) -> (state: Option<AncState>)
    ensures
        state == spec_anc_state_of(*payload),
{
    match payload {
        Payload::AncStatus { mode, ambient_sound_level, .. } => Some(
            AncState {
                mode: AncCliMode::from_anc_mode(*mode),
                ambient_level: *ambient_sound_level,
            },
        ),
        _ => None,
    }
}

/// The voice-passthrough choice given by the two command-line flags: on wins,
/// then off, else no choice.
pub fn voice_override(voice: bool, no_voice: bool) -> (choice: Option<bool>)
    ensures
        choice == if voice {
            Some(true)
        } else if no_voice {
            Some(false)
        } else {
            None::<bool>
        },
{
    if voice {
        Some(true)
    } else if no_voice {
        Some(false)
    } else {
        None
    }
}

/// The state to start from when setting a mode: the reported one, or, when no
/// status could be read, the target mode at the default ambient level.
pub fn state_or_default(reported: Option<AncState>, target: AncCliMode) -> (state: AncState)
    ensures
        state == match reported {
            Some(s) => s,
            None => AncState { mode: target, ambient_level: DEFAULT_AMBIENT_LEVEL },
        },
{
    match reported {
        Some(s) => s,
        None => AncState { mode: target, ambient_level: DEFAULT_AMBIENT_LEVEL },
    }
}

/// The band curve an equalizer payload reports, in the order of `merge_bands`;
/// all zero for any other payload.
pub open spec fn spec_bands_of(payload: Payload) -> Seq<i8> {
    match payload {
        Payload::Equalizer { clear_bass, band_400, band_1000, band_2500, band_6300, band_16000, .. } => seq![clear_bass, band_400, band_1000, band_2500, band_6300, band_16000],
        _ => seq![0i8, 0, 0, 0, 0, 0],
    }
}

/// The band curve an equalizer payload reports; all zero for another payload.
pub fn bands_of(payload: &Payload) -> (bands: [i8; 6])
    ensures
        bands@ == spec_bands_of(*payload),
{
    let bands = match payload {
        Payload::Equalizer { clear_bass, band_400, band_1000, band_2500, band_6300, band_16000, .. } => [*clear_bass, *band_400, *band_1000, *band_2500, *band_6300, *band_16000],
        _ => [0; 6],
    };
    assert(bands@ =~= spec_bands_of(*payload));
    bands
}

/// The command that switches to `target`, with the ambient level and voice
/// passthrough that `ambient_params` gives.
pub open spec fn spec_anc_set_command(
    target: AncCliMode,
    current_level: u8,
    level_override: Option<u8>,
    voice_override: Option<bool>,
) -> Command {
    let (level, voice) = spec_ambient_params(target, current_level, level_override, voice_override);
    Command::AncSet {
        dragging_ambient_sound_slider: false,
        mode: device_mode(target),
        ambient_sound_voice_passthrough: voice,
        ambient_sound_level: level as usize,
    }
}

/// A mode switch computed from any inputs is a command the earbuds accept: its
/// ambient level never exceeds the maximum.
pub proof fn law_anc_set_command_is_valid(
    target: AncCliMode,
    current_level: u8,
    level_override: Option<u8>,
    voice_override: Option<bool>,
)
    ensures
        command_error(
            spec_anc_set_command(target, current_level, level_override, voice_override),
        ) is None,
{
}

/// The command that switches the noise control to `target`.
pub fn anc_set_command(
    target: AncCliMode,
    current_level: u8,
    level_override: Option<u8>,
    voice_override: Option<bool>,
) -> (command: Command)
    ensures
        command == spec_anc_set_command(target, current_level, level_override, voice_override),
{
    let (ambient_level, voice_passthrough) = ambient_params(
        target,
        current_level,
        level_override,
        voice_override,
    );
    Command::AncSet {
        dragging_ambient_sound_slider: false,
        mode: target.to_anc_mode(),
        ambient_sound_voice_passthrough: voice_passthrough,
        ambient_sound_level: ambient_level as usize,
    }
}

/// The command that writes into `preset` the band curve reported in
/// `current` (all zero when that is no equalizer payload) with the given
/// overrides applied.
pub fn equalizer_set_command(
    preset: EqualizerPreset,
    current: &Payload,
    overrides: [Option<i8>; 6],
) -> (command: Command)
    ensures
        ({
            let bands = spec_merge_bands(spec_bands_of(*current), overrides@);
            command == Command::ChangeEqualizerSetting {
                preset,
                bass_level: bands[0],
                band_400: bands[1],
                band_1000: bands[2],
                band_2500: bands[3],
                band_6300: bands[4],
                band_16000: bands[5],
            }
        }),
{
    // The currently reported curve is the baseline, so a single override nudges
    // one band instead of zeroing the rest.
    let base = bands_of(current);
    let merged = merge_bands(base, overrides);
    Command::ChangeEqualizerSetting {
        preset,
        bass_level: merged[0],
        band_400: merged[1],
        band_1000: merged[2],
        band_2500: merged[3],
        band_6300: merged[4],
        band_16000: merged[5],
    }
}

/// A reported level the earbuds accept is kept as it is; only a report of 0
/// falls back to the default, and a level above the maximum is capped. So
/// switching to ambient mode without overrides keeps a valid reported level.
pub proof fn law_ambient_level_keeps_valid_levels(current: u8)
    ensures
        1 <= current <= MAX_AMBIENT_LEVEL ==> spec_ambient_level_for(current) == current,
        current == 0 ==> spec_ambient_level_for(current) == DEFAULT_AMBIENT_LEVEL,
        current > MAX_AMBIENT_LEVEL ==> spec_ambient_level_for(current) == MAX_AMBIENT_LEVEL,
        1 <= current <= MAX_AMBIENT_LEVEL ==> spec_ambient_params(
            AncCliMode::Ambient,
            current,
            None,
            None,
        ) == (current, true),
        forall|l: u8|
            l <= MAX_AMBIENT_LEVEL ==> #[trigger] spec_ambient_params(
                AncCliMode::Ambient,
                current,
                Some(l),
                None,
            ).0 == l,
{
}

/// The state read from a payload is there exactly for noise-control status
/// payloads, and it carries the payload's ambient level, whatever the mode,
/// and the payload's mode.
pub proof fn law_anc_state_reports_payload(p: Payload)
    ensures
        (spec_anc_state_of(p) is Some) == (p is AncStatus),
        p matches Payload::AncStatus { mode, ambient_sound_level, .. } ==> {
            &&& spec_anc_state_of(p) matches Some(s)
            &&& s.ambient_level == ambient_sound_level
            &&& device_mode(s.mode) == mode
        },
{
}

/// A status read from the bytes of a status reply carries the level byte
/// (byte 6) as its ambient level and the mode the mode bytes give.
pub proof fn law_anc_state_from_bytes(bytes: Seq<u8>)
    requires
        bytes.len() >= 7,
        bytes[0] == 0x67 || bytes[0] == 0x69,
    ensures
        crate::payload::payload_result(bytes, crate::frame::MessageType::Command1) matches Ok(p)
            && spec_anc_state_of(p) matches Some(s) && s.ambient_level == bytes[6]
            && device_mode(s.mode) == crate::payload::anc_mode_of(bytes[3], bytes[4]),
{
}

} // verus!
