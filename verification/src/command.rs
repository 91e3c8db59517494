use vstd::prelude::*;

use crate::frame::{encode_frame, frame_bytes, MessageType};
use crate::payload::{anc_mode_of, band_level, payload_result, Payload};

verus! {

/// The noise-control mode of the earbuds.
#[derive(Clone, Copy, Debug, PartialEq, Eq, Structural)]
pub enum AncMode {
    Off,
    ActiveNoiseCanceling,
    AmbientSound,
}

/// Which battery a battery-level message is about.
#[derive(Clone, Copy, Debug, PartialEq, Eq, Structural)]
pub enum BatteryType {
    Headphones,
    Case,
}

/// The battery-type byte of a battery message, by battery.
pub open spec fn battery_type_byte(t: BatteryType) -> u8 {
    match t {
        BatteryType::Headphones => 0x01,
        BatteryType::Case => 0x0a,
    }
}

/// The battery that a battery-type byte names, if any.
pub open spec fn battery_type_of(byte: u8) -> Option<BatteryType> {
    if byte == 0x01 {
        Some(BatteryType::Headphones)
    } else if byte == 0x0a {
        Some(BatteryType::Case)
    } else {
        None
    }
}

impl BatteryType {
    /// Decodes a battery-type byte; `None` for a byte that names no battery.
    pub fn from_byte(byte: u8) -> (res: Option<Self>)
        ensures
            res == battery_type_of(byte),
    {
        match byte {
            0x01 => Some(BatteryType::Headphones),
            0x0a => Some(BatteryType::Case),
            _ => None,
        }
    }

    /// The byte that names this battery.
    pub fn to_byte(self) -> (b: u8)
        ensures
            b == battery_type_byte(self),
    {
        match self {
            BatteryType::Headphones => 0x01,
            BatteryType::Case => 0x0a,
        }
    }
}

/// An equalizer preset of the earbuds.
#[derive(Clone, Copy, Debug, PartialEq, Eq, Structural)]
pub enum EqualizerPreset {
    Off,
    Bright,
    Excited,
    Mellow,
    Relaxed,
    Vocal,
    TrebleBoost,
    BassBoost,
    Speech,
    Manual,
    Custom1,
    Custom2,
}

/// The byte that names a preset on the wire.
pub open spec fn preset_byte(p: EqualizerPreset) -> u8 {
    match p {
        EqualizerPreset::Off => 0x00,
        EqualizerPreset::Bright => 0x10,
        EqualizerPreset::Excited => 0x11,
        EqualizerPreset::Mellow => 0x12,
        EqualizerPreset::Relaxed => 0x13,
        EqualizerPreset::Vocal => 0x14,
        EqualizerPreset::TrebleBoost => 0x15,
        EqualizerPreset::BassBoost => 0x16,
        EqualizerPreset::Speech => 0x17,
        EqualizerPreset::Manual => 0xa0,
        EqualizerPreset::Custom1 => 0xa1,
        EqualizerPreset::Custom2 => 0xa2,
    }
}

/// The presets whose band levels can be written.
pub open spec fn preset_is_customizable(p: EqualizerPreset) -> bool {
    p == EqualizerPreset::Manual || p == EqualizerPreset::Custom1 || p == EqualizerPreset::Custom2
}

/// The preset that a preset byte names, if any.
pub open spec fn preset_of(byte: u8) -> Option<EqualizerPreset> {
    if byte == 0x00 {
        Some(EqualizerPreset::Off)
    } else if byte == 0x10 {
        Some(EqualizerPreset::Bright)
    } else if byte == 0x11 {
        Some(EqualizerPreset::Excited)
    } else if byte == 0x12 {
        Some(EqualizerPreset::Mellow)
    } else if byte == 0x13 {
        Some(EqualizerPreset::Relaxed)
    } else if byte == 0x14 {
        Some(EqualizerPreset::Vocal)
    } else if byte == 0x15 {
        Some(EqualizerPreset::TrebleBoost)
    } else if byte == 0x16 {
        Some(EqualizerPreset::BassBoost)
    } else if byte == 0x17 {
        Some(EqualizerPreset::Speech)
    } else if byte == 0xa0 {
        Some(EqualizerPreset::Manual)
    } else if byte == 0xa1 {
        Some(EqualizerPreset::Custom1)
    } else if byte == 0xa2 {
        Some(EqualizerPreset::Custom2)
    } else {
        None
    }
}

impl EqualizerPreset {
    /// Decodes a preset byte; `None` for a byte that names no preset.
    pub fn from_byte(byte: u8) -> (res: Option<Self>)
        ensures
            res == preset_of(byte),
    {
        match byte {
            0x00 => Some(EqualizerPreset::Off),
            0x10 => Some(EqualizerPreset::Bright),
            0x11 => Some(EqualizerPreset::Excited),
            0x12 => Some(EqualizerPreset::Mellow),
            0x13 => Some(EqualizerPreset::Relaxed),
            0x14 => Some(EqualizerPreset::Vocal),
            0x15 => Some(EqualizerPreset::TrebleBoost),
            0x16 => Some(EqualizerPreset::BassBoost),
            0x17 => Some(EqualizerPreset::Speech),
            0xa0 => Some(EqualizerPreset::Manual),
            0xa1 => Some(EqualizerPreset::Custom1),
            0xa2 => Some(EqualizerPreset::Custom2),
            _ => None,
        }
    }

    /// The byte that names this preset.
    pub fn to_byte(self) -> (b: u8)
        ensures
            b == preset_byte(self),
    {
        match self {
            EqualizerPreset::Off => 0x00,
            EqualizerPreset::Bright => 0x10,
            EqualizerPreset::Excited => 0x11,
            EqualizerPreset::Mellow => 0x12,
            EqualizerPreset::Relaxed => 0x13,
            EqualizerPreset::Vocal => 0x14,
            EqualizerPreset::TrebleBoost => 0x15,
            EqualizerPreset::BassBoost => 0x16,
            EqualizerPreset::Speech => 0x17,
            EqualizerPreset::Manual => 0xa0,
            EqualizerPreset::Custom1 => 0xa1,
            EqualizerPreset::Custom2 => 0xa2,
        }
    }

    /// Whether band levels can be written into this preset.
    pub fn is_customizable(self) -> (b: bool)
        ensures
            b == preset_is_customizable(self),
    {
        match self {
            EqualizerPreset::Manual | EqualizerPreset::Custom1 | EqualizerPreset::Custom2 => true,
            _ => false,
        }
    }
}

/// A preset's byte decodes back to that preset, and a byte that decodes to a
/// preset is that preset's byte.
pub proof fn law_preset_byte_roundtrip(p: EqualizerPreset, byte: u8)
    ensures
        preset_of(preset_byte(p)) == Some(p),
        preset_of(byte) == Some(p) ==> preset_byte(p) == byte,
{
}

/// A battery's byte decodes back to that battery, and a byte that decodes to a
/// battery is that battery's byte.
pub proof fn law_battery_byte_roundtrip(t: BatteryType, byte: u8)
    ensures
        battery_type_of(battery_type_byte(t)) == Some(t),
        battery_type_of(byte) == Some(t) ==> battery_type_byte(t) == byte,
{
}

/// A request to the earbuds, or the acknowledgement of one of their messages.
#[derive(Clone, Copy, Debug, PartialEq, Eq, Structural)]
pub enum Command {
    Init,
    Ack,
    GetAncStatus,
    AncSet {
        dragging_ambient_sound_slider: bool,
        mode: AncMode,
        ambient_sound_voice_passthrough: bool,
        ambient_sound_level: usize,
    },
    GetBatteryStatus { battery_type: BatteryType },
    GetCodec,
    GetEqualizerSettings,
    ChangeEqualizerPreset { preset: EqualizerPreset },
    ChangeEqualizerSetting {
        preset: EqualizerPreset,
        bass_level: i8,
        band_400: i8,
        band_1000: i8,
        band_2500: i8,
        band_6300: i8,
        band_16000: i8,
    },
    SoundPressureMeasure { on: bool },
    GetSoundPressure,
}

/// Why a command cannot be sent.
#[derive(Clone, Copy, Debug, PartialEq, Eq, Structural)]
pub enum CommandError {
    /// Ambient levels run from 0 to 20.
    AmbientSoundLevelOutOfRange { level: usize },
    /// Band levels can only be written into the manual and custom presets.
    EqualizerPresetNotCustomizable { preset: EqualizerPreset },
    /// Band levels run from -10 to 10.
    EqualizerBandOutOfRange { band: i8 },
}

/// The highest ambient level a command may carry.
pub const MAX_COMMAND_AMBIENT_LEVEL: usize = 20;

/// The highest magnitude of an equalizer band level.
pub const MAX_BAND_LEVEL: i8 = 10;

/// Whether a band level lies in the range the earbuds accept.
pub open spec fn band_in_range(level: i8) -> bool {
    -MAX_BAND_LEVEL <= level <= MAX_BAND_LEVEL
}

/// The message type a command travels in.
pub open spec fn command_type(c: Command) -> MessageType {
    match c {
        Command::Ack => MessageType::Ack,
        Command::SoundPressureMeasure { .. } | Command::GetSoundPressure => MessageType::Command2,
        _ => MessageType::Command1,
    }
}

/// The sequence number a command's frame carries: an acknowledgement flips
/// the sequence number of the message it acknowledges; any other command
/// carries the given one.
pub open spec fn command_seq(c: Command, seq: u8) -> u8 {
    match c {
        Command::Ack => if seq == 0 {
            1
        } else {
            0
        },
        _ => seq,
    }
}

/// Why a command cannot be sent, if it cannot: the ambient level is checked,
/// then the preset, then the bands from bass to 16 kHz.
pub open spec fn command_error(c: Command) -> Option<CommandError> {
    match c {
        Command::AncSet { ambient_sound_level, .. } => if ambient_sound_level
            > MAX_COMMAND_AMBIENT_LEVEL {
            Some(CommandError::AmbientSoundLevelOutOfRange { level: ambient_sound_level })
        } else {
            None
        },
        Command::ChangeEqualizerSetting {
            preset,
            bass_level,
            band_400,
            band_1000,
            band_2500,
            band_6300,
            band_16000,
        } => if !preset_is_customizable(preset) {
            Some(CommandError::EqualizerPresetNotCustomizable { preset })
        } else if !band_in_range(bass_level) {
            Some(CommandError::EqualizerBandOutOfRange { band: bass_level })
        } else if !band_in_range(band_400) {
            Some(CommandError::EqualizerBandOutOfRange { band: band_400 })
        } else if !band_in_range(band_1000) {
            Some(CommandError::EqualizerBandOutOfRange { band: band_1000 })
        } else if !band_in_range(band_2500) {
            Some(CommandError::EqualizerBandOutOfRange { band: band_2500 })
        } else if !band_in_range(band_6300) {
            Some(CommandError::EqualizerBandOutOfRange { band: band_6300 })
        } else if !band_in_range(band_16000) {
            Some(CommandError::EqualizerBandOutOfRange { band: band_16000 })
        } else {
            None
        },
        _ => None,
    }
}

/// A band level as sent: the level plus 10.
pub open spec fn band_byte(level: i8) -> u8 {
    (level + 10) as u8
}

/// A band level written by a command reads back as the same level, and the
/// two mode bytes a mode switch writes read back as the same mode.
pub proof fn law_command_bytes_read_back(level: i8, mode: AncMode)
    requires
        band_in_range(level),
    ensures
        band_level(band_byte(level)) == level,
        anc_mode_of(
            if mode == AncMode::Off {
                0u8
            } else {
                1u8
            },
            if mode == AncMode::AmbientSound {
                1u8
            } else {
                0u8
            },
        ) == mode,
{
}

/// A mode switch that can be sent carries what it asks for in the layout the
/// earbuds report noise control in: with its type byte read as a status reply,
/// its payload decodes to the mode, voice passthrough and ambient level asked
/// for.
pub proof fn law_anc_set_payload_reads_back(
    dragging: bool,
    mode: AncMode,
    voice: bool,
    level: usize,
)
    requires
        command_error(
            Command::AncSet {
                dragging_ambient_sound_slider: dragging,
                mode,
                ambient_sound_voice_passthrough: voice,
                ambient_sound_level: level,
            },
        ) is None,
    ensures
        ({
            let p = command_payload(
                Command::AncSet {
                    dragging_ambient_sound_slider: dragging,
                    mode,
                    ambient_sound_voice_passthrough: voice,
                    ambient_sound_level: level,
                },
            );
            &&& p[0] == 0x68
            &&& anc_mode_of(p[3], p[4]) == mode
            &&& payload_result(p.update(0, 0x67), MessageType::Command1) == Ok::<
                Payload,
                crate::payload::ParsePayloadError,
            >(
                Payload::AncStatus {
                    mode,
                    ambient_sound_voice_passthrough: voice,
                    ambient_sound_level: level as u8,
                },
            )
        }),
{
    let c = Command::AncSet {
        dragging_ambient_sound_slider: dragging,
        mode,
        ambient_sound_voice_passthrough: voice,
        ambient_sound_level: level,
    };
    let p = command_payload(c);
    let q = p.update(0, 0x67);
    assert(q.len() == 7);
    assert(q[3] == p[3] && q[4] == p[4] && q[5] == p[5] && q[6] == p[6]);
}

/// A band setting that can be sent carries its preset and bands in the layout
/// the earbuds report the equalizer in: with its type byte read as an
/// equalizer reply, its payload decodes to the same preset and band levels.
pub proof fn law_equalizer_setting_reads_back(
    preset: EqualizerPreset,
    b0: i8,
    b1: i8,
    b2: i8,
    b3: i8,
    b4: i8,
    b5: i8,
)
    requires
        command_error(
            Command::ChangeEqualizerSetting {
                preset,
                bass_level: b0,
                band_400: b1,
                band_1000: b2,
                band_2500: b3,
                band_6300: b4,
                band_16000: b5,
            },
        ) is None,
    ensures
        payload_result(
            command_payload(
                Command::ChangeEqualizerSetting {
                    preset,
                    bass_level: b0,
                    band_400: b1,
                    band_1000: b2,
                    band_2500: b3,
                    band_6300: b4,
                    band_16000: b5,
                },
            ).update(0, 0x57),
            MessageType::Command1,
        ) == Ok::<Payload, crate::payload::ParsePayloadError>(
            Payload::Equalizer {
                preset,
                clear_bass: b0,
                band_400: b1,
                band_1000: b2,
                band_2500: b3,
                band_6300: b4,
                band_16000: b5,
            },
        ),
{
    let p = command_payload(
        Command::ChangeEqualizerSetting {
            preset,
            bass_level: b0,
            band_400: b1,
            band_1000: b2,
            band_2500: b3,
            band_6300: b4,
            band_16000: b5,
        },
    );
    let q = p.update(0, 0x57);
    assert(q.len() == 10);
    assert(q[2] == preset_byte(preset));
    law_preset_byte_roundtrip(preset, q[2]);
    law_band_byte_reads_back(b0);
    law_band_byte_reads_back(b1);
    law_band_byte_reads_back(b2);
    law_band_byte_reads_back(b3);
    law_band_byte_reads_back(b4);
    law_band_byte_reads_back(b5);
}

/// A band level written by a command reads back as the same level.
pub proof fn law_band_byte_reads_back(level: i8)
    requires
        band_in_range(level),
    ensures
        band_level(band_byte(level)) == level,
{
}

/// The payload of a command that can be sent.
///
/// Noise control (0x68): function 0x17, 0 while the slider is dragged and 1
/// otherwise, 1 unless off, 1 for ambient sound, 1 for voice passthrough, the
/// ambient level. Battery (0x22): the battery byte. Codec (0x12). Equalizer
/// (0x56 to read, 0x58 to write): 0, the preset, then either 0 or the band
/// count 6 and the six band bytes. Sound pressure (0x58 to switch measuring,
/// 0x5a to read): function 3, then for switching 1 and 0 for on, 1 for off.
pub open spec fn command_payload(c: Command) -> Seq<u8> {
    match c {
        Command::Init => seq![0x00, 0x00],
        Command::Ack => Seq::empty(),
        Command::GetAncStatus => seq![0x66, 0x17],
        Command::AncSet {
            dragging_ambient_sound_slider,
            mode,
            ambient_sound_voice_passthrough,
            ambient_sound_level,
        } => seq![
            0x68,
            0x17,
            if dragging_ambient_sound_slider {
                0u8
            } else {
                1u8
            },
            if mode == AncMode::Off {
                0u8
            } else {
                1u8
            },
            if mode == AncMode::AmbientSound {
                1u8
            } else {
                0u8
            },
            if ambient_sound_voice_passthrough {
                1u8
            } else {
                0u8
            },
            ambient_sound_level as u8,
        ],
        Command::GetBatteryStatus { battery_type } => seq![0x22, battery_type_byte(battery_type)],
        Command::GetCodec => seq![0x12, 0x00],
        Command::GetEqualizerSettings => seq![0x56, 0x00],
        Command::ChangeEqualizerPreset { preset } => seq![0x58, 0x00, preset_byte(preset), 0x00],
        Command::ChangeEqualizerSetting {
            preset,
            bass_level,
            band_400,
            band_1000,
            band_2500,
            band_6300,
            band_16000,
        } => seq![
            0x58,
            0x00,
            preset_byte(preset),
            0x06,
            band_byte(bass_level),
            band_byte(band_400),
            band_byte(band_1000),
            band_byte(band_2500),
            band_byte(band_6300),
            band_byte(band_16000),
        ],
        Command::SoundPressureMeasure { on } => seq![
            0x58,
            0x03,
            0x01,
            if on {
                0u8
            } else {
                1u8
            },
        ],
        Command::GetSoundPressure => seq![0x5a, 0x03],
    }
}

fn flag(b: bool) -> (byte: u8)
    ensures
        byte == if b {
            1u8
        } else {
            0u8
        },
{
    if b {
        1
    } else {
        0
    }
}

/// Checks a band level and gives its byte.
fn band_to_byte(level: i8) -> (res: Result<u8, CommandError>)
    ensures
        match res {
            Ok(b) => band_in_range(level) && b == band_byte(level),
            Err(e) => !band_in_range(level) && e == CommandError::EqualizerBandOutOfRange {
                band: level,
            },
        },
{
    if level < -MAX_BAND_LEVEL || level > MAX_BAND_LEVEL {
        Err(CommandError::EqualizerBandOutOfRange { band: level })
    } else {
        Ok((level + 10) as u8)
    }
}

/// The payload of a command, or why it cannot be sent.
fn command_bytes(command: &Command) -> (res: Result<Vec<u8>, CommandError>)
    ensures
        match command_error(*command) {
            Some(e) => res == Err::<Vec<u8>, CommandError>(e),
            None => res matches Ok(v) && v@ == command_payload(*command),
        },
{
    let v = match *command {
        Command::Init => vec![0x00, 0x00],
        Command::Ack => Vec::new(),
        Command::GetAncStatus => vec![0x66, 0x17],
        Command::AncSet {
            dragging_ambient_sound_slider,
            mode,
            ambient_sound_voice_passthrough,
            ambient_sound_level,
        } => {
            if ambient_sound_level > MAX_COMMAND_AMBIENT_LEVEL {
                return Err(
                    CommandError::AmbientSoundLevelOutOfRange { level: ambient_sound_level },
                );
            }
            vec![
                0x68,
                0x17,
                flag(!dragging_ambient_sound_slider),
                flag(mode != AncMode::Off),
                flag(mode == AncMode::AmbientSound),
                flag(ambient_sound_voice_passthrough),
                ambient_sound_level as u8,
            ]
        },
        Command::GetBatteryStatus { battery_type } => vec![0x22, battery_type.to_byte()],
        Command::GetCodec => vec![0x12, 0x00],
        Command::GetEqualizerSettings => vec![0x56, 0x00],
        Command::ChangeEqualizerPreset { preset } => vec![0x58, 0x00, preset.to_byte(), 0x00],
        Command::ChangeEqualizerSetting {
            preset,
            bass_level,
            band_400,
            band_1000,
            band_2500,
            band_6300,
            band_16000,
        } => {
            if !preset.is_customizable() {
                return Err(CommandError::EqualizerPresetNotCustomizable { preset });
            }
            let b0 = band_to_byte(bass_level)?;
            let b1 = band_to_byte(band_400)?;
            let b2 = band_to_byte(band_1000)?;
            let b3 = band_to_byte(band_2500)?;
            let b4 = band_to_byte(band_6300)?;
            let b5 = band_to_byte(band_16000)?;
            vec![0x58, 0x00, preset.to_byte(), 0x06, b0, b1, b2, b3, b4, b5]
        },
        Command::SoundPressureMeasure { on } => vec![0x58, 0x03, 0x01, flag(!on)],
        Command::GetSoundPressure => vec![0x5a, 0x03],
    };
    assert(v@ =~= command_payload(*command));
    Ok(v)
}

/// Builds the frame that sends `command` with sequence number `seq` (for an
/// acknowledgement, the sequence number of the message acknowledged).
pub fn build_command(command: &Command, seq: u8) -> (res: Result<Vec<u8>, CommandError>)
    ensures
        match command_error(*command) {
            Some(e) => res == Err::<Vec<u8>, CommandError>(e),
            None => res matches Ok(v) && v@ == frame_bytes(
                command_type(*command),
                command_seq(*command, seq),
                command_payload(*command),
            ),
        },
{
    let payload = command_bytes(command)?;
    let (kind, frame_seq) = match command {
        Command::Ack => (MessageType::Ack, if seq == 0 { 1u8 } else { 0u8 }),
        Command::SoundPressureMeasure { .. } | Command::GetSoundPressure => (
            MessageType::Command2,
            seq,
        ),
        _ => (MessageType::Command1, seq),
    };
    Ok(encode_frame(kind, frame_seq, payload.as_slice()))
}

} // verus!
