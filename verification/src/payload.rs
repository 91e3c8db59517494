use vstd::prelude::*;

use crate::command::{battery_type_of, preset_of, AncMode, BatteryType, EqualizerPreset};
use crate::frame::MessageType;

verus! {

/// What a command payload is about, as named by its first byte.
#[derive(Clone, Copy, Debug, PartialEq, Eq, Structural)]
pub enum PayloadType {
    InitReply,
    BatteryLevel,
    BatteryLevelNotify,
    Equalizer,
    EqualizerNotify,
    AncStatus,
    AncStatusNotify,
    CodecGet,
    CodecNotify,
    SoundPressureMeasureReply,
    PressureGet,
}

/// The payload type that the first payload byte names under a message type.
/// Acks carry no typed payload; each of the two command kinds has its own table.
pub open spec fn payload_type_of(msg_type: MessageType, byte: u8) -> Option<PayloadType> {
    match msg_type {
        MessageType::Ack => None,
        MessageType::Command1 => {
            if byte == 0x01 {
                Some(PayloadType::InitReply)
            } else if byte == 0x13 {
                Some(PayloadType::CodecGet)
            } else if byte == 0x15 {
                Some(PayloadType::CodecNotify)
            } else if byte == 0x23 {
                Some(PayloadType::BatteryLevel)
            } else if byte == 0x25 {
                Some(PayloadType::BatteryLevelNotify)
            } else if byte == 0x57 {
                Some(PayloadType::Equalizer)
            } else if byte == 0x59 {
                Some(PayloadType::EqualizerNotify)
            } else if byte == 0x67 {
                Some(PayloadType::AncStatus)
            } else if byte == 0x69 {
                Some(PayloadType::AncStatusNotify)
            } else {
                None
            }
        },
        MessageType::Command2 => {
            if byte == 0x59 {
                Some(PayloadType::SoundPressureMeasureReply)
            } else if byte == 0x5b {
                Some(PayloadType::PressureGet)
            } else {
                None
            }
        },
    }
}

impl PayloadType {
    /// Decodes the type byte of a payload that came in a message of `msg_type`.
    pub fn from_byte(msg_type: MessageType, byte: u8) -> (res: Option<Self>)
        ensures
            res == payload_type_of(msg_type, byte),
    {
        Some(
            match msg_type {
                MessageType::Ack => return None,
                MessageType::Command1 => match byte {
                    0x1 => Self::InitReply,
                    0x13 => Self::CodecGet,
                    0x15 => Self::CodecNotify,
                    0x23 => Self::BatteryLevel,
                    0x25 => Self::BatteryLevelNotify,
                    0x57 => Self::Equalizer,
                    0x59 => Self::EqualizerNotify,
                    0x67 => Self::AncStatus,
                    0x69 => Self::AncStatusNotify,
                    _ => return None,
                },
                MessageType::Command2 => {
                    match byte {
                        // sound-pressure measurement switched on or off
                        0x59 => Self::SoundPressureMeasureReply,
                        // a sound-pressure reading
                        0x5b => Self::PressureGet,
                        _ => return None,
                    }
                },
            },
        )
    }
}

/// A battery reading, in percent.
#[derive(Clone, Copy, Debug, PartialEq, Eq, Structural)]
pub enum BatteryLevel {
    Case(usize),
    Headphones { left: usize, right: usize },
}

/// The audio codec in use.
#[derive(Clone, Copy, Debug, PartialEq, Eq, Structural)]
pub enum Codec {
    Unknown,
    Sbc,
    Aac,
    Ldac,
    Aptx,
    AptxHd,
}

/// The byte that names a codec.
pub open spec fn codec_byte(c: Codec) -> u8 {
    match c {
        Codec::Unknown => 0x00,
        Codec::Sbc => 0x01,
        Codec::Aac => 0x02,
        Codec::Ldac => 0x10,
        Codec::Aptx => 0x20,
        Codec::AptxHd => 0x21,
    }
}

/// The codec that a byte names, if any.
pub open spec fn codec_of(byte: u8) -> Option<Codec> {
    if byte == 0x00 {
        Some(Codec::Unknown)
    } else if byte == 0x01 {
        Some(Codec::Sbc)
    } else if byte == 0x02 {
        Some(Codec::Aac)
    } else if byte == 0x10 {
        Some(Codec::Ldac)
    } else if byte == 0x20 {
        Some(Codec::Aptx)
    } else if byte == 0x21 {
        Some(Codec::AptxHd)
    } else {
        None
    }
}

/// The display name of a codec.
pub open spec fn codec_name(c: Codec) -> Seq<char> {
    match c {
        Codec::Unknown => "unknown"@,
        Codec::Sbc => "SBC"@,
        Codec::Aac => "AAC"@,
        Codec::Ldac => "LDAC"@,
        Codec::Aptx => "APTX"@,
        Codec::AptxHd => "APTX HD"@,
    }
}

impl Codec {
    /// Decodes a codec byte.
    pub fn from_byte(byte: u8) -> (res: Option<Self>)
        ensures
            res == codec_of(byte),
    {
        Some(
            match byte {
                0 => Self::Unknown,
                0x1 => Self::Sbc,
                0x2 => Self::Aac,
                0x10 => Self::Ldac,
                0x20 => Self::Aptx,
                0x21 => Self::AptxHd,
                _ => return None,
            },
        )
    }

    /// The byte that names this codec.
    pub fn to_byte(&self) -> (b: u8)
        ensures
            b == codec_byte(*self),
    {
        match self {
            Self::Unknown => 0,
            Self::Sbc => 0x1,
            Self::Aac => 0x2,
            Self::Ldac => 0x10,
            Self::Aptx => 0x20,
            Self::AptxHd => 0x21,
        }
    }

    /// The display name of this codec.
    pub fn as_str(&self) -> (s: &'static str)
        ensures
            s@ == codec_name(*self),
    {
        match self {
            Self::Unknown => "unknown",
            Self::Sbc => "SBC",
            Self::Aac => "AAC",
            Self::Ldac => "LDAC",
            Self::Aptx => "APTX",
            Self::AptxHd => "APTX HD",
        }
    }
}

/// A codec's byte decodes back to that codec, and a byte that decodes to a
/// codec is that codec's byte.
pub proof fn law_codec_byte_roundtrip(c: Codec, byte: u8)
    ensures
        codec_of(codec_byte(c)) == Some(c),
        codec_of(byte) == Some(c) ==> codec_byte(c) == byte,
{
}

/// The name shown for each codec byte, and different codecs are shown by
/// different names.
pub proof fn law_codec_names(byte: u8, c1: Codec, c2: Codec)
    ensures
        codec_of(byte) matches Some(c) ==> codec_name(c) == if byte == 0x00 {
            "unknown"@
        } else if byte == 0x01 {
            "SBC"@
        } else if byte == 0x02 {
            "AAC"@
        } else if byte == 0x10 {
            "LDAC"@
        } else if byte == 0x20 {
            "APTX"@
        } else {
            "APTX HD"@
        },
        c1 != c2 ==> codec_name(c1) != codec_name(c2),
{
    reveal_strlit("unknown");
    reveal_strlit("SBC");
    reveal_strlit("AAC");
    reveal_strlit("LDAC");
    reveal_strlit("APTX");
    reveal_strlit("APTX HD");
    assert("unknown"@.len() == 7 && "APTX HD"@.len() == 7 && "unknown"@[0] == 'u');
    assert("SBC"@.len() == 3 && "AAC"@.len() == 3 && "SBC"@[0] == 'S' && "AAC"@[0] == 'A');
    assert("LDAC"@.len() == 4 && "APTX"@.len() == 4 && "LDAC"@[0] == 'L');
}

/// A decoded device payload.
#[derive(Clone, Copy, Debug, PartialEq, Eq, Structural)]
pub enum Payload {
    InitReply,
    BatteryLevel(BatteryLevel),
    Equalizer {
        preset: EqualizerPreset,
        clear_bass: i8,
        band_400: i8,
        band_1000: i8,
        band_2500: i8,
        band_6300: i8,
        band_16000: i8,
    },
    AncStatus { mode: AncMode, ambient_sound_voice_passthrough: bool, ambient_sound_level: u8 },
    Codec { codec: Codec },
    SoundPressureMeasureReply { is_on: bool },
    SoundPressure { db: usize },
}

/// Why a payload could not be decoded.
#[derive(Clone, Copy, Debug, PartialEq, Eq, Structural)]
pub enum ParsePayloadError {
    Empty,
    UnknownPayloadType { kind: u8 },
    UnknownBatteryType { battery: u8 },
    UnknownEqualizerPreset { preset: u8 },
    UnknownCodec { codec: u8 },
    PayloadTooSmall { payload_type: PayloadType },
}

/// An equalizer band byte carries the level plus 10; the level is that byte,
/// read as a signed byte, minus 10 with two's-complement wrap-around.
pub open spec fn band_level(byte: u8) -> i8 {
    if byte < 138 {
        (byte - 10) as i8
    } else {
        (byte - 266) as i8
    }
}

/// The noise-control mode of an ANC status payload: off when the switch byte is
/// zero, else noise cancelling when the ambient byte is zero, else ambient sound.
pub open spec fn anc_mode_of(switch_byte: u8, ambient_byte: u8) -> AncMode {
    if switch_byte == 0 {
        AncMode::Off
    } else if ambient_byte == 0 {
        AncMode::ActiveNoiseCanceling
    } else {
        AncMode::AmbientSound
    }
}

/// The fewest bytes a payload of each type holds.
pub open spec fn min_payload_len(t: PayloadType) -> nat {
    match t {
        PayloadType::InitReply => 1,
        PayloadType::BatteryLevel | PayloadType::BatteryLevelNotify => 5,
        PayloadType::Equalizer | PayloadType::EqualizerNotify => 10,
        PayloadType::AncStatus | PayloadType::AncStatusNotify => 7,
        PayloadType::CodecGet | PayloadType::CodecNotify => 3,
        PayloadType::PressureGet => 3,
        PayloadType::SoundPressureMeasureReply => 4,
    }
}

/// The payload that bytes `p` of type `t` decode to, given that `p` holds at
/// least `min_payload_len(t)` bytes.
///
/// Battery: byte 1 names the battery, byte 2 is the case level or the left
/// earbud, byte 4 the right earbud. Equalizer: byte 2 names the preset, bytes 4
/// to 9 are the bass and the 400 Hz, 1 kHz, 2.5 kHz, 6.3 kHz and 16 kHz bands.
/// ANC status: bytes 3 and 4 give the mode, byte 5 is 1 for voice passthrough,
/// byte 6 is the ambient level. Codec: byte 2. Sound pressure: byte 2 in dB.
/// Measurement reply: byte 3 is zero when measuring is on.
pub open spec fn decode_typed(t: PayloadType, p: Seq<u8>) -> Result<Payload, ParsePayloadError> {
    match t {
        PayloadType::InitReply => Ok(Payload::InitReply),
        PayloadType::BatteryLevel | PayloadType::BatteryLevelNotify => match battery_type_of(p[1]) {
            None => Err(ParsePayloadError::UnknownBatteryType { battery: p[1] }),
            Some(BatteryType::Case) => Ok(Payload::BatteryLevel(BatteryLevel::Case(p[2] as usize))),
            Some(BatteryType::Headphones) => Ok(
                Payload::BatteryLevel(
                    BatteryLevel::Headphones { left: p[2] as usize, right: p[4] as usize },
                ),
            ),
        },
        PayloadType::Equalizer | PayloadType::EqualizerNotify => match preset_of(p[2]) {
            None => Err(ParsePayloadError::UnknownEqualizerPreset { preset: p[2] }),
            Some(preset) => Ok(
                Payload::Equalizer {
                    preset,
                    clear_bass: band_level(p[4]),
                    band_400: band_level(p[5]),
                    band_1000: band_level(p[6]),
                    band_2500: band_level(p[7]),
                    band_6300: band_level(p[8]),
                    band_16000: band_level(p[9]),
                },
            ),
        },
        PayloadType::AncStatus | PayloadType::AncStatusNotify => Ok(
            Payload::AncStatus {
                mode: anc_mode_of(p[3], p[4]),
                ambient_sound_voice_passthrough: p[5] == 1,
                ambient_sound_level: p[6],
            },
        ),
        PayloadType::CodecGet | PayloadType::CodecNotify => match codec_of(p[2]) {
            None => Err(ParsePayloadError::UnknownCodec { codec: p[2] }),
            Some(codec) => Ok(Payload::Codec { codec }),
        },
        PayloadType::PressureGet => Ok(Payload::SoundPressure { db: p[2] as usize }),
        PayloadType::SoundPressureMeasureReply => Ok(
            Payload::SoundPressureMeasureReply { is_on: p[3] == 0 },
        ),
    }
}

/// What `parse_payload` returns for bytes `p` that came in a message of `msg_type`.
pub open spec fn payload_result(p: Seq<u8>, msg_type: MessageType) -> Result<
    Payload,
    ParsePayloadError,
> {
    if p.len() == 0 {
        Err(ParsePayloadError::Empty)
    } else {
        match payload_type_of(msg_type, p[0]) {
            None => Err(ParsePayloadError::UnknownPayloadType { kind: p[0] }),
            Some(t) => if p.len() < min_payload_len(t) {
                Err(ParsePayloadError::PayloadTooSmall { payload_type: t })
            } else {
                decode_typed(t, p)
            },
        }
    }
}

/// Reads an equalizer band byte.
fn band_from_byte(byte: u8) -> (level: i8)
    ensures
        level == band_level(byte),
{
    let signed = byte as i8;
    assert(byte < 128 ==> signed == byte as i16) by (bit_vector)
        requires
            signed == byte as i8,
    ;
    assert(byte >= 128 ==> signed == byte as i16 - 256) by (bit_vector)
        requires
            signed == byte as i8,
    ;
    signed.wrapping_sub(10)
}

/// Decodes the payload of a command message.
pub fn parse_payload(payload: &[u8], message_type: MessageType) -> (res: Result<
    Payload,
    ParsePayloadError,
>)
    ensures
        res == payload_result(payload@, message_type),
{
    if payload.len() == 0 {
        return Err(ParsePayloadError::Empty);
    }
    let payload_type = match PayloadType::from_byte(message_type, payload[0]) {
        Some(t) => t,
        None => return Err(ParsePayloadError::UnknownPayloadType { kind: payload[0] }),
    };

    Ok(
        match payload_type {
            PayloadType::InitReply => Payload::InitReply,
            PayloadType::BatteryLevel | PayloadType::BatteryLevelNotify => {
                if payload.len() < 5 {
                    return Err(ParsePayloadError::PayloadTooSmall { payload_type });
                }
                let battery_type = match BatteryType::from_byte(payload[1]) {
                    Some(t) => t,
                    None => return Err(
                        ParsePayloadError::UnknownBatteryType { battery: payload[1] },
                    ),
                };
                match battery_type {
                    BatteryType::Case => Payload::BatteryLevel(
                        BatteryLevel::Case(payload[2] as usize),
                    ),
                    BatteryType::Headphones => Payload::BatteryLevel(
                        BatteryLevel::Headphones {
                            left: payload[2] as usize,
                            right: payload[4] as usize,
                        },
                    ),
                }
            },
            PayloadType::Equalizer | PayloadType::EqualizerNotify => {
                if payload.len() < 10 {
                    return Err(ParsePayloadError::PayloadTooSmall { payload_type });
                }
                let clear_bass = band_from_byte(payload[4]);
                let band_400 = band_from_byte(payload[5]);
                let band_1000 = band_from_byte(payload[6]);
                let band_2500 = band_from_byte(payload[7]);
                let band_6300 = band_from_byte(payload[8]);
                let band_16000 = band_from_byte(payload[9]);
                let preset = match EqualizerPreset::from_byte(payload[2]) {
                    Some(p) => p,
                    None => return Err(
                        ParsePayloadError::UnknownEqualizerPreset { preset: payload[2] },
                    ),
                };
                Payload::Equalizer {
                    preset,
                    clear_bass,
                    band_400,
                    band_1000,
                    band_2500,
                    band_6300,
                    band_16000,
                }
            },
            PayloadType::AncStatus | PayloadType::AncStatusNotify => {
                if payload.len() < 7 {
                    return Err(ParsePayloadError::PayloadTooSmall { payload_type });
                }
                let mode = if payload[3] == 0 {
                    AncMode::Off
                } else if payload[4] == 0 {
                    AncMode::ActiveNoiseCanceling
                } else {
                    AncMode::AmbientSound
                };
                let ambient_sound_voice_passthrough = payload[5] == 1;

                let ambient_sound_level = payload[6];

                Payload::AncStatus { mode, ambient_sound_voice_passthrough, ambient_sound_level }
            },
            PayloadType::CodecGet | PayloadType::CodecNotify => {
                if payload.len() < 3 {
                    return Err(ParsePayloadError::PayloadTooSmall { payload_type });
                }
                let codec = match Codec::from_byte(payload[2]) {
                    Some(c) => c,
                    None => return Err(ParsePayloadError::UnknownCodec { codec: payload[2] }),
                };
                Payload::Codec { codec }
            },
            PayloadType::PressureGet => {
                if payload.len() < 3 {
                    return Err(ParsePayloadError::PayloadTooSmall { payload_type });
                }
                // The reading sits between two marker bytes; byte 2 is the level in dB.
                Payload::SoundPressure { db: payload[2] as usize }
            },
            PayloadType::SoundPressureMeasureReply => {
                if payload.len() < 4 {
                    return Err(ParsePayloadError::PayloadTooSmall { payload_type });
                }
                Payload::SoundPressureMeasureReply { is_on: payload[3] == 0 }
            },
        },
    )
}

} // verus!
