use sony_anc::command::{
    build_command, AncMode, BatteryType, Command, CommandError, EqualizerPreset,
};
use sony_anc::frame::{
    encode_frame, FrameError, FrameParser, FrameParserResult, Message, MessageType,
};
use sony_anc::anc::{AncCliMode, AncState};
use sony_anc::link::{Ignored, Link, Received, SendError};
use sony_anc::payload::{parse_payload, BatteryLevel, ParsePayloadError, Payload, PayloadType};

fn feed_all(parser: &mut FrameParser, bytes: &[u8]) -> Vec<FrameParserResult> {
    bytes.iter().map(|b| parser.parse_byte(*b)).collect()
}

fn single_message(bytes: &[u8]) -> Message {
    let mut parser = FrameParser::new();
    let mut results = feed_all(&mut parser, bytes);
    let last = results.pop().expect("at least one byte");
    assert!(results.iter().all(|r| matches!(r, FrameParserResult::Incomplete)));
    match last {
        FrameParserResult::Ready { msg } => msg,
        other => panic!("expected a frame, got {:?}", other),
    }
}

#[test]
fn init_command_frame_bytes() {
    let bytes = build_command(&Command::Init, 0).unwrap();
    assert_eq!(
        bytes,
        vec![0x3e, 0x0c, 0x00, 0x00, 0x00, 0x00, 0x02, 0x00, 0x00, 0x0e, 0x3c]
    );
}

#[test]
fn ack_flips_sequence_number() {
    assert_eq!(
        build_command(&Command::Ack, 0).unwrap(),
        vec![0x3e, 0x01, 0x01, 0x00, 0x00, 0x00, 0x00, 0x02, 0x3c]
    );
    assert_eq!(
        build_command(&Command::Ack, 1).unwrap(),
        vec![0x3e, 0x01, 0x00, 0x00, 0x00, 0x00, 0x00, 0x01, 0x3c]
    );
}

#[test]
fn special_bytes_are_escaped() {
    let bytes = encode_frame(MessageType::Command1, 0, &[0x3c]);
    assert_eq!(
        bytes,
        vec![0x3e, 0x0c, 0x00, 0x00, 0x00, 0x00, 0x01, 0x3d, 0x2c, 0x49, 0x3c]
    );
    let msg = single_message(&bytes);
    assert_eq!(msg.payload, vec![0x3c]);
    assert!(msg.checksum.is_ok());
}

#[test]
fn frames_read_back_as_framed() {
    let payloads: [&[u8]; 4] = [&[], &[0x3e, 0x3d, 0x3c], &[0x67, 0x17, 0, 1, 1, 1, 10], &[0xff; 40]];
    for (i, payload) in payloads.iter().enumerate() {
        let seq = i as u8;
        let bytes = encode_frame(MessageType::Command2, seq, payload);
        let msg = single_message(&bytes);
        assert_eq!(msg.kind, Ok(MessageType::Command2));
        assert_eq!(msg.seq_num, seq);
        assert_eq!(msg.payload, payload.to_vec());
        assert!(msg.checksum.is_ok());
    }
}

#[test]
fn anc_set_payload_layout() {
    let cmd = Command::AncSet {
        dragging_ambient_sound_slider: false,
        mode: AncMode::AmbientSound,
        ambient_sound_voice_passthrough: true,
        ambient_sound_level: 15,
    };
    let msg = single_message(&build_command(&cmd, 1).unwrap());
    assert_eq!(msg.kind, Ok(MessageType::Command1));
    assert_eq!(msg.seq_num, 1);
    assert_eq!(msg.payload, vec![0x68, 0x17, 0x01, 0x01, 0x01, 0x01, 15]);
}

#[test]
fn other_command_payloads() {
    let cases: Vec<(Command, MessageType, Vec<u8>)> = vec![
        (Command::GetAncStatus, MessageType::Command1, vec![0x66, 0x17]),
        (
            Command::GetBatteryStatus { battery_type: BatteryType::Case },
            MessageType::Command1,
            vec![0x22, 0x0a],
        ),
        (Command::GetCodec, MessageType::Command1, vec![0x12, 0x00]),
        (Command::GetEqualizerSettings, MessageType::Command1, vec![0x56, 0x00]),
        (
            Command::ChangeEqualizerPreset { preset: EqualizerPreset::Bright },
            MessageType::Command1,
            vec![0x58, 0x00, 0x10, 0x00],
        ),
        (
            Command::ChangeEqualizerSetting {
                preset: EqualizerPreset::Custom1,
                bass_level: 3,
                band_400: -10,
                band_1000: 0,
                band_2500: 10,
                band_6300: 1,
                band_16000: -1,
            },
            MessageType::Command1,
            vec![0x58, 0x00, 0xa1, 0x06, 13, 0, 10, 20, 11, 9],
        ),
        (
            Command::SoundPressureMeasure { on: true },
            MessageType::Command2,
            vec![0x58, 0x03, 0x01, 0x00],
        ),
        (
            Command::SoundPressureMeasure { on: false },
            MessageType::Command2,
            vec![0x58, 0x03, 0x01, 0x01],
        ),
        (Command::GetSoundPressure, MessageType::Command2, vec![0x5a, 0x03]),
    ];
    for (cmd, kind, payload) in cases {
        let msg = single_message(&build_command(&cmd, 0).unwrap());
        assert_eq!(msg.kind, Ok(kind));
        assert_eq!(msg.payload, payload);
    }
}

#[test]
fn command_errors() {
    assert_eq!(
        build_command(
            &Command::ChangeEqualizerSetting {
                preset: EqualizerPreset::Bright,
                bass_level: 0,
                band_400: 0,
                band_1000: 0,
                band_2500: 0,
                band_6300: 0,
                band_16000: 0,
            },
            0
        ),
        Err(CommandError::EqualizerPresetNotCustomizable { preset: EqualizerPreset::Bright })
    );
    assert_eq!(
        build_command(
            &Command::ChangeEqualizerSetting {
                preset: EqualizerPreset::Manual,
                bass_level: 0,
                band_400: 11,
                band_1000: -11,
                band_2500: 0,
                band_6300: 0,
                band_16000: 0,
            },
            0
        ),
        Err(CommandError::EqualizerBandOutOfRange { band: 11 })
    );
    assert_eq!(
        build_command(
            &Command::AncSet {
                dragging_ambient_sound_slider: true,
                mode: AncMode::AmbientSound,
                ambient_sound_voice_passthrough: false,
                ambient_sound_level: 21,
            },
            0
        ),
        Err(CommandError::AmbientSoundLevelOutOfRange { level: 21 })
    );
}

#[test]
fn frame_errors() {
    let mut p = FrameParser::new();
    // A start byte inside a frame.
    let r = feed_all(&mut p, &[0x3e, 0x0c, 0x3e]);
    assert!(matches!(r[2], FrameParserResult::Error { err: FrameError::UnexpectedStart }));
    // An escape followed by a byte that escapes nothing.
    let r = feed_all(&mut p, &[0x3e, 0x0c, 0x3d, 0x00]);
    assert!(matches!(r[3], FrameParserResult::Error { err: FrameError::InvalidEscape { byte: 0 } }));
    // An end byte before the declared length.
    let r = feed_all(&mut p, &[0x3e, 0x0c, 0x00, 0x3c]);
    assert!(matches!(r[3], FrameParserResult::Error { err: FrameError::Truncated { len: 2 } }));
    // A complete body followed by something other than the end byte.
    let r = feed_all(&mut p, &[0x3e, 0x0c, 0x00, 0x00, 0x00, 0x00, 0x00, 0x0c, 0x55]);
    assert!(matches!(r[8], FrameParserResult::Error { err: FrameError::MissingEnd { byte: 0x55 } }));
    // Noise between frames is skipped, and the parser recovers.
    let r = feed_all(&mut p, &[0x00, 0x13, 0x3e, 0x0c, 0x00, 0x00, 0x00, 0x00, 0x00, 0x0c, 0x3c]);
    assert!(matches!(r[10], FrameParserResult::Ready { .. }));
}

#[test]
fn checksum_mismatch_is_reported() {
    let msg = single_message(&[0x3e, 0x0c, 0x00, 0x00, 0x00, 0x00, 0x00, 0x0d, 0x3c]);
    let err = msg.checksum.unwrap_err();
    assert_eq!(err.expected, 0x0c);
    assert_eq!(err.actual, 0x0d);
}

#[test]
fn unknown_message_type_is_kept() {
    let msg = single_message(&[0x3e, 0x07, 0x00, 0x00, 0x00, 0x00, 0x00, 0x07, 0x3c]);
    assert_eq!(msg.kind, Err(0x07));
}

#[test]
fn payload_errors() {
    assert_eq!(parse_payload(&[], MessageType::Command1), Err(ParsePayloadError::Empty));
    assert_eq!(
        parse_payload(&[0x01], MessageType::Ack),
        Err(ParsePayloadError::UnknownPayloadType { kind: 0x01 })
    );
    assert_eq!(
        parse_payload(&[0x59, 0x03, 0x01, 0x00], MessageType::Command1),
        Err(ParsePayloadError::PayloadTooSmall { payload_type: PayloadType::EqualizerNotify })
    );
    assert_eq!(
        parse_payload(&[0x42], MessageType::Command2),
        Err(ParsePayloadError::UnknownPayloadType { kind: 0x42 })
    );
    assert_eq!(
        parse_payload(&[0x23, 0x05, 1, 2, 3], MessageType::Command1),
        Err(ParsePayloadError::UnknownBatteryType { battery: 0x05 })
    );
    assert_eq!(
        parse_payload(&[0x57, 0, 0x33, 6, 10, 10, 10, 10, 10, 10], MessageType::Command1),
        Err(ParsePayloadError::UnknownEqualizerPreset { preset: 0x33 })
    );
    assert_eq!(
        parse_payload(&[0x15, 0, 0x77], MessageType::Command1),
        Err(ParsePayloadError::UnknownCodec { codec: 0x77 })
    );
    for (payload, kind, t) in [
        (&[0x25u8, 1, 2, 3][..], MessageType::Command1, PayloadType::BatteryLevelNotify),
        (&[0x69, 0, 0, 1, 1, 1][..], MessageType::Command1, PayloadType::AncStatusNotify),
        (&[0x13, 0][..], MessageType::Command1, PayloadType::CodecGet),
        (&[0x5b, 3][..], MessageType::Command2, PayloadType::PressureGet),
        (&[0x59, 3, 1][..], MessageType::Command2, PayloadType::SoundPressureMeasureReply),
    ] {
        assert_eq!(
            parse_payload(payload, kind),
            Err(ParsePayloadError::PayloadTooSmall { payload_type: t })
        );
    }
}

#[test]
fn equalizer_band_bytes_wrap_as_signed() {
    let payload = [0x59, 0x00, 0xa2, 0x06, 0, 20, 0x80, 0x89, 0x8a, 0xff];
    assert_eq!(
        parse_payload(&payload, MessageType::Command1),
        Ok(Payload::Equalizer {
            preset: EqualizerPreset::Custom2,
            clear_bass: -10,
            band_400: 10,
            band_1000: 118,
            band_2500: 127,
            band_6300: -128,
            band_16000: -11,
        })
    );
}

#[test]
fn notify_payloads_decode_like_replies() {
    assert_eq!(
        parse_payload(&[0x25, 0x0a, 40, 0, 0], MessageType::Command1),
        Ok(Payload::BatteryLevel(BatteryLevel::Case(40)))
    );
    assert_eq!(
        parse_payload(&[0x69, 0x17, 0, 1, 0, 2, 5], MessageType::Command1),
        Ok(Payload::AncStatus {
            mode: AncMode::ActiveNoiseCanceling,
            ambient_sound_voice_passthrough: false,
            ambient_sound_level: 5,
        })
    );
}

#[test]
fn link_waits_for_ack_between_commands() {
    let mut link = Link::new();
    let first = link.prepare_command(&Command::GetAncStatus).unwrap();
    assert_eq!(first[2], 0x00);
    assert!(link.waiting_for_ack());
    assert_eq!(
        link.prepare_command(&Command::GetCodec),
        Err(SendError::StillWaitingForAck)
    );
    // The earbuds acknowledge with the next sequence number.
    let ack = build_command(&Command::Ack, 0).unwrap();
    let mut got = Vec::new();
    for b in &ack {
        got.push(link.receive_byte(*b));
    }
    assert!(matches!(got.last(), Some(Received::Acked { seq: 1 })));
    assert!(!link.waiting_for_ack());
    assert_eq!(link.seq_number(), 1);
    let second = link.prepare_command(&Command::GetCodec).unwrap();
    assert_eq!(second[2], 0x01);
}

#[test]
fn link_refuses_invalid_command_and_stays_ready() {
    let mut link = Link::new();
    let cmd = Command::ChangeEqualizerPreset { preset: EqualizerPreset::Off };
    assert!(link.prepare_command(&cmd).is_ok());
    let mut link = Link::new();
    let bad = Command::AncSet {
        dragging_ambient_sound_slider: false,
        mode: AncMode::Off,
        ambient_sound_voice_passthrough: false,
        ambient_sound_level: 100,
    };
    assert_eq!(
        link.prepare_command(&bad),
        Err(SendError::Build(CommandError::AmbientSoundLevelOutOfRange { level: 100 }))
    );
    assert!(!link.waiting_for_ack());
    assert!(link.prepare_command(&Command::Ack).is_ok());
    assert!(!link.waiting_for_ack());
}

fn receive_all(link: &mut Link, bytes: &[u8]) -> Received {
    let mut last = Received::Nothing;
    for b in bytes {
        last = link.receive_byte(*b);
    }
    last
}

#[test]
fn link_acknowledges_payloads() {
    let mut link = Link::new();
    let frame = encode_frame(MessageType::Command1, 1, &[0x67, 0x17, 0, 1, 1, 1, 12]);
    match receive_all(&mut link, &frame) {
        Received::Payload { payload, ack } => {
            assert_eq!(
                payload,
                Payload::AncStatus {
                    mode: AncMode::AmbientSound,
                    ambient_sound_voice_passthrough: true,
                    ambient_sound_level: 12,
                }
            );
            assert_eq!(ack, build_command(&Command::Ack, 1).unwrap());
            assert_eq!(ack[2], 0x00);
        }
        other => panic!("unexpected {:?}", other),
    }
}

#[test]
fn link_reports_ignored_frames() {
    let mut link = Link::new();
    let bad_sum = [0x3e, 0x0c, 0x00, 0x00, 0x00, 0x00, 0x00, 0x0d, 0x3c];
    assert!(matches!(receive_all(&mut link, &bad_sum), Received::BadChecksum(_)));
    let unknown = encode_frame(MessageType::Command1, 0, &[0x99]);
    assert!(matches!(
        receive_all(&mut link, &unknown),
        Received::BadPayload(ParsePayloadError::UnknownPayloadType { kind: 0x99 })
    ));
    let odd_kind = [0x3e, 0x07, 0x00, 0x00, 0x00, 0x00, 0x00, 0x07, 0x3c];
    assert!(matches!(receive_all(&mut link, &odd_kind), Received::UnknownKind { byte: 0x07 }));
    assert!(matches!(
        receive_all(&mut link, &[0x3e, 0x3e]),
        Received::Malformed(FrameError::UnexpectedStart)
    ));
}

#[test]
fn chunk_keeps_last_status_and_collects_acks() {
    let mut link = Link::new();
    let mut bytes = Vec::new();
    bytes.extend(encode_frame(MessageType::Command1, 0, &[0x67, 0x17, 0, 1, 0, 0, 3]));
    bytes.extend([0x3e, 0x0c, 0x00, 0x00, 0x00, 0x00, 0x00, 0x0d, 0x3c]);
    bytes.extend(encode_frame(MessageType::Command1, 1, &[0x13, 0x00, 0x02]));
    bytes.extend(encode_frame(MessageType::Command1, 0, &[0x69, 0x17, 0, 1, 1, 1, 8]));
    bytes.extend(encode_frame(MessageType::Command1, 1, &[0x99]));
    bytes.extend(build_command(&Command::Ack, 1).unwrap());
    bytes.extend([0x3e, 0x0c]);
    let chunk = link.receive_chunk(&bytes);
    assert_eq!(
        chunk.acks,
        vec![
            build_command(&Command::Ack, 0).unwrap(),
            build_command(&Command::Ack, 1).unwrap(),
            build_command(&Command::Ack, 0).unwrap(),
        ]
    );
    assert_eq!(chunk.reported.len(), 2);
    assert!(matches!(chunk.reported[0], Ignored::BadChecksum(_)));
    assert_eq!(
        chunk.reported[1],
        Ignored::BadPayload(ParsePayloadError::UnknownPayloadType { kind: 0x99 })
    );
    assert_eq!(
        chunk.status,
        Ok(Some(AncState { mode: AncCliMode::Ambient, ambient_level: 8 }))
    );
    assert_eq!(link.seq_number(), 0);
    // The unfinished frame carries over to the next chunk.
    let rest = link.receive_chunk(&[0x00, 0x00, 0x00, 0x00, 0x00, 0x0c, 0x3c]);
    assert!(rest.acks.is_empty());
    assert_eq!(rest.status, Ok(None));
}

#[test]
fn chunk_stops_at_malformed_frame() {
    let mut link = Link::new();
    let mut bytes = encode_frame(MessageType::Command1, 1, &[0x67, 0x17, 0, 0, 0, 0, 0]);
    bytes.extend([0x3e, 0x3e]);
    bytes.extend(encode_frame(MessageType::Command1, 0, &[0x67, 0x17, 0, 1, 0, 0, 0]));
    let chunk = link.receive_chunk(&bytes);
    assert_eq!(chunk.acks, vec![build_command(&Command::Ack, 1).unwrap()]);
    assert_eq!(chunk.status, Err(FrameError::UnexpectedStart));
}
