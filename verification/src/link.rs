use vstd::prelude::*;

use crate::command::{
    build_command, command_error, command_payload, command_seq, command_type, Command,
    CommandError,
};
use crate::frame::{
    checksum_of, frame_bytes, message_type_of, parser_step, ChecksumMismatch, FrameError,
    FrameParser, FrameParserResult, MessageType, ParserMode,
};
use crate::anc::{anc_state_of, spec_anc_state_of, AncState};
use crate::payload::{parse_payload, payload_result, ParsePayloadError, Payload};

verus! {

/// The conversation with the earbuds: the frame being reassembled, the
/// sequence number to send with, and whether a sent command awaits its
/// acknowledgement.
pub struct Link {
    parser: FrameParser,
    seq_number: u8,
    waiting_for_ack: bool,
}

/// The state of a link: parser mode and body, sequence number, waiting flag.
#[verifier::ext_equal]
pub struct LinkView {
    pub parser: (ParserMode, Seq<u8>),
    pub seq_number: u8,
    pub waiting_for_ack: bool,
}

impl View for Link {
    type V = LinkView;

    closed spec fn view(&self) -> LinkView {
        LinkView {
            parser: self.parser@,
            seq_number: self.seq_number,
            waiting_for_ack: self.waiting_for_ack,
        }
    }
}

/// Why a command was not sent.
#[derive(Clone, Copy, Debug, PartialEq, Eq, Structural)]
pub enum SendError {
    /// The previous command has not been acknowledged yet.
    StillWaitingForAck,
    /// The command itself is invalid.
    Build(CommandError),
}

/// What one received byte brought.
#[derive(Debug)]
pub enum Received {
    /// Nothing yet: no frame ended with this byte.
    Nothing,
    /// The frame was malformed; the conversation cannot go on.
    Malformed(FrameError),
    /// A frame whose checksum did not match; it is ignored.
    BadChecksum(ChecksumMismatch),
    /// A frame of a type that is not known; it is ignored.
    UnknownKind { byte: u8 },
    /// The earbuds acknowledged the last command; `seq` is the sequence number
    /// to send with from now on.
    Acked { seq: u8 },
    /// A command frame whose payload could not be decoded; it is ignored and
    /// not acknowledged.
    BadPayload(ParsePayloadError),
    /// A decoded payload, and the acknowledgement frame to send back for it.
    Payload { payload: Payload, ack: Vec<u8> },
}

/// Whether the last byte of a complete frame body is the checksum of the rest.
pub open spec fn frame_checksum_ok(body: Seq<u8>) -> bool {
    checksum_of(body.drop_last()) == body.last()
}

/// The payload bytes of a complete frame body.
pub open spec fn body_payload(body: Seq<u8>) -> Seq<u8> {
    body.subrange(6, body.len() - 1)
}

/// A received frame that is dropped but worth reporting.
#[derive(Clone, Copy, Debug, PartialEq, Eq, Structural)]
pub enum Ignored {
    BadChecksum(ChecksumMismatch),
    BadPayload(ParsePayloadError),
}

/// What one received byte brings, as far as the conversation is concerned.
pub enum Step {
    /// No frame ended.
    Nothing,
    /// The frame was malformed.
    Malformed(FrameError),
    /// A frame was dropped and is to be reported.
    Reported(Ignored),
    /// A frame of an unknown type was dropped silently.
    Dropped,
    /// An acknowledgement arrived.
    Acked,
    /// A payload arrived in a frame with this sequence number.
    Delivered(Payload, u8),
}

/// The acknowledgement frame for a message with sequence number `seq`.
pub open spec fn ack_bytes(seq: u8) -> Seq<u8> {
    frame_bytes(MessageType::Ack, command_seq(Command::Ack, seq), Seq::empty())
}

/// The link after one received byte, and what the byte brought. When a frame
/// ends with a good checksum: an acknowledgement takes its sequence number and
/// clears the wait; a command frame delivers its decoded payload, or is
/// reported when the payload does not decode; an unknown kind is dropped.
pub open spec fn receive_step(v: LinkView, byte: u8) -> (LinkView, Step) {
    let (mode, next_body, outcome) = parser_step(v.parser.0, v.parser.1, byte);
    let body = v.parser.1;
    let w = LinkView {
        parser: (mode, next_body),
        seq_number: v.seq_number,
        waiting_for_ack: v.waiting_for_ack,
    };
    match outcome {
        None => (w, Step::Nothing),
        Some(Err(e)) => (w, Step::Malformed(e)),
        Some(Ok(())) => if !frame_checksum_ok(body) {
            (
                w,
                Step::Reported(
                    Ignored::BadChecksum(
                        ChecksumMismatch {
                            expected: checksum_of(body.drop_last()),
                            actual: body.last(),
                        },
                    ),
                ),
            )
        } else {
            match message_type_of(body[0]) {
                None => (w, Step::Dropped),
                Some(MessageType::Ack) => (
                    LinkView {
                        parser: (mode, next_body),
                        seq_number: body[1],
                        waiting_for_ack: false,
                    },
                    Step::Acked,
                ),
                Some(t) => match payload_result(body_payload(body), t) {
                    Err(e) => (w, Step::Reported(Ignored::BadPayload(e))),
                    Ok(p) => (w, Step::Delivered(p, body[1])),
                },
            }
        },
    }
}

/// Whether what `receive_byte` returned is the step `st`.
pub open spec fn received_is(r: Received, st: Step) -> bool {
    match r {
        Received::Nothing => st is Nothing,
        Received::Malformed(e) => st == Step::Malformed(e),
        Received::BadChecksum(m) => st == Step::Reported(Ignored::BadChecksum(m)),
        Received::UnknownKind { .. } => st is Dropped,
        Received::Acked { .. } => st is Acked,
        Received::BadPayload(e) => st == Step::Reported(Ignored::BadPayload(e)),
        Received::Payload { payload, ack } => st matches Step::Delivered(p, s) && p == payload
            && ack@ == ack_bytes(s),
    }
}

/// What a chunk of received bytes brought: the link after it, the
/// acknowledgements to send, the frames to report, the last noise-control
/// status delivered, and the error that cut the chunk short, if any.
#[verifier::ext_equal]
pub struct ChunkView {
    pub link: LinkView,
    pub acks: Seq<Seq<u8>>,
    pub reported: Seq<Ignored>,
    pub latest: Option<AncState>,
    pub error: Option<FrameError>,
}

/// Adds what came before to what a later part of a chunk brought.
pub open spec fn after(
    acks: Seq<Seq<u8>>,
    reported: Seq<Ignored>,
    latest: Option<AncState>,
    rest: ChunkView,
) -> ChunkView {
    ChunkView {
        link: rest.link,
        acks: acks + rest.acks,
        reported: reported + rest.reported,
        latest: if rest.latest is Some {
            rest.latest
        } else {
            latest
        },
        error: rest.error,
    }
}

/// What receiving `bytes` from link state `v` brings; a malformed frame stops
/// the chunk.
pub open spec fn receive_all(v: LinkView, bytes: Seq<u8>) -> ChunkView
    decreases bytes.len(),
{
    if bytes.len() == 0 {
        ChunkView { link: v, acks: Seq::empty(), reported: Seq::empty(), latest: None, error: None }
    } else {
        let (w, st) = receive_step(v, bytes[0]);
        match st {
            Step::Malformed(e) => ChunkView {
                link: w,
                acks: Seq::empty(),
                reported: Seq::empty(),
                latest: None,
                error: Some(e),
            },
            _ => after(
                match st {
                    Step::Delivered(_, s) => seq![ack_bytes(s)],
                    _ => Seq::empty(),
                },
                match st {
                    Step::Reported(k) => seq![k],
                    _ => Seq::empty(),
                },
                match st {
                    Step::Delivered(p, _) => spec_anc_state_of(p),
                    _ => None,
                },
                receive_all(w, bytes.drop_first()),
            ),
        }
    }
}

/// What a chunk of received bytes brought.
#[derive(Debug)]
pub struct Chunk {
    /// The acknowledgements to send, in order.
    pub acks: Vec<Vec<u8>>,
    /// The frames dropped that are worth reporting, in order.
    pub reported: Vec<Ignored>,
    /// The last noise-control status delivered, or the error that ended the chunk.
    pub status: Result<Option<AncState>, FrameError>,
}

impl Link {
    /// A fresh conversation: nothing received, sequence number 0, nothing
    /// awaiting acknowledgement.
    pub fn new() -> (l: Self)
        ensures
            l@.parser == (ParserMode::Idle, Seq::<u8>::empty()),
            l@.seq_number == 0,
            !l@.waiting_for_ack,
    {
        Link { parser: FrameParser::new(), seq_number: 0, waiting_for_ack: false }
    }

    /// Whether a sent command awaits its acknowledgement.
    pub fn waiting_for_ack(&self) -> (b: bool)
        ensures
            b == self@.waiting_for_ack,
    {
        self.waiting_for_ack
    }

    /// The sequence number the next command is sent with.
    pub fn seq_number(&self) -> (s: u8)
        ensures
            s == self@.seq_number,
    {
        self.seq_number
    }

    /// The frame that sends `command`. Refused while a command awaits its
    /// acknowledgement, and for an invalid command; otherwise, any command but
    /// an acknowledgement now awaits one.
    pub fn prepare_command(&mut self, command: &Command) -> (res: Result<Vec<u8>, SendError>)
        ensures
            final(self)@.parser == old(self)@.parser,
            final(self)@.seq_number == old(self)@.seq_number,
            old(self)@.waiting_for_ack ==> res == Err::<Vec<u8>, SendError>(
                SendError::StillWaitingForAck,
            ) && final(self)@.waiting_for_ack,
            !old(self)@.waiting_for_ack ==> match command_error(*command) {
                Some(e) => res == Err::<Vec<u8>, SendError>(SendError::Build(e))
                    && !final(self)@.waiting_for_ack,
                None => {
                    &&& res matches Ok(v) && v@ == frame_bytes(
                        command_type(*command),
                        command_seq(*command, old(self)@.seq_number),
                        command_payload(*command),
                    )
                    &&& final(self)@.waiting_for_ack == (*command != Command::Ack)
                },
            },
    {
        if self.waiting_for_ack {
            return Err(SendError::StillWaitingForAck);
        }
        let bytes = match build_command(command, self.seq_number) {
            Ok(b) => b,
            Err(e) => return Err(SendError::Build(e)),
        };
        self.waiting_for_ack = match command {
            Command::Ack => false,
            _ => true,
        };
        Ok(bytes)
    }

    /// Feeds one received byte. When it ends a well-formed frame: an
    /// acknowledgement takes the sequence number it carries and clears the
    /// wait; a command frame has its payload decoded and, when that works, an
    /// acknowledgement is prepared for it.
    pub fn receive_byte(&mut self, byte: u8) -> (res: Received)
        ensures
            ({
                let (w, st) = receive_step(old(self)@, byte);
                final(self)@ == w && received_is(res, st)
            }),
            ({
                let (mode, next_body, outcome) = parser_step(
                    old(self)@.parser.0,
                    old(self)@.parser.1,
                    byte,
                );
                let body = old(self)@.parser.1;
                &&& final(self)@.parser == (mode, next_body)
                &&& match res {
                    Received::Acked { .. } => true,
                    _ => final(self)@.seq_number == old(self)@.seq_number
                        && final(self)@.waiting_for_ack == old(self)@.waiting_for_ack,
                }
                &&& match res {
                    Received::Nothing => outcome is None,
                    Received::Malformed(e) => outcome == Some(Err::<(), FrameError>(e)),
                    Received::BadChecksum(m) => {
                        &&& outcome == Some(Ok::<(), FrameError>(()))
                        &&& !frame_checksum_ok(body)
                        &&& m == ChecksumMismatch {
                            expected: checksum_of(body.drop_last()),
                            actual: body.last(),
                        }
                    },
                    Received::UnknownKind { byte: k } => {
                        &&& outcome == Some(Ok::<(), FrameError>(()))
                        &&& frame_checksum_ok(body)
                        &&& message_type_of(body[0]) is None
                        &&& k == body[0]
                    },
                    Received::Acked { seq } => {
                        &&& outcome == Some(Ok::<(), FrameError>(()))
                        &&& frame_checksum_ok(body)
                        &&& message_type_of(body[0]) == Some(MessageType::Ack)
                        &&& seq == body[1]
                        &&& final(self)@.seq_number == body[1]
                        &&& !final(self)@.waiting_for_ack
                    },
                    Received::BadPayload(e) => {
                        &&& outcome == Some(Ok::<(), FrameError>(()))
                        &&& frame_checksum_ok(body)
                        &&& message_type_of(body[0]) matches Some(t) && t != MessageType::Ack
                            && payload_result(body_payload(body), t) == Err::<
                            Payload,
                            ParsePayloadError,
                        >(e)
                    },
                    Received::Payload { payload, ack } => {
                        &&& outcome == Some(Ok::<(), FrameError>(()))
                        &&& frame_checksum_ok(body)
                        &&& message_type_of(body[0]) matches Some(t) && t != MessageType::Ack
                            && payload_result(body_payload(body), t) == Ok::<
                            Payload,
                            ParsePayloadError,
                        >(payload)
                        &&& ack@ == frame_bytes(
                            MessageType::Ack,
                            command_seq(Command::Ack, body[1]),
                            Seq::empty(),
                        )
                    },
                }
            }),
    {
        let msg = match self.parser.parse_byte(byte) {
            FrameParserResult::Incomplete => return Received::Nothing,
            FrameParserResult::Error { err } => return Received::Malformed(err),
            FrameParserResult::Ready { msg } => msg,
        };
        if let Err(m) = msg.checksum {
            return Received::BadChecksum(m);
        }
        let kind = match msg.kind {
            Ok(k) => k,
            Err(b) => return Received::UnknownKind { byte: b },
        };
        match kind {
            MessageType::Ack => {
                self.seq_number = msg.seq_num;
                self.waiting_for_ack = false;
                Received::Acked { seq: msg.seq_num }
            },
            MessageType::Command1 | MessageType::Command2 => {
                let payload = match parse_payload(msg.payload.as_slice(), kind) {
                    Ok(p) => p,
                    Err(e) => return Received::BadPayload(e),
                };
                // An acknowledgement always builds.
                let ack = match build_command(&Command::Ack, msg.seq_num) {
                    Ok(a) => a,
                    Err(_) => Vec::new(),
                };
                Received::Payload { payload, ack }
            },
        }
    }

    /// Feeds a chunk of received bytes: collects the acknowledgements to send
    /// and the frames to report, and keeps the last noise-control status
    /// delivered; a malformed frame ends the chunk with its error.
    pub fn receive_chunk(&mut self, bytes: &[u8]) -> (res: Chunk)
        ensures
            ({
                let r = receive_all(old(self)@, bytes@);
                &&& final(self)@ == r.link
                &&& res.acks@.map_values(|a: Vec<u8>| a@) == r.acks
                &&& res.reported@ == r.reported
                &&& res.status == match r.error {
                    Some(e) => Err::<Option<AncState>, FrameError>(e),
                    None => Ok(r.latest),
                }
            }),
    {
        let ghost start = self@;
        let mut acks: Vec<Vec<u8>> = Vec::new();
        let mut reported: Vec<Ignored> = Vec::new();
        let mut latest: Option<AncState> = None;
        let mut i: usize = 0;
        assert(bytes@.skip(0) =~= bytes@);
        assert(acks@.map_values(|a: Vec<u8>| a@) =~= Seq::<Seq<u8>>::empty());
        assert(after(Seq::empty(), Seq::empty(), None, receive_all(self@, bytes@)) =~= receive_all(
            start,
            bytes@,
        ));
        while i < bytes.len()
            invariant
                i <= bytes@.len(),
                start == old(self)@,
                receive_all(start, bytes@) == after(
                    acks@.map_values(|a: Vec<u8>| a@),
                    reported@,
                    latest,
                    receive_all(self@, bytes@.skip(i as int)),
                ),
            decreases bytes@.len() - i,
        {
            let ghost before = self@;
            let ghost rest = bytes@.skip(i as int);
            assert(rest[0] == bytes@[i as int]);
            assert(rest.drop_first() =~= bytes@.skip(i + 1));
            let got = self.receive_byte(bytes[i]);
            let ghost old_acks = acks@.map_values(|a: Vec<u8>| a@);
            let ghost old_reported = reported@;
            let ghost old_latest = latest;
            match got {
                Received::Malformed(e) => {
                    assert(receive_all(before, rest) =~= ChunkView {
                        link: self@,
                        acks: Seq::empty(),
                        reported: Seq::empty(),
                        latest: None,
                        error: Some(e),
                    });
                    assert(old_acks + Seq::<Seq<u8>>::empty() =~= old_acks);
                    assert(old_reported + Seq::<Ignored>::empty() =~= old_reported);
                    return Chunk { acks, reported, status: Err(e) };
                },
                Received::BadChecksum(m) => {
                    reported.push(Ignored::BadChecksum(m));
                },
                Received::BadPayload(e) => {
                    reported.push(Ignored::BadPayload(e));
                },
                Received::Payload { payload, ack } => {
                    acks.push(ack);
                    if let Some(st) = anc_state_of(&payload) {
                        latest = Some(st);
                    }
                },
                _ => {},
            }
            proof {
                let tail = receive_all(self@, bytes@.skip(i + 1));
                assert(acks@.map_values(|a: Vec<u8>| a@) =~= old_acks + match receive_step(
                    before,
                    bytes@[i as int],
                ).1 {
                    Step::Delivered(_, s) => seq![ack_bytes(s)],
                    _ => Seq::empty(),
                });
                assert(reported@ =~= old_reported + match receive_step(before, bytes@[i as int]).1 {
                    Step::Reported(k) => seq![k],
                    _ => Seq::empty(),
                });
                assert((old_acks + match receive_step(before, bytes@[i as int]).1 {
                    Step::Delivered(_, s) => seq![ack_bytes(s)],
                    _ => Seq::empty(),
                }) + tail.acks =~= old_acks + (match receive_step(before, bytes@[i as int]).1 {
                    Step::Delivered(_, s) => seq![ack_bytes(s)],
                    _ => Seq::empty(),
                } + tail.acks));
                assert((old_reported + match receive_step(before, bytes@[i as int]).1 {
                    Step::Reported(k) => seq![k],
                    _ => Seq::empty(),
                }) + tail.reported =~= old_reported + (match receive_step(
                    before,
                    bytes@[i as int],
                ).1 {
                    Step::Reported(k) => seq![k],
                    _ => Seq::empty(),
                } + tail.reported));
            }
            i = i + 1;
        }
        assert(bytes@.skip(i as int) =~= Seq::<u8>::empty());
        assert(receive_all(self@, bytes@.skip(i as int)).link == self@);
        assert(acks@.map_values(|a: Vec<u8>| a@) + Seq::<Seq<u8>>::empty() =~= acks@.map_values(
            |a: Vec<u8>| a@,
        ));
        assert(reported@ + Seq::<Ignored>::empty() =~= reported@);
        Chunk { acks, reported, status: Ok(latest) }
    }
}

} // verus!
