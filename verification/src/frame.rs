use vstd::prelude::*;

verus! {

/// The kind of a frame, as named by its first body byte.
#[derive(Clone, Copy, Debug, PartialEq, Eq, Structural)]
pub enum MessageType {
    Ack,
    Command1,
    Command2,
}

/// The byte that names a message type.
pub open spec fn message_type_byte(t: MessageType) -> u8 {
    match t {
        MessageType::Ack => 0x01,
        MessageType::Command1 => 0x0c,
        MessageType::Command2 => 0x0e,
    }
}

/// The message type that a byte names, if any.
pub open spec fn message_type_of(byte: u8) -> Option<MessageType> {
    if byte == 0x01 {
        Some(MessageType::Ack)
    } else if byte == 0x0c {
        Some(MessageType::Command1)
    } else if byte == 0x0e {
        Some(MessageType::Command2)
    } else {
        None
    }
}

impl MessageType {
    /// Decodes a message-type byte.
    pub fn from_byte(byte: u8) -> (res: Option<Self>)
        ensures
            res == message_type_of(byte),
    {
        match byte {
            0x01 => Some(MessageType::Ack),
            0x0c => Some(MessageType::Command1),
            0x0e => Some(MessageType::Command2),
            _ => None,
        }
    }

    /// The byte that names this message type.
    pub fn to_byte(self) -> (b: u8)
        ensures
            b == message_type_byte(self),
    {
        match self {
            MessageType::Ack => 0x01,
            MessageType::Command1 => 0x0c,
            MessageType::Command2 => 0x0e,
        }
    }
}

/// A message type's byte decodes back to that message type, and a byte that
/// decodes to a message type is that type's byte.
pub proof fn law_message_type_byte_roundtrip(t: MessageType, byte: u8)
    ensures
        message_type_of(message_type_byte(t)) == Some(t),
        message_type_of(byte) == Some(t) ==> message_type_byte(t) == byte,
{
}

/// The byte that opens a frame.
pub const FRAME_START: u8 = 0x3e;

/// The byte that closes a frame.
pub const FRAME_END: u8 = 0x3c;

/// The byte that announces an escaped byte inside a frame.
pub const FRAME_ESCAPE: u8 = 0x3d;

/// The sum of the bytes of `s`.
pub open spec fn byte_sum(s: Seq<u8>) -> nat
    decreases s.len(),
{
    if s.len() == 0 {
        0
    } else {
        byte_sum(s.drop_last()) + (s.last() as nat)
    }
}

/// The checksum of a frame body: the sum of its bytes modulo 256.
pub open spec fn checksum_of(s: Seq<u8>) -> u8 {
    (byte_sum(s) % 256) as u8
}

/// `n` as four big-endian bytes.
pub open spec fn be32(n: nat) -> Seq<u8> {
    seq![
        ((n / 0x1000000) % 256) as u8,
        ((n / 0x10000) % 256) as u8,
        ((n / 0x100) % 256) as u8,
        (n % 256) as u8,
    ]
}

/// The number that four big-endian bytes of `s`, from `at`, hold.
pub open spec fn be32_at(s: Seq<u8>, at: int) -> nat {
    (s[at] as nat) * 0x1000000 + (s[at + 1] as nat) * 0x10000 + (s[at + 2] as nat) * 0x100 + (
    s[at + 3] as nat)
}

/// The body of a frame: kind, sequence number, payload length in four
/// big-endian bytes, the payload, and the checksum of all that.
pub open spec fn frame_body(kind: MessageType, seq: u8, payload: Seq<u8>) -> Seq<u8> {
    let unsummed = seq![message_type_byte(kind), seq] + be32(payload.len()) + payload;
    unsummed.push(checksum_of(unsummed))
}

/// The three bytes that cannot stand bare inside a frame.
pub open spec fn is_special(b: u8) -> bool {
    b == FRAME_START || b == FRAME_END || b == FRAME_ESCAPE
}

/// A body byte as it is sent: a special byte becomes the escape byte followed
/// by the byte with bit 4 cleared.
pub open spec fn escape_byte(b: u8) -> Seq<u8> {
    if is_special(b) {
        seq![FRAME_ESCAPE, (b - 0x10) as u8]
    } else {
        seq![b]
    }
}

/// A body as it is sent.
pub open spec fn escape(s: Seq<u8>) -> Seq<u8>
    decreases s.len(),
{
    if s.len() == 0 {
        Seq::empty()
    } else {
        escape(s.drop_last()) + escape_byte(s.last())
    }
}

/// A whole frame as it is sent: start byte, escaped body, end byte.
pub open spec fn frame_bytes(kind: MessageType, seq: u8, payload: Seq<u8>) -> Seq<u8> {
    seq![FRAME_START] + escape(frame_body(kind, seq, payload)) + seq![FRAME_END]
}

proof fn lemma_sum_take_step(s: Seq<u8>, j: int)
    requires
        0 <= j < s.len(),
    ensures
        byte_sum(s.take(j + 1)) == byte_sum(s.take(j)) + s[j],
{
    assert(s.take(j + 1).drop_last() =~= s.take(j));
}

proof fn lemma_escape_take_step(s: Seq<u8>, j: int)
    requires
        0 <= j < s.len(),
    ensures
        escape(s.take(j + 1)) == escape(s.take(j)) + escape_byte(s[j]),
{
    assert(s.take(j + 1).drop_last() =~= s.take(j));
}

/// Frames `payload` as a message of `kind` with sequence number `seq`.
pub fn encode_frame(kind: MessageType, seq: u8, payload: &[u8]) -> (out: Vec<u8>)
    requires
        payload@.len() <= u32::MAX,
    ensures
        out@ == frame_bytes(kind, seq, payload@),
{
    let len = payload.len() as u32;
    let mut body: Vec<u8> = Vec::new();
    body.push(kind.to_byte());
    body.push(seq);
    body.push((len / 0x1000000) as u8);
    body.push(((len / 0x10000) % 256) as u8);
    body.push(((len / 0x100) % 256) as u8);
    body.push((len % 256) as u8);
    let ghost header = seq![message_type_byte(kind), seq] + be32(payload@.len());
    assert(body@ =~= header);

    let mut i: usize = 0;
    while i < payload.len()
        invariant
            i <= payload@.len(),
            payload@.len() <= u32::MAX,
            body@ == header + payload@.take(i as int),
        decreases payload@.len() - i,
    {
        body.push(payload[i]);
        assert(header + payload@.take(i + 1) =~= (header + payload@.take(i as int)).push(
            payload@[i as int],
        ));
        i = i + 1;
    }
    assert(payload@.take(i as int) =~= payload@);

    let mut sum: u64 = 0;
    let mut j: usize = 0;
    while j < body.len()
        invariant
            j <= body@.len(),
            body@.len() <= u32::MAX + 6,
            sum == byte_sum(body@.take(j as int)),
            sum <= 255 * j,
        decreases body@.len() - j,
    {
        proof {
            lemma_sum_take_step(body@, j as int);
        }
        sum = sum + body[j] as u64;
        j = j + 1;
    }
    assert(body@.take(j as int) =~= body@);
    let ghost unsummed = body@;
    body.push((sum % 256) as u8);
    assert(body@ == frame_body(kind, seq, payload@));

    let mut out: Vec<u8> = Vec::new();
    out.push(FRAME_START);
    let mut k: usize = 0;
    while k < body.len()
        invariant
            k <= body@.len(),
            out@ == seq![FRAME_START] + escape(body@.take(k as int)),
        decreases body@.len() - k,
    {
        let b = body[k];
        proof {
            lemma_escape_take_step(body@, k as int);
        }
        if b == FRAME_START || b == FRAME_END || b == FRAME_ESCAPE {
            out.push(FRAME_ESCAPE);
            out.push(b - 0x10);
        } else {
            out.push(b);
        }
        assert(out@ =~= seq![FRAME_START] + escape(body@.take(k + 1)));
        k = k + 1;
    }
    assert(body@.take(k as int) =~= body@);
    out.push(FRAME_END);
    assert(out@ =~= frame_bytes(kind, seq, payload@));
    out
}

/// Where a frame parser stands: between frames, inside a frame body, or just
/// after an escape byte.
#[derive(Clone, Copy, Debug, PartialEq, Eq, Structural)]
pub enum ParserMode {
    Idle,
    Body,
    Escape,
}

/// A received frame whose checksum did not match its body.
#[derive(Clone, Copy, Debug, PartialEq, Eq, Structural)]
pub struct ChecksumMismatch {
    pub expected: u8,
    pub actual: u8,
}

/// Why the bytes received could not form a frame.
#[derive(Clone, Copy, Debug, PartialEq, Eq, Structural)]
pub enum FrameError {
    /// A start byte arrived inside a frame.
    UnexpectedStart,
    /// An escape byte was followed by a byte that no special byte escapes to.
    InvalidEscape { byte: u8 },
    /// The body had the length its header declares, but no end byte followed.
    MissingEnd { byte: u8 },
    /// An end byte arrived before the body had the length its header declares.
    Truncated { len: usize },
}

/// A frame as received.
#[derive(Debug)]
pub struct Message {
    /// The message type, or the byte that named none.
    pub kind: Result<MessageType, u8>,
    pub seq_num: u8,
    pub payload: Vec<u8>,
    pub checksum: Result<(), ChecksumMismatch>,
}

/// What feeding one byte to a frame parser gave.
#[derive(Debug)]
pub enum FrameParserResult {
    /// A frame ended with this byte.
    Ready { msg: Message },
    /// The frame is not over yet, or no frame has started.
    Incomplete,
    /// The bytes of this frame were malformed; the parser waits for the next frame.
    Error { err: FrameError },
}

/// A frame body is complete when it holds the seven header and checksum bytes
/// and the payload length its header declares.
pub open spec fn body_complete(body: Seq<u8>) -> bool {
    body.len() >= 7 && body.len() == 7 + be32_at(body, 2)
}

/// Whether `msg` is the message a complete body holds.
pub open spec fn is_message_of(msg: Message, body: Seq<u8>) -> bool {
    let unsummed = body.drop_last();
    &&& msg.kind == match message_type_of(body[0]) {
        Some(t) => Ok(t),
        None => Err(body[0]),
    }
    &&& msg.seq_num == body[1]
    &&& msg.payload@ == body.subrange(6, body.len() - 1)
    &&& msg.checksum == if checksum_of(unsummed) == body.last() {
        Ok(())
    } else {
        Err(ChecksumMismatch { expected: checksum_of(unsummed), actual: body.last() })
    }
}

/// One step of the frame grammar: the parser's mode and body after `byte`, and
/// the outcome, `None` while a frame is in progress, `Some(Ok(()))` when the
/// frame held in `body` ends, `Some(Err(e))` on malformed input.
///
/// Between frames every byte but the start byte is skipped. Inside a frame, an
/// end byte closes the frame, which must then be complete; once complete, only
/// an end byte may follow; a start byte is an error; an escape byte makes the
/// next byte stand for itself with bit 4 set, which must give a special byte.
pub open spec fn parser_step(mode: ParserMode, body: Seq<u8>, byte: u8) -> (
    ParserMode,
    Seq<u8>,
    Option<Result<(), FrameError>>,
) {
    match mode {
        ParserMode::Idle => if byte == FRAME_START {
            (ParserMode::Body, Seq::empty(), None)
        } else {
            (ParserMode::Idle, Seq::empty(), None)
        },
        ParserMode::Body => if byte == FRAME_END {
            if body_complete(body) {
                (ParserMode::Idle, Seq::empty(), Some(Ok(())))
            } else {
                (
                    ParserMode::Idle,
                    Seq::empty(),
                    Some(Err(FrameError::Truncated { len: body.len() as usize })),
                )
            }
        } else if body_complete(body) {
            (ParserMode::Idle, Seq::empty(), Some(Err(FrameError::MissingEnd { byte })))
        } else if byte == FRAME_START {
            (ParserMode::Idle, Seq::empty(), Some(Err(FrameError::UnexpectedStart)))
        } else if byte == FRAME_ESCAPE {
            (ParserMode::Escape, body, None)
        } else {
            (ParserMode::Body, body.push(byte), None)
        },
        ParserMode::Escape => if is_special((byte + 0x10) as u8) && byte < 0xf0 {
            (ParserMode::Body, body.push((byte + 0x10) as u8), None)
        } else {
            (ParserMode::Idle, Seq::empty(), Some(Err(FrameError::InvalidEscape { byte })))
        },
    }
}

/// Reassembles frames from the bytes received, one byte at a time.
pub struct FrameParser {
    mode: ParserMode,
    body: Vec<u8>,
}

impl View for FrameParser {
    type V = (ParserMode, Seq<u8>);

    /// The parser's mode and the frame body unescaped so far.
    closed spec fn view(&self) -> (ParserMode, Seq<u8>) {
        (self.mode, self.body@)
    }
}

impl FrameParser {
    /// A parser waiting for the first frame.
    pub fn new() -> (p: Self)
        ensures
            p@ == (ParserMode::Idle, Seq::<u8>::empty()),
    {
        FrameParser { mode: ParserMode::Idle, body: Vec::new() }
    }

    /// Whether the body so far is complete.
    fn complete(&self) -> (b: bool)
        ensures
            b == body_complete(self.body@),
    {
        let n = self.body.len();
        if n < 7 {
            return false;
        }
        let declared: u64 = (self.body[2] as u64) * 0x1000000 + (self.body[3] as u64) * 0x10000
            + (self.body[4] as u64) * 0x100 + (self.body[5] as u64);
        n as u64 == 7 + declared
    }

    /// The message a complete body holds.
    fn message(&self) -> (msg: Message)
        requires
            body_complete(self.body@),
        ensures
            is_message_of(msg, self.body@),
    {
        let body = &self.body;
        let n = body.len();
        let kind = match MessageType::from_byte(body[0]) {
            Some(t) => Ok(t),
            None => Err(body[0]),
        };
        let mut payload: Vec<u8> = Vec::new();
        let mut i: usize = 6;
        while i < n - 1
            invariant
                6 <= i <= n - 1,
                n == body@.len(),
                n >= 7,
                payload@ == body@.subrange(6, i as int),
            decreases n - 1 - i,
        {
            payload.push(body[i]);
            assert(payload@ =~= body@.subrange(6, i + 1));
            i = i + 1;
        }
        let mut sum: u64 = 0;
        let mut j: usize = 0;
        while j < n - 1
            invariant
                j <= n - 1,
                n == body@.len(),
                n >= 7,
                n <= 0x1_0000_0007,
                sum == byte_sum(body@.take(j as int)),
                sum <= 255 * j,
            decreases n - 1 - j,
        {
            proof {
                lemma_sum_take_step(body@, j as int);
            }
            sum = sum + body[j] as u64;
            j = j + 1;
        }
        assert(body@.take(n - 1) =~= body@.drop_last());
        let expected = (sum % 256) as u8;
        let actual = body[n - 1];
        let checksum = if expected == actual {
            Ok(())
        } else {
            Err(ChecksumMismatch { expected, actual })
        };
        Message { kind, seq_num: body[1], payload, checksum }
    }

    /// Feeds one received byte.
    pub fn parse_byte(&mut self, byte: u8) -> (res: FrameParserResult)
        ensures
            ({
                let (mode, body, outcome) = parser_step(old(self)@.0, old(self)@.1, byte);
                &&& final(self)@ == (mode, body)
                &&& match res {
                    FrameParserResult::Incomplete => outcome is None,
                    FrameParserResult::Ready { msg } => outcome == Some(
                        Ok::<(), FrameError>(()),
                    ) && is_message_of(msg, old(self)@.1),
                    FrameParserResult::Error { err } => outcome == Some(Err::<(), FrameError>(err)),
                }
            }),
    {
        match self.mode {
            ParserMode::Idle => {
                self.body = Vec::new();
                if byte == FRAME_START {
                    self.mode = ParserMode::Body;
                }
                FrameParserResult::Incomplete
            },
            ParserMode::Body => {
                let complete = self.complete();
                if byte == FRAME_END {
                    let res = if complete {
                        FrameParserResult::Ready { msg: self.message() }
                    } else {
                        FrameParserResult::Error {
                            err: FrameError::Truncated { len: self.body.len() },
                        }
                    };
                    self.reset();
                    res
                } else if complete {
                    self.reset();
                    FrameParserResult::Error { err: FrameError::MissingEnd { byte } }
                } else if byte == FRAME_START {
                    self.reset();
                    FrameParserResult::Error { err: FrameError::UnexpectedStart }
                } else if byte == FRAME_ESCAPE {
                    self.mode = ParserMode::Escape;
                    FrameParserResult::Incomplete
                } else {
                    self.body.push(byte);
                    FrameParserResult::Incomplete
                }
            },
            ParserMode::Escape => {
                if byte == FRAME_START - 0x10 || byte == FRAME_END - 0x10 || byte
                    == FRAME_ESCAPE - 0x10 {
                    self.body.push(byte + 0x10);
                    self.mode = ParserMode::Body;
                    FrameParserResult::Incomplete
                } else {
                    self.reset();
                    FrameParserResult::Error { err: FrameError::InvalidEscape { byte } }
                }
            },
        }
    }

    fn reset(&mut self)
        ensures
            final(self)@ == (ParserMode::Idle, Seq::<u8>::empty()),
    {
        self.mode = ParserMode::Idle;
        self.body = Vec::new();
    }
}

/// The parser's mode and body after `bytes`, from mode `mode` and body `body`.
pub open spec fn parser_run(mode: ParserMode, body: Seq<u8>, bytes: Seq<u8>) -> (
    ParserMode,
    Seq<u8>,
)
    decreases bytes.len(),
{
    if bytes.len() == 0 {
        (mode, body)
    } else {
        let (m, b, _) = parser_step(mode, body, bytes[0]);
        parser_run(m, b, bytes.drop_first())
    }
}

/// Whether no byte of `bytes` ends a frame or reports an error, from mode
/// `mode` and body `body`.
pub open spec fn parser_quiet(mode: ParserMode, body: Seq<u8>, bytes: Seq<u8>) -> bool
    decreases bytes.len(),
{
    if bytes.len() == 0 {
        true
    } else {
        let (m, b, outcome) = parser_step(mode, body, bytes[0]);
        outcome is None && parser_quiet(m, b, bytes.drop_first())
    }
}

proof fn lemma_run_concat(mode: ParserMode, body: Seq<u8>, x: Seq<u8>, y: Seq<u8>)
    ensures
        parser_run(mode, body, x + y) == ({
            let (m, b) = parser_run(mode, body, x);
            parser_run(m, b, y)
        }),
        parser_quiet(mode, body, x + y) == (parser_quiet(mode, body, x) && ({
            let (m, b) = parser_run(mode, body, x);
            parser_quiet(m, b, y)
        })),
    decreases x.len(),
{
    if x.len() == 0 {
        assert(x + y =~= y);
    } else {
        let (m, b, _) = parser_step(mode, body, x[0]);
        assert((x + y).drop_first() =~= x.drop_first() + y);
        lemma_run_concat(m, b, x.drop_first(), y);
    }
}

/// Reading the escaped form of `rest` inside a frame appends `rest` to the
/// body, quietly, as long as the body is never complete before its last byte.
proof fn lemma_run_escaped(body: Seq<u8>, rest: Seq<u8>)
    requires
        forall|k: int| 0 <= k < rest.len() ==> !body_complete(#[trigger] (body + rest.take(k))),
    ensures
        parser_run(ParserMode::Body, body, escape(rest)) == (ParserMode::Body, body + rest),
        parser_quiet(ParserMode::Body, body, escape(rest)),
    decreases rest.len(),
{
    if rest.len() == 0 {
        assert(body + rest =~= body);
    } else {
        let init = rest.drop_last();
        let x = rest.last();
        assert forall|k: int| 0 <= k < init.len() implies !body_complete(
            #[trigger] (body + init.take(k)),
        ) by {
            assert(init.take(k) =~= rest.take(k));
        }
        lemma_run_escaped(body, init);
        lemma_run_concat(ParserMode::Body, body, escape(init), escape_byte(x));
        let c = body + init;
        assert(rest.take(init.len() as int) =~= init);
        assert(!body_complete(c));
        assert(escape(rest) == escape(init) + escape_byte(x));
        let e = escape_byte(x);
        if is_special(x) {
            let y = (x - 0x10) as u8;
            assert(e.drop_first() =~= seq![y]);
            assert(seq![y].drop_first() =~= Seq::<u8>::empty());
            assert(parser_step(ParserMode::Body, c, FRAME_ESCAPE) == (ParserMode::Escape, c, None::<Result<(), FrameError>>));
            assert((y + 0x10) as u8 == x);
            assert(parser_step(ParserMode::Escape, c, y) == (ParserMode::Body, c.push(x), None::<Result<(), FrameError>>));
            assert(parser_run(ParserMode::Body, c.push(x), Seq::empty()) == (ParserMode::Body, c.push(x)));
            assert(parser_run(ParserMode::Escape, c, seq![y]) == (ParserMode::Body, c.push(x)));
            assert(seq![y][0] == y);
            assert(parser_quiet(ParserMode::Body, c.push(x), Seq::empty()));
            assert(parser_quiet(ParserMode::Escape, c, seq![y]));
            assert(parser_run(ParserMode::Body, c, e) == (ParserMode::Body, c.push(x)));
            assert(parser_quiet(ParserMode::Body, c, e));
        } else {
            assert(e.drop_first() =~= Seq::<u8>::empty());
            assert(e[0] == x && e.len() == 1);
            assert(parser_run(ParserMode::Body, c.push(x), Seq::empty()) == (ParserMode::Body, c.push(x)));
            assert(parser_quiet(ParserMode::Body, c.push(x), Seq::empty()));
            assert(parser_step(ParserMode::Body, c, x) == (ParserMode::Body, c.push(x), None::<Result<(), FrameError>>));
            assert(parser_run(ParserMode::Body, c, e) == (ParserMode::Body, c.push(x)));
            assert(parser_quiet(ParserMode::Body, c, e));
        }
        assert(c.push(x) =~= body + rest);
    }
}

proof fn lemma_be32_roundtrip(n: nat)
    requires
        n <= u32::MAX,
    ensures
        be32_at(be32(n), 0) == n,
{
    let v = n as u32;
    assert(((v / 0x1000000) % 256) as int * 0x1000000 + ((v / 0x10000) % 256) as int * 0x10000 + (
    (v / 0x100) % 256) as int * 0x100 + (v % 256) as int == v as int) by (bit_vector);
}

/// Reading a frame as it is sent gives back the message that was framed: no
/// byte before the end byte reports anything, and the end byte delivers a
/// message of the framed kind, sequence number and payload, with a matching
/// checksum.
pub proof fn law_frame_roundtrip(kind: MessageType, seq: u8, payload: Seq<u8>, msg: Message)
    requires
        payload.len() <= u32::MAX,
    ensures
        ({
            let bytes = frame_bytes(kind, seq, payload);
            let body = frame_body(kind, seq, payload);
            &&& parser_quiet(ParserMode::Idle, Seq::empty(), bytes.drop_last())
            &&& parser_run(ParserMode::Idle, Seq::empty(), bytes.drop_last()) == (
                ParserMode::Body,
                body,
            )
            &&& bytes.last() == FRAME_END
            &&& parser_step(ParserMode::Body, body, FRAME_END) == (
                ParserMode::Idle,
                Seq::<u8>::empty(),
                Some(Ok::<(), FrameError>(())),
            )
            &&& is_message_of(msg, body) ==> {
                &&& msg.kind == Ok::<MessageType, u8>(kind)
                &&& msg.seq_num == seq
                &&& msg.payload@ == payload
                &&& msg.checksum == Ok::<(), ChecksumMismatch>(())
            }
        }),
{
    let body = frame_body(kind, seq, payload);
    let unsummed = seq![message_type_byte(kind), seq] + be32(payload.len()) + payload;
    let bytes = frame_bytes(kind, seq, payload);
    lemma_be32_roundtrip(payload.len());
    assert(be32_at(body, 2) == be32_at(be32(payload.len()), 0));
    assert(body.len() == 7 + payload.len());
    assert(body_complete(body));
    assert forall|k: int| 0 <= k < body.len() implies !body_complete(
        #[trigger] (Seq::<u8>::empty() + body.take(k)),
    ) by {
        let pre = Seq::<u8>::empty() + body.take(k);
        assert(pre =~= body.take(k));
        if k >= 7 {
            assert(be32_at(pre, 2) == be32_at(body, 2));
        }
    }
    lemma_run_escaped(Seq::empty(), body);
    assert(Seq::<u8>::empty() + body =~= body);
    assert(bytes.drop_last() =~= seq![FRAME_START] + escape(body));
    lemma_run_concat(ParserMode::Idle, Seq::empty(), seq![FRAME_START], escape(body));
    assert(seq![FRAME_START].drop_first() =~= Seq::<u8>::empty());
    assert(seq![FRAME_START][0] == FRAME_START);
    assert(parser_run(ParserMode::Body, Seq::empty(), Seq::empty()) == (ParserMode::Body, Seq::<u8>::empty()));
    assert(parser_quiet(ParserMode::Body, Seq::empty(), Seq::empty()));
    assert(parser_run(ParserMode::Idle, Seq::empty(), seq![FRAME_START]) == (ParserMode::Body, Seq::<u8>::empty()));
    assert(parser_quiet(ParserMode::Idle, Seq::empty(), seq![FRAME_START]));
    assert(body.drop_last() =~= unsummed);
    assert(body.subrange(6, body.len() - 1) =~= payload);
    law_message_type_byte_roundtrip(kind, message_type_byte(kind));
}

} // verus!
