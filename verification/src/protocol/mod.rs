//! The control-channel wire format.
//!
//! Every command starts with a one-byte tag, followed by a fixed-size
//! payload; multi-byte integers are written in big-endian byte order.

use bytes::BufMut;
use vstd::prelude::*;

verus! {

/// Width in bytes of a service digest.
pub const HASH_WIDTH_IN_BYTES: usize = 32;

/// A service digest, as carried by [`Command::Hello`].
pub type ProtocolDigest = [u8; HASH_WIDTH_IN_BYTES];

/// Tag of [`Command::Heartbeat`].
pub const TYPE_HEART_BEAT: u8 = 0x00;
/// Tag of [`Command::Hello`].
pub const TYPE_HELLO: u8 = 0x01;
/// Tag of [`Command::AckOk`].
pub const TYPE_ACK_OK: u8 = 0x02;
/// Tag of [`Command::DataConnect`].
pub const TYPE_DATA_CONNECT: u8 = 0x03;
/// Tag of [`Command::ErrorAck`].
pub const TYPE_ERROR_ACK: u8 = 0x04;

/// A command of the control protocol.
#[derive(Debug, Clone, Copy, PartialEq, Eq)]
pub enum Command {
    /// Authentication handshake: the digest of the requested service.
    Hello { service: ProtocolDigest },
    /// Positive acknowledgement.
    AckOk,
    /// Request for a data connection.
    DataConnect { transmission_type: u8, port: u64 },
    /// Keep-alive.
    Heartbeat,
    /// Negative acknowledgement with an error code.
    ErrorAck { error_type: u32 },
}

/// The mathematical model of a [`Command`]: the digest becomes a sequence.
pub enum CommandModel {
    Hello { service: Seq<u8> },
    AckOk,
    DataConnect { transmission_type: u8, port: u64 },
    Heartbeat,
    ErrorAck { error_type: u32 },
}

impl View for Command {
    type V = CommandModel;

    open spec fn view(&self) -> CommandModel {
        match *self {
            Command::Hello { service } => CommandModel::Hello { service: service@ },
            Command::AckOk => CommandModel::AckOk,
            Command::DataConnect { transmission_type, port } => CommandModel::DataConnect {
                transmission_type,
                port,
            },
            Command::Heartbeat => CommandModel::Heartbeat,
            Command::ErrorAck { error_type } => CommandModel::ErrorAck { error_type },
        }
    }
}

/// Why a byte sequence is not a command.
#[derive(Debug, Clone, Copy, PartialEq, Eq)]
pub enum ProtocolError {
    /// The input ends before the command does.
    UnexpectedEnd,
    /// The first byte is not the tag of any command.
    UnsupportedCommand { tag: u8 },
}

/// The big-endian bytes of a `u32`.
pub open spec fn be_u32_bytes(v: u32) -> Seq<u8> {
    seq![(v >> 24u32) as u8, (v >> 16u32) as u8, (v >> 8u32) as u8, v as u8]
}

/// The big-endian bytes of a `u64`.
pub open spec fn be_u64_bytes(v: u64) -> Seq<u8> {
    seq![
        (v >> 56u64) as u8,
        (v >> 48u64) as u8,
        (v >> 40u64) as u8,
        (v >> 32u64) as u8,
        (v >> 24u64) as u8,
        (v >> 16u64) as u8,
        (v >> 8u64) as u8,
        v as u8,
    ]
}

/// The `u32` whose big-endian bytes are `b0 b1 b2 b3`.
pub open spec fn be_u32_of(b0: u8, b1: u8, b2: u8, b3: u8) -> u32 {
    ((b0 as u32) << 24u32) | ((b1 as u32) << 16u32) | ((b2 as u32) << 8u32) | (b3 as u32)
}

/// The `u64` whose big-endian bytes are `b0 .. b7`.
pub open spec fn be_u64_of(b0: u8, b1: u8, b2: u8, b3: u8, b4: u8, b5: u8, b6: u8, b7: u8) -> u64 {
    ((b0 as u64) << 56u64) | ((b1 as u64) << 48u64) | ((b2 as u64) << 40u64) | ((b3 as u64)
        << 32u64) | ((b4 as u64) << 24u64) | ((b5 as u64) << 16u64) | ((b6 as u64) << 8u64) | (
    b7 as u64)
}

/// The `u32` read in big-endian order from the first four bytes of `s`.
pub open spec fn be_u32_value(s: Seq<u8>) -> u32 {
    be_u32_of(s[0], s[1], s[2], s[3])
}

/// The `u64` read in big-endian order from the first eight bytes of `s`.
pub open spec fn be_u64_value(s: Seq<u8>) -> u64 {
    be_u64_of(s[0], s[1], s[2], s[3], s[4], s[5], s[6], s[7])
}

/// Number of payload bytes that follow `tag`, or `None` for an unknown tag.
pub open spec fn spec_payload_len(tag: u8) -> Option<nat> {
    if tag == TYPE_HEART_BEAT {
        Some(0)
    } else if tag == TYPE_HELLO {
        Some(32)
    } else if tag == TYPE_ACK_OK {
        Some(0)
    } else if tag == TYPE_DATA_CONNECT {
        Some(9)
    } else if tag == TYPE_ERROR_ACK {
        Some(4)
    } else {
        None
    }
}

/// The bytes that a command is written as.
///
/// A negative acknowledgement is written with the tag of [`Command::AckOk`],
/// followed by its error code.
pub open spec fn spec_encode(c: CommandModel) -> Seq<u8> {
    match c {
        CommandModel::Heartbeat => seq![TYPE_HEART_BEAT],
        CommandModel::Hello { service } => seq![TYPE_HELLO] + service,
        CommandModel::AckOk => seq![TYPE_ACK_OK],
        CommandModel::DataConnect { transmission_type, port } => seq![
            TYPE_DATA_CONNECT,
            transmission_type,
        ] + be_u64_bytes(port),
        CommandModel::ErrorAck { error_type } => seq![TYPE_ACK_OK] + be_u32_bytes(error_type),
    }
}

/// The command at the front of `s`, with the number of bytes that it takes.
pub open spec fn spec_decode(s: Seq<u8>) -> Result<(nat, CommandModel), ProtocolError> {
    if s.len() == 0 {
        Err(ProtocolError::UnexpectedEnd)
    } else {
        let tag = s[0];
        match spec_payload_len(tag) {
            None => Err(ProtocolError::UnsupportedCommand { tag }),
            Some(p) => if s.len() < 1 + p {
                Err(ProtocolError::UnexpectedEnd)
            } else if tag == TYPE_HEART_BEAT {
                Ok((1, CommandModel::Heartbeat))
            } else if tag == TYPE_HELLO {
                Ok((33, CommandModel::Hello { service: s.subrange(1, 33) }))
            } else if tag == TYPE_ACK_OK {
                Ok((1, CommandModel::AckOk))
            } else if tag == TYPE_DATA_CONNECT {
                Ok(
                    (
                        10,
                        CommandModel::DataConnect {
                            transmission_type: s[1],
                            port: be_u64_value(s.subrange(2, 10)),
                        },
                    ),
                )
            } else {
                Ok((5, CommandModel::ErrorAck { error_type: be_u32_value(s.subrange(1, 5)) }))
            },
        }
    }
}

/// The buffer size that [`Command::serialized_len`] reserves for a command.
pub open spec fn spec_serialized_len(c: CommandModel) -> nat {
    1 + match c {
        CommandModel::Hello { .. } => 32nat,
        CommandModel::ErrorAck { .. } => 5nat,
        CommandModel::DataConnect { .. } => 9nat,
        CommandModel::Heartbeat | CommandModel::AckOk => 0nat,
    }
}

/// A command model whose digest has the width of a real digest.
pub open spec fn command_model_wf(c: CommandModel) -> bool {
    match c {
        CommandModel::Hello { service } => service.len() == HASH_WIDTH_IN_BYTES,
        _ => true,
    }
}

/// The model of a decoding result.
pub open spec fn decoded_view(r: Result<(usize, Command), ProtocolError>) -> Result<
    (nat, CommandModel),
    ProtocolError,
> {
    match r {
        Ok((n, c)) => Ok((n as nat, c@)),
        Err(e) => Err(e),
    }
}

// ---------------------------------------------------------------------------
// Calls into `bytes`

/// `bytes::BufMut::put_u8` on a `Vec<u8>`: appends the byte (the vector's
/// `put_slice` is `extend_from_slice`). It panics only when the vector would
/// exceed `isize::MAX` bytes, which `requires` rules out.
#[verifier::external_body]
fn buf_put_u8(buf: &mut Vec<u8>, v: u8)
    requires
        old(buf)@.len() + 1 <= isize::MAX,
    ensures
        final(buf)@ == old(buf)@.push(v),
{
    BufMut::put_u8(buf, v)
}

/// `bytes::BufMut::put_slice` on a `Vec<u8>`: appends the slice
/// (`extend_from_slice`).
#[verifier::external_body]
fn buf_put_slice(buf: &mut Vec<u8>, src: &[u8])
    requires
        old(buf)@.len() + src@.len() <= isize::MAX,
    ensures
        final(buf)@ == old(buf)@ + src@,
{
    BufMut::put_slice(buf, src)
}

/// `bytes::BufMut::put_u32` on a `Vec<u8>`: appends the four big-endian bytes
/// of `v` (`put_slice(&v.to_be_bytes())`).
#[verifier::external_body]
fn buf_put_u32(buf: &mut Vec<u8>, v: u32)
    requires
        old(buf)@.len() + 4 <= isize::MAX,
    ensures
        final(buf)@ == old(buf)@ + be_u32_bytes(v),
{
    BufMut::put_u32(buf, v)
}

/// `bytes::BufMut::put_u64` on a `Vec<u8>`: appends the eight big-endian bytes
/// of `v` (`put_slice(&v.to_be_bytes())`).
#[verifier::external_body]
fn buf_put_u64(buf: &mut Vec<u8>, v: u64)
    requires
        old(buf)@.len() + 8 <= isize::MAX,
    ensures
        final(buf)@ == old(buf)@ + be_u64_bytes(v),
{
    BufMut::put_u64(buf, v)
}

// ---------------------------------------------------------------------------
// Byte-order lemmas

proof fn lemma_be_u32_of_bytes(v: u32)
    ensures
        be_u32_of((v >> 24u32) as u8, (v >> 16u32) as u8, (v >> 8u32) as u8, v as u8) == v,
{
    assert(((((v >> 24u32) as u8) as u32) << 24u32) | ((((v >> 16u32) as u8) as u32) << 16u32)
        | ((((v >> 8u32) as u8) as u32) << 8u32) | ((v as u8) as u32) == v) by (bit_vector);
}

proof fn lemma_bytes_of_be_u32(b0: u8, b1: u8, b2: u8, b3: u8)
    ensures
        be_u32_bytes(be_u32_of(b0, b1, b2, b3)) == seq![b0, b1, b2, b3],
{
    let v = be_u32_of(b0, b1, b2, b3);
    assert(v == ((b0 as u32) << 24u32) | ((b1 as u32) << 16u32) | ((b2 as u32) << 8u32) | (
    b3 as u32));
    assert((v >> 24u32) as u8 == b0 && (v >> 16u32) as u8 == b1 && (v >> 8u32) as u8 == b2
        && v as u8 == b3) by (bit_vector)
        requires
            v == ((b0 as u32) << 24u32) | ((b1 as u32) << 16u32) | ((b2 as u32) << 8u32) | (
            b3 as u32),
    ;
    assert(be_u32_bytes(v) =~= seq![b0, b1, b2, b3]);
}

proof fn lemma_be_u64_of_bytes(v: u64)
    ensures
        be_u64_of(
            (v >> 56u64) as u8,
            (v >> 48u64) as u8,
            (v >> 40u64) as u8,
            (v >> 32u64) as u8,
            (v >> 24u64) as u8,
            (v >> 16u64) as u8,
            (v >> 8u64) as u8,
            v as u8,
        ) == v,
{
    assert(((((v >> 56u64) as u8) as u64) << 56u64) | ((((v >> 48u64) as u8) as u64) << 48u64)
        | ((((v >> 40u64) as u8) as u64) << 40u64) | ((((v >> 32u64) as u8) as u64) << 32u64)
        | ((((v >> 24u64) as u8) as u64) << 24u64) | ((((v >> 16u64) as u8) as u64) << 16u64)
        | ((((v >> 8u64) as u8) as u64) << 8u64) | ((v as u8) as u64) == v) by (bit_vector);
}

proof fn lemma_bytes_of_be_u64(b0: u8, b1: u8, b2: u8, b3: u8, b4: u8, b5: u8, b6: u8, b7: u8)
    ensures
        be_u64_bytes(be_u64_of(b0, b1, b2, b3, b4, b5, b6, b7)) == seq![b0, b1, b2, b3, b4, b5, b6, b7],
{
    let v = be_u64_of(b0, b1, b2, b3, b4, b5, b6, b7);
    assert((v >> 56u64) as u8 == b0 && (v >> 48u64) as u8 == b1 && (v >> 40u64) as u8 == b2
        && (v >> 32u64) as u8 == b3 && (v >> 24u64) as u8 == b4 && (v >> 16u64) as u8 == b5
        && (v >> 8u64) as u8 == b6 && v as u8 == b7) by (bit_vector)
        requires
            v == ((b0 as u64) << 56u64) | ((b1 as u64) << 48u64) | ((b2 as u64) << 40u64) | ((
            b3 as u64) << 32u64) | ((b4 as u64) << 24u64) | ((b5 as u64) << 16u64) | ((b6 as u64)
                << 8u64) | (b7 as u64),
    ;
    assert(be_u64_bytes(v) =~= seq![b0, b1, b2, b3, b4, b5, b6, b7]);
}

// ---------------------------------------------------------------------------
// Encoding and decoding

/// Copies the digest that starts at `start` out of `bytes`.
fn read_digest(bytes: &[u8], start: usize) -> (d: ProtocolDigest)
    requires
        start + HASH_WIDTH_IN_BYTES <= bytes@.len(),
    ensures
        d@ == bytes@.subrange(start as int, start + HASH_WIDTH_IN_BYTES),
{
    let mut d: ProtocolDigest = [0u8; HASH_WIDTH_IN_BYTES];
    let mut i: usize = 0;
    while i < HASH_WIDTH_IN_BYTES
        invariant
            i <= HASH_WIDTH_IN_BYTES,
            start + HASH_WIDTH_IN_BYTES <= bytes@.len(),
            d@.len() == HASH_WIDTH_IN_BYTES,
            bytes@.len() == bytes.len(),
            forall|j: int| 0 <= j < i ==> d@[j] == bytes@[start + j],
        decreases HASH_WIDTH_IN_BYTES - i,
    {
        d[i] = bytes[start + i];
        i = i + 1;
    }
    assert(d@ =~= bytes@.subrange(start as int, start + HASH_WIDTH_IN_BYTES));
    d
}

impl Command {
    /// The buffer size reserved before a command is written: one tag byte and
    /// the payload (a negative acknowledgement reserves six bytes).
    pub fn serialized_len(&self) -> (n: usize)
        ensures
            n == spec_serialized_len(self@),
    {
        1 + match self {
            Command::Hello { .. } => 32,
            Command::ErrorAck { .. } => 1 + 4,
            Command::DataConnect { .. } => 1 + 8,
            Command::Heartbeat | Command::AckOk => 0,
        }
    }

    /// Appends the bytes of this command to `buf`.
    pub fn write_to_buf(&self, buf: &mut Vec<u8>)
        requires
            old(buf)@.len() + spec_serialized_len(self@) <= isize::MAX,
        ensures
            final(buf)@ == old(buf)@ + spec_encode(self@),
    {
        match self {
            Command::Heartbeat => {
                buf_put_u8(buf, TYPE_HEART_BEAT);
            },
            Command::Hello { service } => {
                buf_put_u8(buf, TYPE_HELLO);
                buf_put_slice(buf, service.as_slice());
            },
            Command::AckOk => {
                buf_put_u8(buf, TYPE_ACK_OK);
            },
            Command::DataConnect { transmission_type, port } => {
                buf_put_u8(buf, TYPE_DATA_CONNECT);
                buf_put_u8(buf, *transmission_type);
                buf_put_u64(buf, *port);
            },
            Command::ErrorAck { error_type } => {
                buf_put_u8(buf, TYPE_ACK_OK);
                buf_put_u32(buf, *error_type);
            },
        }
        assert(final(buf)@ =~= old(buf)@ + spec_encode(self@));
    }

    /// The bytes of this command, in a buffer of [`Command::serialized_len`]
    /// capacity.
    pub fn encode(&self) -> (bytes: Vec<u8>)
        ensures
            bytes@ == spec_encode(self@),
    {
        let mut buf: Vec<u8> = Vec::with_capacity(self.serialized_len());
        self.write_to_buf(&mut buf);
        assert(buf@ =~= spec_encode(self@));
        buf
    }

    /// Number of payload bytes that follow `tag`, or `None` when `tag` is not
    /// the tag of any command.
    pub fn payload_len(tag: u8) -> (n: Option<usize>)
        ensures
            match spec_payload_len(tag) {
                Some(p) => n == Some(p as usize),
                None => n is None,
            },
    {
        if tag == TYPE_HEART_BEAT {
            Some(0)
        } else if tag == TYPE_HELLO {
            Some(32)
        } else if tag == TYPE_ACK_OK {
            Some(0)
        } else if tag == TYPE_DATA_CONNECT {
            Some(9)
        } else if tag == TYPE_ERROR_ACK {
            Some(4)
        } else {
            None
        }
    }

    /// Reads the command at the front of `bytes`; on success returns the
    /// number of bytes it took and the command.
    pub fn decode(bytes: &[u8]) -> (res: Result<(usize, Command), ProtocolError>)
        ensures
            decoded_view(res) == spec_decode(bytes@),
    {
        if bytes.len() == 0 {
            return Err(ProtocolError::UnexpectedEnd);
        }
        let tag = bytes[0];
        let p = match Command::payload_len(tag) {
            None => {
                return Err(ProtocolError::UnsupportedCommand { tag });
            },
            Some(p) => p,
        };
        if bytes.len() - 1 < p {
            return Err(ProtocolError::UnexpectedEnd);
        }
        if tag == TYPE_HEART_BEAT {
            Ok((1, Command::Heartbeat))
        } else if tag == TYPE_HELLO {
            let service = read_digest(bytes, 1);
            Ok((33, Command::Hello { service }))
        } else if tag == TYPE_ACK_OK {
            Ok((1, Command::AckOk))
        } else if tag == TYPE_DATA_CONNECT {
            let transmission_type = bytes[1];
            let port = ((bytes[2] as u64) << 56u64) | ((bytes[3] as u64) << 48u64) | ((
            bytes[4] as u64) << 40u64) | ((bytes[5] as u64) << 32u64) | ((bytes[6] as u64)
                << 24u64) | ((bytes[7] as u64) << 16u64) | ((bytes[8] as u64) << 8u64) | (
            bytes[9] as u64);
            assert(port == be_u64_value(bytes@.subrange(2, 10)));
            Ok((10, Command::DataConnect { transmission_type, port }))
        } else {
            let error_type = ((bytes[1] as u32) << 24u32) | ((bytes[2] as u32) << 16u32) | ((
            bytes[3] as u32) << 8u32) | (bytes[4] as u32);
            assert(error_type == be_u32_value(bytes@.subrange(1, 5)));
            Ok((5, Command::ErrorAck { error_type }))
        }
    }
}

// ---------------------------------------------------------------------------
// Laws of the wire format

/// Reading back what was written gives the same command and consumes exactly
/// its bytes, for every command but a negative acknowledgement (which is
/// written with the tag of a positive one).
pub proof fn lemma_encode_decode_roundtrip(c: CommandModel)
    requires
        command_model_wf(c),
        !(c is ErrorAck),
    ensures
        spec_decode(spec_encode(c)) == Ok::<(nat, CommandModel), ProtocolError>(
            (spec_encode(c).len(), c),
        ),
{
    let s = spec_encode(c);
    match c {
        CommandModel::Hello { service } => {
            assert(s.subrange(1, 33) =~= service);
        },
        CommandModel::DataConnect { transmission_type, port } => {
            lemma_be_u64_of_bytes(port);
            assert(s.subrange(2, 10) =~= be_u64_bytes(port));
        },
        _ => {},
    }
}

/// A negative acknowledgement is read back as a positive acknowledgement
/// that takes only the tag byte.
pub proof fn lemma_error_ack_reads_as_ack_ok(error_type: u32)
    ensures
        spec_decode(spec_encode(CommandModel::ErrorAck { error_type })) == Ok::<
            (nat, CommandModel),
            ProtocolError,
        >((1, CommandModel::AckOk)),
        spec_encode(CommandModel::ErrorAck { error_type }).len() == 5,
{
}

/// What is read from the front of a byte sequence is written back as exactly
/// the bytes that were consumed; a negative acknowledgement keeps its error
/// code bytes but is written with the tag of a positive one.
pub proof fn lemma_decode_encode_roundtrip(s: Seq<u8>)
    requires
        spec_decode(s) is Ok,
    ensures
        !(spec_decode(s)->Ok_0.1 is ErrorAck) ==> spec_encode(spec_decode(s)->Ok_0.1) == s.subrange(
            0,
            spec_decode(s)->Ok_0.0 as int,
        ),
        spec_decode(s)->Ok_0.1 is ErrorAck ==> spec_encode(spec_decode(s)->Ok_0.1) == seq![
            TYPE_ACK_OK,
        ] + s.subrange(1, 5),
{
    let (n, c) = spec_decode(s)->Ok_0;
    match c {
        CommandModel::Hello { service } => {
            assert(spec_encode(c) =~= s.subrange(0, 33));
        },
        CommandModel::DataConnect { transmission_type, port } => {
            lemma_bytes_of_be_u64(s[2], s[3], s[4], s[5], s[6], s[7], s[8], s[9]);
            assert(spec_encode(c) =~= s.subrange(0, 10));
        },
        CommandModel::ErrorAck { error_type } => {
            lemma_bytes_of_be_u32(s[1], s[2], s[3], s[4]);
            assert(spec_encode(c) =~= seq![TYPE_ACK_OK] + s.subrange(1, 5));
        },
        _ => {
            assert(spec_encode(c) =~= s.subrange(0, 1));
        },
    }
}

/// A command read from the front of a byte sequence is the same command, of
/// the same length, whatever follows it; its length is one tag byte plus the
/// payload length of the tag, within the sequence, and a digest it carries has
/// the width of a digest.
pub proof fn lemma_decode_prefix(s: Seq<u8>, t: Seq<u8>)
    requires
        spec_decode(s) is Ok,
    ensures
        spec_decode(s + t) == spec_decode(s),
        spec_decode(s)->Ok_0.0 <= s.len(),
        spec_decode(s)->Ok_0.0 == 1 + spec_payload_len(s[0])->Some_0,
        command_model_wf(spec_decode(s)->Ok_0.1),
{
    let st = s + t;
    assert(st[0] == s[0]);
    let (n, c) = spec_decode(s)->Ok_0;
    assert(st.subrange(0, n as int) =~= s.subrange(0, n as int));
    if s[0] == TYPE_HELLO {
        assert(st.subrange(1, 33) =~= s.subrange(1, 33));
    } else if s[0] == TYPE_DATA_CONNECT {
        assert(st.subrange(2, 10) =~= s.subrange(2, 10));
        assert(st[1] == s[1]);
    } else if s[0] == TYPE_ERROR_ACK {
        assert(st.subrange(1, 5) =~= s.subrange(1, 5));
    }
}

/// A byte sequence that starts with an unknown tag is refused whatever
/// follows it.
pub proof fn lemma_unknown_tag_refused(s: Seq<u8>, t: Seq<u8>)
    requires
        s.len() > 0,
        spec_payload_len(s[0]) is None,
    ensures
        spec_decode(s + t) == Err::<(nat, CommandModel), ProtocolError>(
            ProtocolError::UnsupportedCommand { tag: s[0] },
        ),
{
    assert((s + t)[0] == s[0]);
}

/// The written bytes of a command fill the buffer that
/// [`Command::serialized_len`] reserves, except for a negative
/// acknowledgement, whose bytes take one less.
pub proof fn lemma_encoded_len(c: CommandModel)
    requires
        command_model_wf(c),
    ensures
        !(c is ErrorAck) ==> spec_encode(c).len() == spec_serialized_len(c),
        c is ErrorAck ==> spec_encode(c).len() + 1 == spec_serialized_len(c),
{
}

// ---------------------------------------------------------------------------
// Events of a running control channel

/// What a running control channel waits for: the next command from the peer,
/// or the end of the heartbeat interval.
#[derive(Debug, Clone, Copy, PartialEq, Eq)]
pub enum ChannelEvent {
    Received(Command),
    HeartbeatElapsed,
}

/// Why a running control channel stops.
#[derive(Debug, Clone, Copy, PartialEq, Eq)]
pub enum ChannelFault {
    /// No command arrived within the heartbeat interval.
    HeartbeatTimeout,
    /// The peer sent a command that has no meaning on a running channel.
    UnexpectedCommand,
}

/// A frame made of a known tag and at least as many payload bytes as the tag
/// calls for is always read successfully, taking the tag and exactly that
/// payload: reading the tag, then its payload, then decoding cannot fail.
pub proof fn lemma_full_frame_decodes(s: Seq<u8>)
    requires
        s.len() > 0,
        spec_payload_len(s[0]) is Some,
        s.len() >= 1 + spec_payload_len(s[0])->Some_0,
    ensures
        spec_decode(s) is Ok,
        spec_decode(s)->Ok_0.0 == 1 + spec_payload_len(s[0])->Some_0,
{
}

// ---------------------------------------------------------------------------
// The wire format, byte by byte

/// The integer that four bytes spell in big-endian order.
proof fn lemma_be_u32_arith(b0: u8, b1: u8, b2: u8, b3: u8)
    ensures
        be_u32_of(b0, b1, b2, b3) as int == b0 as int * 0x1000000 + b1 as int * 0x10000 + b2 as int
            * 0x100 + b3 as int,
{
    assert(((b0 as u32) << 24u32) | ((b1 as u32) << 16u32) | ((b2 as u32) << 8u32) | (b3 as u32)
        == b0 as u32 * 0x1000000 + b1 as u32 * 0x10000 + b2 as u32 * 0x100 + b3 as u32)
        by (bit_vector);
}

/// The integer that eight bytes spell in big-endian order.
proof fn lemma_be_u64_arith(b0: u8, b1: u8, b2: u8, b3: u8, b4: u8, b5: u8, b6: u8, b7: u8)
    ensures
        be_u64_of(b0, b1, b2, b3, b4, b5, b6, b7) as int == b0 as int * 0x100000000000000 + b1 as int
            * 0x1000000000000 + b2 as int * 0x10000000000 + b3 as int * 0x100000000 + b4 as int
            * 0x1000000 + b5 as int * 0x10000 + b6 as int * 0x100 + b7 as int,
{
    assert(((b0 as u64) << 56u64) | ((b1 as u64) << 48u64) | ((b2 as u64) << 40u64) | ((b3 as u64)
        << 32u64) | ((b4 as u64) << 24u64) | ((b5 as u64) << 16u64) | ((b6 as u64) << 8u64) | (
    b7 as u64) == b0 as u64 * 0x100000000000000 + b1 as u64 * 0x1000000000000 + b2 as u64
        * 0x10000000000 + b3 as u64 * 0x100000000 + b4 as u64 * 0x1000000 + b5 as u64 * 0x10000
        + b6 as u64 * 0x100 + b7 as u64) by (bit_vector);
}

/// The integer that `s[start .. start + 4]` spells in big-endian order.
pub open spec fn be_int4(s: Seq<u8>, start: int) -> int {
    s[start] as int * 0x1000000 + s[start + 1] as int * 0x10000 + s[start + 2] as int * 0x100
        + s[start + 3] as int
}

/// The integer that `s[start .. start + 8]` spells in big-endian order.
pub open spec fn be_int8(s: Seq<u8>, start: int) -> int {
    s[start] as int * 0x100000000000000 + s[start + 1] as int * 0x1000000000000 + s[start + 2] as int
        * 0x10000000000 + s[start + 3] as int * 0x100000000 + s[start + 4] as int * 0x1000000
        + s[start + 5] as int * 0x10000 + s[start + 6] as int * 0x100 + s[start + 7] as int
}

/// The bytes that each command is written as: a heartbeat is `00`, a
/// positive acknowledgement `02`, a hello `01` followed by the digest as it
/// is, a data connect request `03`, the transport type and the port in
/// eight big-endian bytes, and a negative acknowledgement `02` followed by
/// the error code in four big-endian bytes.
pub proof fn lemma_wire_format(c: CommandModel)
    ensures
        c is Heartbeat ==> spec_encode(c) == seq![0x00u8],
        c is AckOk ==> spec_encode(c) == seq![0x02u8],
        c matches CommandModel::Hello { service } ==> spec_encode(c) == seq![0x01u8] + service,
        c matches CommandModel::DataConnect { transmission_type, port } ==> {
            &&& spec_encode(c).len() == 10
            &&& spec_encode(c)[0] == 0x03u8
            &&& spec_encode(c)[1] == transmission_type
            &&& be_int8(spec_encode(c), 2) == port as int
        },
        c matches CommandModel::ErrorAck { error_type } ==> {
            &&& spec_encode(c).len() == 5
            &&& spec_encode(c)[0] == 0x02u8
            &&& be_int4(spec_encode(c), 1) == error_type as int
        },
{
    match c {
        CommandModel::DataConnect { transmission_type, port } => {
            let e = spec_encode(c);
            lemma_be_u64_of_bytes(port);
            lemma_be_u64_arith(e[2], e[3], e[4], e[5], e[6], e[7], e[8], e[9]);
        },
        CommandModel::ErrorAck { error_type } => {
            let e = spec_encode(c);
            lemma_be_u32_of_bytes(error_type);
            lemma_be_u32_arith(e[1], e[2], e[3], e[4]);
        },
        _ => {},
    }
}

/// The tags of the protocol are `00` to `04`: each has a fixed payload
/// length (`0`, `32`, `0`, `9` and `4`), and every other byte is no tag.
pub proof fn lemma_payload_len_by_tag(tag: u8)
    ensures
        spec_payload_len(tag) is Some <==> tag <= 0x04u8,
        tag == 0x00u8 ==> spec_payload_len(tag) == Some(0nat),
        tag == 0x01u8 ==> spec_payload_len(tag) == Some(32nat),
        tag == 0x02u8 ==> spec_payload_len(tag) == Some(0nat),
        tag == 0x03u8 ==> spec_payload_len(tag) == Some(9nat),
        tag == 0x04u8 ==> spec_payload_len(tag) == Some(4nat),
{
}

/// What is read from a byte sequence, by its first byte: nothing from an
/// empty sequence or a byte above `04`; a heartbeat from `00`, a positive
/// acknowledgement from `02`, a hello carrying the next 32 bytes as they are
/// from `01`, a data connect request with the next byte as transport type and
/// the eight after it as big-endian port from `03`, and a negative
/// acknowledgement with the next four bytes as big-endian error code from
/// `04`; a known tag without its whole payload is an unexpected end. The
/// kind of command read is always the one that its tag names.
pub proof fn lemma_decode_by_tag(s: Seq<u8>)
    ensures
        s.len() == 0 ==> spec_decode(s) == Err::<(nat, CommandModel), ProtocolError>(
            ProtocolError::UnexpectedEnd,
        ),
        s.len() > 0 && s[0] > 0x04u8 ==> spec_decode(s) == Err::<(nat, CommandModel), ProtocolError>(
            ProtocolError::UnsupportedCommand { tag: s[0] },
        ),
        s.len() > 0 && s[0] == 0x00u8 ==> spec_decode(s) == Ok::<(nat, CommandModel), ProtocolError>(
            (1, CommandModel::Heartbeat),
        ),
        s.len() > 0 && s[0] == 0x02u8 ==> spec_decode(s) == Ok::<(nat, CommandModel), ProtocolError>(
            (1, CommandModel::AckOk),
        ),
        s.len() >= 33 && s[0] == 0x01u8 ==> spec_decode(s) == Ok::<
            (nat, CommandModel),
            ProtocolError,
        >((33, CommandModel::Hello { service: s.subrange(1, 33) })),
        s.len() >= 10 && s[0] == 0x03u8 ==> {
            &&& spec_decode(s) is Ok
            &&& spec_decode(s)->Ok_0.0 == 10
            &&& spec_decode(s)->Ok_0.1 matches CommandModel::DataConnect { transmission_type, port }
                && transmission_type == s[1] && port as int == be_int8(s, 2)
        },
        s.len() >= 5 && s[0] == 0x04u8 ==> {
            &&& spec_decode(s) is Ok
            &&& spec_decode(s)->Ok_0.0 == 5
            &&& spec_decode(s)->Ok_0.1 matches CommandModel::ErrorAck { error_type } && error_type
                as int == be_int4(s, 1)
        },
        (s.len() > 0 && s[0] == 0x01u8 && s.len() < 33) || (s.len() > 0 && s[0] == 0x03u8 && s.len()
            < 10) || (s.len() > 0 && s[0] == 0x04u8 && s.len() < 5) ==> spec_decode(s) == Err::<
            (nat, CommandModel),
            ProtocolError,
        >(ProtocolError::UnexpectedEnd),
        spec_decode(s) is Ok ==> {
            &&& s[0] <= 0x04u8
            &&& (spec_decode(s)->Ok_0.1 is Heartbeat <==> s[0] == 0x00u8)
            &&& (spec_decode(s)->Ok_0.1 is Hello <==> s[0] == 0x01u8)
            &&& (spec_decode(s)->Ok_0.1 is AckOk <==> s[0] == 0x02u8)
            &&& (spec_decode(s)->Ok_0.1 is DataConnect <==> s[0] == 0x03u8)
            &&& (spec_decode(s)->Ok_0.1 is ErrorAck <==> s[0] == 0x04u8)
        },
{
    if s.len() >= 10 && s[0] == 0x03u8 {
        let t = s.subrange(2, 10);
        lemma_be_u64_arith(t[0], t[1], t[2], t[3], t[4], t[5], t[6], t[7]);
    }
    if s.len() >= 5 && s[0] == 0x04u8 {
        let t = s.subrange(1, 5);
        lemma_be_u32_arith(t[0], t[1], t[2], t[3]);
    }
}

} // verus!
