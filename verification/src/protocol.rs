//! Discord IPC protocol: opcodes, frames and message shapes.

use vstd::prelude::*;
use crate::activity::opt_view;
use crate::presence::AssetsView;

verus! {

/// Discord IPC opcodes.
#[derive(Debug, Clone, Copy, PartialEq, Eq, Structural)]
pub enum Opcode {
    /// Handshake from client to server (0).
    Handshake,
    /// A protocol message frame (1).
    Frame,
    /// Close the connection (2).
    Close,
    /// Liveness ping from the server (3).
    Ping,
    /// Pong reply to a ping (4).
    Pong,
}

/// The wire value of an opcode.
pub open spec fn opcode_value(op: Opcode) -> u32 {
    match op {
        Opcode::Handshake => 0,
        Opcode::Frame => 1,
        Opcode::Close => 2,
        Opcode::Ping => 3,
        Opcode::Pong => 4,
    }
}

/// The opcode a wire value names, if any.
pub open spec fn opcode_from_value(v: u32) -> Option<Opcode> {
    if v == 0 {
        Some(Opcode::Handshake)
    } else if v == 1 {
        Some(Opcode::Frame)
    } else if v == 2 {
        Some(Opcode::Close)
    } else if v == 3 {
        Some(Opcode::Ping)
    } else if v == 4 {
        Some(Opcode::Pong)
    } else {
        None
    }
}

impl Opcode {
    /// The opcode's wire value.
    pub fn to_u32(self) -> (r: u32)
        ensures
            r == opcode_value(self),
    {
        match self {
            Opcode::Handshake => 0,
            Opcode::Frame => 1,
            Opcode::Close => 2,
            Opcode::Ping => 3,
            Opcode::Pong => 4,
        }
    }

    /// The opcode a wire value names, if any.
    pub fn from_u32(v: u32) -> (r: Option<Opcode>)
        ensures
            r == opcode_from_value(v),
    {
        if v == 0 {
            Some(Opcode::Handshake)
        } else if v == 1 {
            Some(Opcode::Frame)
        } else if v == 2 {
            Some(Opcode::Close)
        } else if v == 3 {
            Some(Opcode::Ping)
        } else if v == 4 {
            Some(Opcode::Pong)
        } else {
            None
        }
    }
}

/// Largest accepted payload of an inbound frame, in bytes (1 MiB).
pub const MAX_FRAME_PAYLOAD_LEN: usize = 1048576;

/// Errors in the IPC protocol layer.
#[derive(Debug)]
pub enum ProtocolError {
    /// Fewer than the 8 header bytes.
    FrameTooShort,
    /// The header claims more payload than the data holds.
    FrameIncomplete,
    /// The header claims more payload than [`MAX_FRAME_PAYLOAD_LEN`].
    FrameTooLarge { length: usize, max: usize },
    /// The opcode value is not one of the protocol's.
    UnknownOpcode(u32),
    /// A JSON payload could not be produced or read.
    JsonError(String),
}

/// The four little-endian bytes of a 32-bit value.
pub open spec fn le_bytes(x: u32) -> Seq<u8> {
    seq![(x % 256) as u8, ((x / 256) % 256) as u8, ((x / 65536) % 256) as u8, (x / 16777216) as u8]
}

/// The 32-bit value of four little-endian bytes.
pub open spec fn le_value(b0: u8, b1: u8, b2: u8, b3: u8) -> int {
    b0 + 256 * b1 + 65536 * b2 + 16777216 * b3
}

/// A Discord IPC frame: `[opcode: u32 LE][length: u32 LE][payload]`.
#[derive(Debug, Clone)]
pub struct Frame {
    pub opcode: Opcode,
    pub payload: Vec<u8>,
}

/// The bytes of a frame with the given opcode and payload. The length field
/// holds the payload length truncated to 32 bits.
pub open spec fn spec_encode(op: Opcode, payload: Seq<u8>) -> Seq<u8> {
    le_bytes(opcode_value(op)) + le_bytes(payload.len() as u32) + payload
}

/// What decoding `data` yields: the opcode and payload, or the error.
pub open spec fn spec_decode(data: Seq<u8>) -> Result<(Opcode, Seq<u8>), ProtocolError> {
    if data.len() < 8 {
        Err(ProtocolError::FrameTooShort)
    } else {
        let op = le_value(data[0], data[1], data[2], data[3]);
        let length = le_value(data[4], data[5], data[6], data[7]);
        if length > MAX_FRAME_PAYLOAD_LEN {
            Err(ProtocolError::FrameTooLarge { length: length as usize, max: MAX_FRAME_PAYLOAD_LEN })
        } else if data.len() < 8 + length {
            Err(ProtocolError::FrameIncomplete)
        } else {
            match opcode_from_value(op as u32) {
                Some(o) => Ok((o, data.subrange(8, 8 + length))),
                None => Err(ProtocolError::UnknownOpcode(op as u32)),
            }
        }
    }
}

/// Writes the little-endian bytes of `x` after `buf`.
fn push_le(buf: &mut Vec<u8>, x: u32)
    ensures
        final(buf)@ == old(buf)@ + le_bytes(x),
{
    buf.push((x % 256) as u8);
    buf.push(((x / 256) % 256) as u8);
    buf.push(((x / 65536) % 256) as u8);
    buf.push((x / 16777216) as u8);
    assert(final(buf)@ =~= old(buf)@ + le_bytes(x));
}

/// Reads a little-endian 32-bit value at `at`.
fn read_le(data: &[u8], at: usize) -> (r: u32)
    requires
        at + 4 <= data@.len(),
    ensures
        r == le_value(data@[at as int], data@[at + 1], data@[at + 2], data@[at + 3]),
{
    let b0 = data[at] as u32;
    let b1 = data[at + 1] as u32;
    let b2 = data[at + 2] as u32;
    let b3 = data[at + 3] as u32;
    b0 + 256 * b1 + 65536 * b2 + 16777216 * b3
}

impl Frame {
    /// Creates a frame.
    pub fn new(opcode: Opcode, payload: Vec<u8>) -> (r: Self)
        ensures
            r.opcode == opcode,
            r.payload@ == payload@,
    {
        Frame { opcode, payload }
    }

    /// The frame's wire bytes.
    pub fn encode(&self) -> (r: Vec<u8>)
        ensures
            r@ == spec_encode(self.opcode, self.payload@),
    {
        let mut buf: Vec<u8> = Vec::new();
        push_le(&mut buf, self.opcode.to_u32());
        push_le(&mut buf, self.payload.len() as u32);
        let mut i: usize = 0;
        while i < self.payload.len()
            invariant
                i <= self.payload@.len(),
                buf@ == le_bytes(opcode_value(self.opcode)) + le_bytes(self.payload@.len() as u32) + self.payload@.take(i as int),
            decreases self.payload@.len() - i,
        {
            buf.push(self.payload[i]);
            proof {
                assert(self.payload@.take(i + 1) =~= self.payload@.take(i as int).push(self.payload@[i as int]));
            }
            i = i + 1;
        }
        assert(self.payload@.take(self.payload@.len() as int) =~= self.payload@);
        buf
    }

    /// Decodes a frame from its wire bytes; bytes after the payload are
    /// ignored.
    pub fn decode(data: &[u8]) -> (r: Result<Self, ProtocolError>)
        ensures
            match (r, spec_decode(data@)) {
                (Ok(f), Ok((op, p))) => f.opcode == op && f.payload@ == p,
                (Err(e), Err(e2)) => e == e2,
                _ => false,
            },
    {
        if data.len() < 8 {
            return Err(ProtocolError::FrameTooShort);
        }
        let op = read_le(data, 0);
        let length = read_le(data, 4) as usize;
        if length > MAX_FRAME_PAYLOAD_LEN {
            return Err(ProtocolError::FrameTooLarge { length, max: MAX_FRAME_PAYLOAD_LEN });
        }
        if data.len() < 8 + length {
            return Err(ProtocolError::FrameIncomplete);
        }
        let opcode = match Opcode::from_u32(op) {
            Some(o) => o,
            None => return Err(ProtocolError::UnknownOpcode(op)),
        };
        let payload = vstd::slice::slice_to_vec(vstd::slice::slice_subrange(data, 8, 8 + length));
        Ok(Frame { opcode, payload })
    }
}

/// Whether a frame waiting in a pipe can be taken whole without waiting.
#[derive(Debug, Clone, Copy, PartialEq, Eq, Structural)]
pub enum Readiness {
    /// Not all of the frame has arrived (or nothing has).
    Incomplete,
    /// The header claims a payload over [`MAX_FRAME_PAYLOAD_LEN`].
    TooLarge {
        /// The claimed payload length.
        length: usize,
    },
    /// The whole frame, `total` bytes with its header, is there.
    Complete {
        /// Header and payload bytes.
        total: usize,
    },
}

/// The readiness of a pipe holding `available` bytes whose first eight,
/// when they could be peeked, are `header`.
pub open spec fn spec_readiness(available: u32, header: Option<Seq<u8>>) -> Readiness {
    if available < 8 {
        Readiness::Incomplete
    } else {
        match header {
            None => Readiness::Incomplete,
            Some(h) => {
                let length = le_value(h[4], h[5], h[6], h[7]);
                if length > MAX_FRAME_PAYLOAD_LEN {
                    Readiness::TooLarge { length: length as usize }
                } else if available < 8 + length {
                    Readiness::Incomplete
                } else {
                    Readiness::Complete { total: (8 + length) as usize }
                }
            },
        }
    }
}

/// Decides whether a frame can be read from a pipe without blocking, from
/// the number of bytes waiting and a peek at the header.
pub fn frame_readiness(available: u32, header: Option<&[u8]>) -> (r: Readiness)
    requires
        header matches Some(h) ==> h@.len() >= 8,
    ensures
        r == spec_readiness(
            available,
            match header {
                Some(h) => Some(h@),
                None => None,
            },
        ),
{
    if available < 8 {
        return Readiness::Incomplete;
    }
    match header {
        None => Readiness::Incomplete,
        Some(h) => {
            let length = read_le(h, 4) as usize;
            if length > MAX_FRAME_PAYLOAD_LEN {
                Readiness::TooLarge { length }
            } else if (available as usize) < 8 + length {
                Readiness::Incomplete
            } else {
                Readiness::Complete { total: 8 + length }
            }
        },
    }
}

/// The payload length a frame header claims.
pub fn header_length(header: &[u8]) -> (r: usize)
    requires
        header@.len() >= 8,
    ensures
        r == le_value(header@[4], header@[5], header@[6], header@[7]),
{
    read_le(header, 4) as usize
}

/// Decoding an encoded frame gives the frame back, for every payload within
/// the size limit.
pub proof fn law_decode_encode(op: Opcode, payload: Seq<u8>)
    requires
        payload.len() <= MAX_FRAME_PAYLOAD_LEN,
    ensures
        spec_decode(spec_encode(op, payload)) matches Ok((o, p)) && o == op && p == payload,
{
    let e = spec_encode(op, payload);
    let x = opcode_value(op);
    let n = payload.len() as u32;
    assert(le_value(e[0], e[1], e[2], e[3]) == x) by {
        assert(e[0] == (x % 256) as u8 && e[1] == ((x / 256) % 256) as u8);
        assert(e[2] == ((x / 65536) % 256) as u8 && e[3] == (x / 16777216) as u8);
    }
    assert(le_value(e[4], e[5], e[6], e[7]) == n) by {
        assert(e[4] == (n % 256) as u8 && e[5] == ((n / 256) % 256) as u8);
        assert(e[6] == ((n / 65536) % 256) as u8 && e[7] == (n / 16777216) as u8);
    }
    assert(e.subrange(8, 8 + n) =~= payload);
}

/// The client's handshake message: `{"v": 1, "client_id": "<id>"}` on the
/// wire.
#[derive(Debug, Clone)]
pub struct HandshakeMessage {
    /// Protocol version (`v`).
    pub version: u32,
    /// The application id as decimal text.
    pub client_id: String,
}

/// The fields of the server's handshake reply that decide its outcome.
#[derive(Debug, Clone)]
pub struct ReadyMessage {
    /// The command name (`DISPATCH` on success).
    pub cmd: String,
    /// The event name (`READY` on success).
    pub evt: String,
}

/// Temporal bounds in an activity payload.
#[derive(Debug, Clone, Copy, PartialEq, Eq, Structural)]
pub struct Timestamps {
    /// Start, Unix seconds.
    pub start: Option<i64>,
    /// End, Unix seconds.
    pub end: Option<i64>,
}

/// Images and hover texts in an activity payload.
#[derive(Debug, Clone)]
pub struct Assets {
    /// Hover text of the large image.
    pub large_text: Option<String>,
    /// Hover text of the small image.
    pub small_text: Option<String>,
    /// Key of the large image.
    pub large_image: Option<String>,
    /// Key of the small image.
    pub small_image: Option<String>,
}

impl View for Assets {
    type V = AssetsView;

    open spec fn view(&self) -> AssetsView {
        AssetsView {
            large_image: opt_view(self.large_image),
            large_text: opt_view(self.large_text),
            small_image: opt_view(self.small_image),
            small_text: opt_view(self.small_text),
        }
    }
}

/// The content of party information: identifier and `(current, max)` size.
pub struct PartyView {
    pub id: Option<Seq<char>>,
    pub size: Option<(u32, u32)>,
}

/// Party information in an activity payload.
#[derive(Debug, Clone)]
pub struct PartyData {
    /// Party identifier.
    pub id: Option<String>,
    /// `(current, max)` size, an array of two on the wire.
    pub size: Option<(u32, u32)>,
}

impl View for PartyData {
    type V = PartyView;

    open spec fn view(&self) -> PartyView {
        PartyView { id: opt_view(self.id), size: self.size }
    }
}

/// The content of matchmaking secrets.
pub struct SecretsView {
    pub join: Option<Seq<char>>,
    pub spectate: Option<Seq<char>>,
    pub match_secret: Option<Seq<char>>,
}

/// Matchmaking secrets in an activity payload.
#[derive(Debug, Clone)]
pub struct SecretsData {
    /// Secret for joining.
    pub join: Option<String>,
    /// Secret for spectating.
    pub spectate: Option<String>,
    /// Secret for matching (`match` on the wire).
    pub match_secret: Option<String>,
}

impl View for SecretsData {
    type V = SecretsView;

    open spec fn view(&self) -> SecretsView {
        SecretsView {
            join: opt_view(self.join),
            spectate: opt_view(self.spectate),
            match_secret: opt_view(self.match_secret),
        }
    }
}

/// The content of an activity payload.
pub struct ActivityDataView {
    pub state: Seq<char>,
    pub details: Option<Seq<char>>,
    pub timestamps: Option<Timestamps>,
    pub assets: Option<AssetsView>,
    pub activity_type: Option<u64>,
    pub buttons: Seq<Seq<char>>,
    pub party: Option<PartyView>,
    pub secrets: Option<SecretsView>,
    pub instance: Option<bool>,
    pub flags: u64,
}

/// The activity payload of a `SET_ACTIVITY` command. Every field but
/// `state` and `flags` is left out of the wire form when absent (or, for
/// `buttons`, empty).
#[derive(Debug, Clone)]
pub struct ActivityData {
    /// Primary status line; always sent.
    pub state: String,
    /// Secondary description.
    pub details: Option<String>,
    /// Temporal bounds.
    pub timestamps: Option<Timestamps>,
    /// Images and hover texts.
    pub assets: Option<Assets>,
    /// Activity type code (`type` on the wire); absent means Playing.
    pub activity_type: Option<u64>,
    /// Button labels, at most two.
    pub buttons: Vec<String>,
    /// Party information.
    pub party: Option<PartyData>,
    /// Matchmaking secrets.
    pub secrets: Option<SecretsData>,
    /// Whether this is a joinable instance; absent means no.
    pub instance: Option<bool>,
    /// Activity flags; always sent.
    pub flags: u64,
}

/// The characters of each string of a vector.
pub open spec fn strings_view(v: Seq<String>) -> Seq<Seq<char>> {
    Seq::new(v.len(), |i: int| v[i]@)
}

impl View for ActivityData {
    type V = ActivityDataView;

    open spec fn view(&self) -> ActivityDataView {
        ActivityDataView {
            state: self.state@,
            details: opt_view(self.details),
            timestamps: self.timestamps,
            assets: match self.assets {
                Some(a) => Some(a@),
                None => None,
            },
            activity_type: self.activity_type,
            buttons: strings_view(self.buttons@),
            party: match self.party {
                Some(p) => Some(p@),
                None => None,
            },
            secrets: match self.secrets {
                Some(x) => Some(x@),
                None => None,
            },
            instance: self.instance,
            flags: self.flags,
        }
    }
}

/// The `args` of a `SET_ACTIVITY` command; no activity clears the presence.
#[derive(Debug, Clone)]
pub struct ActivityUpdateArgs {
    /// The sending process id.
    pub pid: u32,
    /// The activity to show, or none to clear.
    pub activity: Option<ActivityData>,
}

/// A command envelope: `{"cmd": ..., "args": ..., "nonce": ...}`.
#[derive(Debug, Clone)]
pub struct CommandEnvelope {
    /// The command name.
    pub cmd: String,
    /// The command arguments.
    pub args: ActivityUpdateArgs,
    /// A nonce unique per command.
    pub nonce: String,
}

} // verus!
