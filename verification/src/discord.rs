//! The Discord IPC client and the Discord output.
//!
//! The client owns the handshake, the liveness protocol (answering pings,
//! honouring close frames), command envelopes and reconnection; the output
//! picks the Discord application per engine source and renders presences
//! into activity payloads. The pipe itself and the JSON text of messages
//! are the channel's business ([`DiscordIpc`]).

use vstd::prelude::*;
use crate::activity::Activity;
use crate::json::{bytes_string_member, json_bytes_string_member};
use crate::output::{Output, OutputCall, OutputError};
use crate::presence::RichPresence;
use crate::protocol::{
    ActivityData, ActivityDataView, ActivityUpdateArgs, CommandEnvelope, Frame, HandshakeMessage, Opcode,
    ReadyMessage,
};
use crate::render::{rendered, to_activity_data};
use crate::strmap::StringMap;
use crate::text::{append_str, join_str, decimal, decimal_string, str_eq};

verus! {

/// A count of calls a channel received.
pub type DisconnectCount = nat;

/// The activity a command carries, as values.
pub open spec fn command_activity(e: CommandEnvelope) -> Option<ActivityDataView> {
    match e.args.activity {
        Some(a) => Some(a@),
        None => None,
    }
}

/// The pipe to a local Discord client, and the JSON text of the messages
/// sent over it. Every operation may fail or return anything: nothing is
/// assumed of the other side. What is known is how often the pipe was asked
/// to close.
pub trait DiscordIpc: Sized {
    /// A channel that is not connected yet.
    fn open() -> Self;

    /// Connects to the Discord pipe.
    fn connect(&mut self) -> (r: Result<(), String>)
        ensures
            final(self).disconnects() == old(self).disconnects(),
    ;

    /// How many times the pipe was asked to close; only
    /// [`DiscordIpc::disconnect`] changes it.
    spec fn disconnects(&self) -> DisconnectCount;

    /// Closes the pipe, if open.
    fn disconnect(&mut self)
        ensures
            final(self).disconnects() == old(self).disconnects() + 1,
    ;

    /// Writes one frame.
    fn write_frame(&mut self, frame: &Frame) -> (r: Result<(), String>)
        ensures
            final(self).disconnects() == old(self).disconnects(),
    ;

    /// Reads one frame, waiting for it.
    fn read_frame(&mut self) -> (r: Result<Frame, String>)
        ensures
            final(self).disconnects() == old(self).disconnects(),
    ;

    /// Reads one frame if a whole one is already waiting.
    fn try_read_frame(&mut self) -> (r: Result<Option<Frame>, String>)
        ensures
            final(self).disconnects() == old(self).disconnects(),
    ;

    /// The JSON text of a handshake message.
    fn encode_handshake(&self, message: &HandshakeMessage) -> Result<Vec<u8>, String>;

    /// The JSON text of a command envelope.
    fn encode_command(&self, envelope: &CommandEnvelope) -> Result<Vec<u8>, String>;

    /// The fields of a handshake reply's JSON text.
    fn decode_ready(&self, payload: &[u8]) -> Result<ReadyMessage, String>;

    /// The id of this process, sent with each command.
    fn process_id(&self) -> u32;
}

/// A failed client operation.
#[derive(Debug)]
pub enum ClientError {
    /// The pipe failed.
    Transport(String),
    /// A message could not be encoded.
    Json(String),
    /// The handshake was refused or answered wrongly.
    HandshakeFailed(String),
    /// No connection.
    NotConnected,
}

/// The text of a client error.
pub open spec fn client_error_text(e: ClientError) -> Seq<char> {
    match e {
        ClientError::Transport(m) => "transport error: "@ + m@,
        ClientError::Json(m) => "JSON error: "@ + m@,
        ClientError::HandshakeFailed(m) => "handshake failed: "@ + m@,
        ClientError::NotConnected => "not connected"@,
    }
}

impl ClientError {
    /// The human-readable description of the error.
    pub fn message(&self) -> (r: String)
        ensures
            r@ == client_error_text(*self),
    {
        match self {
            ClientError::Transport(m) => join_str("transport error: ", m.as_str()),
            ClientError::Json(m) => join_str("JSON error: ", m.as_str()),
            ClientError::HandshakeFailed(m) => join_str("handshake failed: ", m.as_str()),
            ClientError::NotConnected => "not connected".to_owned(),
        }
    }
}

/// The name of an opcode as `Debug` prints it.
pub open spec fn opcode_name(op: Opcode) -> Seq<char> {
    match op {
        Opcode::Handshake => "Handshake"@,
        Opcode::Frame => "Frame"@,
        Opcode::Close => "Close"@,
        Opcode::Ping => "Ping"@,
        Opcode::Pong => "Pong"@,
    }
}

/// The name of an opcode.
fn opcode_text(op: Opcode) -> (r: String)
    ensures
        r@ == opcode_name(op),
{
    match op {
        Opcode::Handshake => "Handshake".to_owned(),
        Opcode::Frame => "Frame".to_owned(),
        Opcode::Close => "Close".to_owned(),
        Opcode::Ping => "Ping".to_owned(),
        Opcode::Pong => "Pong".to_owned(),
    }
}

/// The verdict on a handshake reply: a `Frame` carrying `DISPATCH`/`READY`
/// accepts; an unreadable `Frame`, another command or event, a `Close`, or
/// any other opcode refuses, with the reason.
pub open spec fn handshake_verdict(op: Opcode, decoded: Result<ReadyMessage, String>) -> Result<(), Seq<char>> {
    match op {
        Opcode::Frame => match decoded {
            Err(e) => Err("Invalid READY payload: "@ + e@),
            Ok(ready) => if ready.cmd@ == "DISPATCH"@ && ready.evt@ == "READY"@ {
                Ok(())
            } else {
                Err("Unexpected handshake response: cmd="@ + ready.cmd@ + ", evt="@ + ready.evt@)
            },
        },
        Opcode::Close => Err("Discord rejected handshake"@),
        _ => Err("Unexpected opcode during handshake: "@ + opcode_name(op)),
    }
}

/// The verdict on a `Frame` reply whose payload carries the command `cmd`
/// and the event `evt`.
pub open spec fn ready_verdict(cmd: Seq<char>, evt: Seq<char>) -> Result<(), Seq<char>> {
    if cmd == "DISPATCH"@ && evt == "READY"@ {
        Ok(())
    } else {
        Err("Unexpected handshake response: cmd="@ + cmd + ", evt="@ + evt)
    }
}

/// Why a reply that is not a `Frame` refuses the handshake.
pub open spec fn refusal_message(op: Opcode) -> Seq<char> {
    if op == Opcode::Close {
        "Discord rejected handshake"@
    } else {
        "Unexpected opcode during handshake: "@ + opcode_name(op)
    }
}

/// Judges a handshake reply from its opcode and its decoded payload.
pub fn judge_handshake(op: Opcode, decoded: Result<ReadyMessage, String>) -> (r: Result<(), ClientError>)
    ensures
        match handshake_verdict(op, decoded) {
            Ok(()) => r is Ok,
            Err(m) => r matches Err(ClientError::HandshakeFailed(x)) && x@ == m,
        },
{
    match op {
        Opcode::Frame => match decoded {
            Err(e) => Err(ClientError::HandshakeFailed(join_str("Invalid READY payload: ", e.as_str()))),
            Ok(ready) => {
                if str_eq(ready.cmd.as_str(), "DISPATCH") && str_eq(ready.evt.as_str(), "READY") {
                    Ok(())
                } else {
                    let mut m = join_str("Unexpected handshake response: cmd=", ready.cmd.as_str());
                    append_str(&mut m, ", evt=");
                    append_str(&mut m, ready.evt.as_str());
                    Err(ClientError::HandshakeFailed(m))
                }
            },
        },
        Opcode::Close => Err(ClientError::HandshakeFailed("Discord rejected handshake".to_owned())),
        other => {
            let name = opcode_text(other);
            Err(ClientError::HandshakeFailed(join_str("Unexpected opcode during handshake: ", name.as_str())))
        },
    }
}

/// The nonce of the `n`-th command: `presencehub-<n>`.
pub open spec fn nonce_text(n: u64) -> Seq<char> {
    "presencehub-"@ + decimal(n as nat)
}

/// At most this many waiting frames are consumed by one drain.
pub const MAX_DRAINED_FRAMES: u64 = 0xffff_ffff_ffff_ffff;

/// A Discord IPC client: handshake, liveness, commands and connection
/// state over a channel.
pub struct DiscordClient<C: DiscordIpc> {
    transport: C,
    application_id: u64,
    connected: bool,
    nonce_counter: u64,
    handshakes: Ghost<nat>,
    commands_sent: Ghost<nat>,
    last_activity: Ghost<Option<ActivityDataView>>,
}

impl<C: DiscordIpc> DiscordClient<C> {
    /// Whether the client is connected.
    pub closed spec fn spec_connected(&self) -> bool {
        self.connected
    }

    /// The Discord application id sent in the handshake.
    pub closed spec fn spec_application_id(&self) -> u64 {
        self.application_id
    }

    /// How many commands have been numbered so far.
    pub closed spec fn spec_nonce_counter(&self) -> u64 {
        self.nonce_counter
    }

    /// How many handshakes Discord has accepted so far.
    pub closed spec fn spec_handshakes(&self) -> nat {
        self.handshakes@
    }

    /// How many times the client asked its channel to close.
    pub closed spec fn spec_disconnects(&self) -> nat {
        self.transport.disconnects()
    }

    /// How many command frames the channel has taken so far.
    pub closed spec fn spec_commands_sent(&self) -> nat {
        self.commands_sent@
    }

    /// The activity of the last `SET_ACTIVITY` command that
    /// [`DiscordClient::set_activity`] wrote, if any.
    pub closed spec fn spec_last_activity(&self) -> Option<ActivityDataView> {
        self.last_activity@
    }

    /// The channel the client talks over.
    pub closed spec fn spec_channel(&self) -> C {
        self.transport
    }

    /// A disconnected client for `application_id` over a fresh channel.
    pub fn new(application_id: u64) -> (r: Self)
        ensures
            !r.spec_connected(),
            r.spec_application_id() == application_id,
            r.spec_nonce_counter() == 0,
            r.spec_handshakes() == 0,
            r.spec_commands_sent() == 0,
    {
        DiscordClient {
            transport: C::open(),
            application_id,
            connected: false,
            nonce_counter: 0,
            handshakes: Ghost(0),
            commands_sent: Ghost(0),
            last_activity: Ghost(None),
        }
    }

    /// A disconnected client for `application_id` over `channel`.
    pub fn with_channel(channel: C, application_id: u64) -> (r: Self)
        ensures
            !r.spec_connected(),
            r.spec_application_id() == application_id,
            r.spec_nonce_counter() == 0,
            r.spec_handshakes() == 0,
            r.spec_commands_sent() == 0,
            r.spec_channel() == channel,
    {
        DiscordClient {
            transport: channel,
            application_id,
            connected: false,
            nonce_counter: 0,
            handshakes: Ghost(0),
            commands_sent: Ghost(0),
            last_activity: Ghost(None),
        }
    }

    /// Whether the client is connected.
    pub fn is_connected(&self) -> (r: bool)
        ensures
            r == self.spec_connected(),
    {
        self.connected
    }

    /// The channel the client talks over.
    pub fn channel(&self) -> (r: &C)
        ensures
            *r == self.spec_channel(),
    {
        &self.transport
    }

    /// The Discord application id sent in the handshake.
    pub fn application_id(&self) -> (r: u64)
        ensures
            r == self.spec_application_id(),
    {
        self.application_id
    }

    /// The handshake frame: opcode `Handshake` carrying
    /// `{"v": 1, "client_id": "<application id>"}`.
    fn build_handshake_frame(&self) -> (r: Result<Frame, ClientError>)
        ensures
            r matches Ok(f) ==> f.opcode == Opcode::Handshake,
            r is Err ==> r matches Err(ClientError::Json(_)),
    {
        let message = HandshakeMessage { version: 1, client_id: decimal_string(self.application_id) };
        match self.transport.encode_handshake(&message) {
            Ok(payload) => Ok(Frame::new(Opcode::Handshake, payload)),
            Err(e) => Err(ClientError::Json(e)),
        }
    }

    /// Validates the reply to the handshake: the client is connected
    /// exactly when the reply is a `Frame` whose JSON payload has the string
    /// members `cmd` = `DISPATCH` and `evt` = `READY`; on refusal the pipe is
    /// closed. A payload without both strings is refused with the channel's
    /// decoding error.
    pub fn handle_handshake_response(&mut self, response: Frame) -> (r: Result<(), ClientError>)
        ensures
            final(self).spec_connected() == r is Ok,
            final(self).spec_application_id() == old(self).spec_application_id(),
            final(self).spec_nonce_counter() == old(self).spec_nonce_counter(),
            final(self).spec_handshakes() == old(self).spec_handshakes() + if r is Ok {
                1nat
            } else {
                0nat
            },
            final(self).spec_commands_sent() == old(self).spec_commands_sent(),
            final(self).spec_disconnects() == old(self).spec_disconnects() + if r is Ok {
                0nat
            } else {
                1nat
            },
            ({
                let cmd = json_bytes_string_member(response.payload@, "cmd"@);
                let evt = json_bytes_string_member(response.payload@, "evt"@);
                if response.opcode == Opcode::Frame {
                    match (cmd, evt) {
                        (Some(c), Some(e)) => match ready_verdict(c, e) {
                            Ok(()) => r is Ok,
                            Err(m) => (r matches Err(ClientError::HandshakeFailed(x)) && x@ == m),
                        },
                        _ => (r matches Err(ClientError::HandshakeFailed(x)) && "Invalid READY payload: "@.is_prefix_of(x@)),
                    }
                } else {
                    (r matches Err(ClientError::HandshakeFailed(x)) && x@ == refusal_message(response.opcode))
                }
            }),
    {
        let verdict = match response.opcode {
            Opcode::Frame => {
                let cmd = bytes_string_member(response.payload.as_slice(), "cmd");
                let evt = bytes_string_member(response.payload.as_slice(), "evt");
                match (cmd, evt) {
                    (Some(c), Some(e)) => {
                        let ready = ReadyMessage { cmd: c, evt: e };
                        judge_handshake(Opcode::Frame, Ok(ready))
                    },
                    _ => {
                        let reason = match self.transport.decode_ready(response.payload.as_slice()) {
                            Err(e) => e,
                            Ok(_) => "expected an object with string `cmd` and `evt`".to_owned(),
                        };
                        let m = join_str("Invalid READY payload: ", reason.as_str());
                        proof {
                            reveal_strlit("Invalid READY payload: ");
                            assert(m@.take(23) =~= "Invalid READY payload: "@);
                        }
                        Err(ClientError::HandshakeFailed(m))
                    },
                }
            },
            other => judge_handshake(other, Err(String::new())),
        };
        match verdict {
            Ok(()) => {
                self.connected = true;
                self.handshakes = Ghost(self.handshakes@ + 1);
            },
            Err(_) => {
                self.connected = false;
                self.transport.disconnect();
            },
        }
        verdict
    }

    /// Handles one frame Discord sent unprompted: a `Ping` is answered with
    /// a `Pong`; a `Close` (or a `Pong` that cannot be written) ends the
    /// connection; anything else is let through. Returns whether the
    /// connection is still up.
    pub fn handle_incoming_frame(&mut self, frame: Frame) -> (r: bool)
        ensures
            !r ==> !final(self).spec_connected(),
            r ==> final(self).spec_connected() == old(self).spec_connected(),
            frame.opcode == Opcode::Close ==> !r,
            frame.opcode != Opcode::Ping && frame.opcode != Opcode::Close ==> r,
            final(self).spec_application_id() == old(self).spec_application_id(),
            final(self).spec_nonce_counter() == old(self).spec_nonce_counter(),
            final(self).spec_handshakes() == old(self).spec_handshakes(),
            final(self).spec_commands_sent() == old(self).spec_commands_sent(),
    {
        match frame.opcode {
            Opcode::Ping => {
                let pong = Frame::new(Opcode::Pong, Vec::new());
                match self.transport.write_frame(&pong) {
                    Ok(()) => true,
                    Err(_) => {
                        self.connected = false;
                        self.transport.disconnect();
                        false
                    },
                }
            },
            Opcode::Close => {
                self.connected = false;
                self.transport.disconnect();
                false
            },
            _ => true,
        }
    }

    /// Consumes every frame Discord has already sent, without waiting:
    /// pings are answered, and a close or a read failure disconnects.
    pub fn drain_incoming(&mut self)
        ensures
            final(self).spec_connected() ==> old(self).spec_connected(),
            final(self).spec_application_id() == old(self).spec_application_id(),
            final(self).spec_nonce_counter() == old(self).spec_nonce_counter(),
            final(self).spec_handshakes() == old(self).spec_handshakes(),
            final(self).spec_commands_sent() == old(self).spec_commands_sent(),
    {
        let mut budget: u64 = MAX_DRAINED_FRAMES;
        while budget > 0
            invariant
                self.connected ==> old(self).connected,
                self.application_id == old(self).application_id,
                self.nonce_counter == old(self).nonce_counter,
                self.handshakes == old(self).handshakes,
                self.commands_sent == old(self).commands_sent,
            decreases budget,
        {
            budget = budget - 1;
            let frame = match self.transport.try_read_frame() {
                Ok(Some(frame)) => frame,
                Ok(None) => {
                    break;
                },
                Err(_) => {
                    self.connected = false;
                    self.transport.disconnect();
                    break;
                },
            };
            if !self.handle_incoming_frame(frame) {
                break;
            }
        }
    }

    /// Connects and performs the handshake; on success, consumes frames
    /// already waiting behind the reply.
    pub fn connect(&mut self) -> (r: Result<(), ClientError>)
        ensures
            r is Err ==> !final(self).spec_connected() || old(self).spec_connected(),
            r matches Err(ClientError::HandshakeFailed(_)) ==> !final(self).spec_connected(),
            final(self).spec_handshakes() == old(self).spec_handshakes() + if r is Ok {
                1nat
            } else {
                0nat
            },
            final(self).spec_commands_sent() == old(self).spec_commands_sent(),
            final(self).spec_application_id() == old(self).spec_application_id(),
            final(self).spec_nonce_counter() == old(self).spec_nonce_counter(),
    {
        match self.transport.connect() {
            Ok(()) => {},
            Err(e) => {
                return Err(ClientError::Transport(e));
            },
        }
        let frame = match self.build_handshake_frame() {
            Ok(f) => f,
            Err(e) => {
                return Err(e);
            },
        };
        match self.transport.write_frame(&frame) {
            Ok(()) => {},
            Err(e) => {
                return Err(ClientError::Transport(e));
            },
        }
        let response = match self.transport.read_frame() {
            Ok(f) => f,
            Err(e) => {
                return Err(ClientError::Transport(e));
            },
        };
        let result = self.handle_handshake_response(response);
        if result.is_ok() {
            self.drain_incoming();
        }
        result
    }

    /// Disconnects, telling Discord first when connected.
    pub fn disconnect(&mut self)
        ensures
            !final(self).spec_connected(),
            final(self).spec_application_id() == old(self).spec_application_id(),
            final(self).spec_nonce_counter() == old(self).spec_nonce_counter(),
            final(self).spec_handshakes() == old(self).spec_handshakes(),
            final(self).spec_commands_sent() == old(self).spec_commands_sent(),
    {
        if self.connected {
            let close = Frame::new(Opcode::Close, Vec::new());
            let _ = self.transport.write_frame(&close);
        }
        self.transport.disconnect();
        self.connected = false;
    }

    /// The next command nonce, `presencehub-<n>` with `n` counting from 1.
    fn next_nonce(&mut self) -> (r: String)
        ensures
            final(self).spec_nonce_counter() == old(self).spec_nonce_counter().wrapping_add(1),
            r@ == nonce_text(final(self).spec_nonce_counter()),
            final(self).spec_connected() == old(self).spec_connected(),
            final(self).spec_application_id() == old(self).spec_application_id(),
            final(self).spec_handshakes() == old(self).spec_handshakes(),
            final(self).spec_commands_sent() == old(self).spec_commands_sent(),
    {
        self.nonce_counter = self.nonce_counter.wrapping_add(1);
        let mut r = "presencehub-".to_owned();
        let digits = decimal_string(self.nonce_counter);
        append_str(&mut r, digits.as_str());
        r
    }

    /// The frame carrying a command envelope (opcode `Frame`).
    fn build_command_frame(&self, envelope: &CommandEnvelope) -> (r: Result<Frame, ClientError>)
        ensures
            r matches Ok(f) ==> f.opcode == Opcode::Frame,
            r is Err ==> r matches Err(ClientError::Json(_)),
    {
        match self.transport.encode_command(envelope) {
            Ok(data) => Ok(Frame::new(Opcode::Frame, data)),
            Err(e) => Err(ClientError::Json(e)),
        }
    }

    /// Writes a command; when the write fails, reconnects and writes once
    /// more.
    fn write_envelope(&mut self, envelope: &CommandEnvelope) -> (r: Result<(), ClientError>)
        ensures
            final(self).spec_application_id() == old(self).spec_application_id(),
            final(self).spec_nonce_counter() == old(self).spec_nonce_counter(),
            final(self).spec_commands_sent() == old(self).spec_commands_sent() + if r is Ok {
                1nat
            } else {
                0nat
            },
            final(self).spec_handshakes() >= old(self).spec_handshakes(),
    {
        let frame = match self.build_command_frame(envelope) {
            Ok(f) => f,
            Err(e) => {
                return Err(e);
            },
        };
        match self.transport.write_frame(&frame) {
            Ok(()) => {
                self.commands_sent = Ghost(self.commands_sent@ + 1);
                Ok(())
            },
            Err(_) => {
                self.connected = false;
                self.transport.disconnect();
                match self.connect() {
                    Ok(()) => {},
                    Err(e) => {
                        return Err(e);
                    },
                }
                let again = match self.build_command_frame(envelope) {
                    Ok(f) => f,
                    Err(e) => {
                        return Err(e);
                    },
                };
                match self.transport.write_frame(&again) {
                    Ok(()) => {
                        self.commands_sent = Ghost(self.commands_sent@ + 1);
                        Ok(())
                    },
                    Err(e) => Err(ClientError::Transport(e)),
                }
            },
        }
    }

    /// Sends a `SET_ACTIVITY` command with `activity`, connecting first
    /// when needed and reconnecting once when the drain shows the
    /// connection gone. Each command takes the next nonce.
    pub fn set_activity(&mut self, activity: ActivityData) -> (r: Result<(), ClientError>)
        ensures
            final(self).spec_application_id() == old(self).spec_application_id(),
            r is Ok ==> final(self).spec_nonce_counter() == old(self).spec_nonce_counter().wrapping_add(1),
            final(self).spec_commands_sent() == old(self).spec_commands_sent() + if r is Ok {
                1nat
            } else {
                0nat
            },
            final(self).spec_handshakes() >= old(self).spec_handshakes(),
            !old(self).spec_connected() && r is Ok ==> final(self).spec_handshakes() > old(self).spec_handshakes(),
            r is Ok ==> final(self).spec_last_activity() == Some(activity@),
    {
        if !self.connected {
            match self.connect() {
                Ok(()) => {},
                Err(e) => {
                    return Err(e);
                },
            }
        }
        self.drain_incoming();
        if !self.connected {
            match self.connect() {
                Ok(()) => {},
                Err(e) => {
                    return Err(e);
                },
            }
        }
        let pid = self.transport.process_id();
        let nonce = self.next_nonce();
        let envelope = CommandEnvelope {
            cmd: "SET_ACTIVITY".to_owned(),
            args: ActivityUpdateArgs { pid, activity: Some(activity) },
            nonce,
        };
        let ghost sent = command_activity(envelope);
        let r = self.write_envelope(&envelope);
        if r.is_ok() {
            self.last_activity = Ghost(sent);
        }
        r
    }

    /// Clears the activity with a `SET_ACTIVITY` command carrying none. A
    /// client that is not connected (or finds the connection gone while
    /// draining) has nothing to clear and succeeds without sending.
    pub fn clear_activity(&mut self) -> (r: Result<(), ClientError>)
        ensures
            final(self).spec_application_id() == old(self).spec_application_id(),
            !old(self).spec_connected() ==> r is Ok && *final(self) == *old(self),
            old(self).spec_connected() ==> if final(self).spec_commands_sent() == old(self).spec_commands_sent() {
                r is Ok ==> !final(self).spec_connected()
                    && final(self).spec_nonce_counter() == old(self).spec_nonce_counter()
            } else {
                &&& r is Ok
                &&& final(self).spec_commands_sent() == old(self).spec_commands_sent() + 1
                &&& final(self).spec_nonce_counter() == old(self).spec_nonce_counter().wrapping_add(1)
            },
            final(self).spec_handshakes() >= old(self).spec_handshakes(),
    {
        if !self.connected {
            return Ok(());
        }
        self.drain_incoming();
        if !self.connected {
            return Ok(());
        }
        let pid = self.transport.process_id();
        let nonce = self.next_nonce();
        let envelope = CommandEnvelope {
            cmd: "SET_ACTIVITY".to_owned(),
            args: ActivityUpdateArgs { pid, activity: None },
            nonce,
        };
        self.write_envelope(&envelope)
    }

    /// Disconnects and connects again.
    pub fn reconnect(&mut self) -> (r: Result<(), ClientError>)
        ensures
            final(self).spec_application_id() == old(self).spec_application_id(),
            final(self).spec_nonce_counter() == old(self).spec_nonce_counter(),
            r is Err ==> !final(self).spec_connected(),
            final(self).spec_handshakes() == old(self).spec_handshakes() + if r is Ok {
                1nat
            } else {
                0nat
            },
            final(self).spec_commands_sent() == old(self).spec_commands_sent(),
    {
        self.disconnect();
        self.connect()
    }
}

// ---------------------------------------------------------------------------
// Discord output
// ---------------------------------------------------------------------------

/// The Discord application id of a source: its own entry, else the
/// default.
pub open spec fn resolved_app_id(default_app_id: u64, app_ids: Map<Seq<char>, u64>, source: Seq<char>) -> u64 {
    if app_ids.dom().contains(source) {
        app_ids[source]
    } else {
        default_app_id
    }
}

/// Publishes activities to Discord Rich Presence, one Discord application
/// per source: a source's own application id, else the default; an id of
/// zero turns the output off for that source. The connection is made on
/// the first publish and again after a failure, and is switched only when
/// the application id changes.
pub struct DiscordOutput<C: DiscordIpc> {
    client: Option<DiscordClient<C>>,
    default_app_id: u64,
    app_ids: StringMap<u64>,
    current_app_id: Option<u64>,
    calls: Ghost<Seq<OutputCall>>,
}

impl<C: DiscordIpc> DiscordOutput<C> {
    /// Whether a client exists (connected or being connected).
    pub closed spec fn spec_has_client(&self) -> bool {
        self.client is Some
    }

    /// The application id of the client, if one exists.
    pub closed spec fn spec_client_app_id(&self) -> Option<u64> {
        match self.client {
            Some(c) => Some(c.spec_application_id()),
            None => None,
        }
    }

    /// Whether the client exists and is connected.
    pub closed spec fn spec_connected(&self) -> bool {
        self.client matches Some(c) && c.spec_connected()
    }

    /// The calls this output received as an engine output.
    pub closed spec fn spec_calls(&self) -> Seq<OutputCall> {
        self.calls@
    }

    /// The activity the current client last sent with `SET_ACTIVITY` (none
    /// without a client).
    pub closed spec fn spec_client_last_activity(&self) -> Option<ActivityDataView> {
        match self.client {
            Some(c) => c.spec_last_activity(),
            None => None,
        }
    }

    /// How many commands the current client has sent (none without one).
    pub closed spec fn spec_client_commands(&self) -> nat {
        match self.client {
            Some(c) => c.spec_commands_sent(),
            None => 0,
        }
    }

    /// The application chosen for the current (or last) connection.
    pub closed spec fn spec_current_app_id(&self) -> Option<u64> {
        self.current_app_id
    }

    /// The default application id.
    pub closed spec fn spec_default_app_id(&self) -> u64 {
        self.default_app_id
    }

    /// The per-source application ids.
    pub closed spec fn spec_app_ids(&self) -> Map<Seq<char>, u64> {
        self.app_ids@
    }

    /// An output with no connection yet.
    pub fn new(default_app_id: u64, app_ids: StringMap<u64>) -> (r: Self)
        ensures
            !r.spec_has_client(),
            r.spec_current_app_id() is None,
            r.spec_default_app_id() == default_app_id,
            r.spec_app_ids() == app_ids@,
            r.spec_calls() == Seq::<OutputCall>::empty(),
    {
        DiscordOutput { client: None, default_app_id, app_ids, current_app_id: None, calls: Ghost(Seq::empty()) }
    }

    /// Whether the output is connected to Discord.
    pub fn is_connected(&self) -> (r: bool)
        ensures
            r == self.spec_connected(),
    {
        match &self.client {
            Some(c) => c.is_connected(),
            None => false,
        }
    }

    /// Whether a client exists (connected, or kept after connecting).
    pub fn has_client(&self) -> (r: bool)
        ensures
            r == self.spec_has_client(),
    {
        self.client.is_some()
    }

    /// The application id of the client, if one exists.
    pub fn client_app_id(&self) -> (r: Option<u64>)
        ensures
            r == self.spec_client_app_id(),
    {
        match &self.client {
            Some(c) => Some(c.application_id()),
            None => None,
        }
    }

    /// The application chosen for the current (or last) connection.
    pub fn current_app_id(&self) -> (r: Option<u64>)
        ensures
            r == self.spec_current_app_id(),
    {
        self.current_app_id
    }

    /// The Discord application id for `source`.
    pub fn resolve_app_id(&self, source: &str) -> (r: u64)
        ensures
            r == resolved_app_id(self.spec_default_app_id(), self.spec_app_ids(), source@),
    {
        match self.app_ids.get(source) {
            Some(id) => *id,
            None => self.default_app_id,
        }
    }

    /// Makes sure a client exists: when none does, a new one for the
    /// current application (else the default) is created and connected,
    /// and kept only when the connection succeeds.
    fn ensure_client(&mut self) -> (r: Result<(), OutputError>)
        ensures
            final(self).spec_calls() == old(self).spec_calls(),
            r is Ok <==> final(self).spec_has_client(),
            old(self).spec_has_client() ==> *final(self) == *old(self),
            !old(self).spec_has_client() ==> final(self).spec_client_commands() == 0,
            !old(self).spec_has_client() && final(self).spec_has_client()
                ==> final(self).spec_client_app_id() == Some(
                match old(self).spec_current_app_id() {
                    Some(id) => id,
                    None => old(self).spec_default_app_id(),
                },
            ),
            final(self).spec_current_app_id() == old(self).spec_current_app_id(),
            final(self).spec_default_app_id() == old(self).spec_default_app_id(),
            final(self).spec_app_ids() == old(self).spec_app_ids(),
            (r matches Err(OutputError::PublishFailed(m)) ==> exists|e: ClientError|
                m@ == "Discord connection failed: "@ + #[trigger] client_error_text(e)),
    {
        if self.client.is_none() {
            let application_id = match self.current_app_id {
                Some(id) => id,
                None => self.default_app_id,
            };
            let mut client: DiscordClient<C> = DiscordClient::new(application_id);
            match client.connect() {
                Ok(()) => {},
                Err(e) => {
                    let m = e.message();
                    return Err(OutputError::PublishFailed(join_str("Discord connection failed: ", m.as_str())));
                },
            }
            self.client = Some(client);
        }
        Ok(())
    }

    /// Drops the client after disconnecting it, so the next publish
    /// connects afresh.
    fn drop_client(&mut self)
        ensures
            final(self).spec_calls() == old(self).spec_calls(),
            !final(self).spec_has_client(),
            final(self).spec_current_app_id() == old(self).spec_current_app_id(),
            final(self).spec_default_app_id() == old(self).spec_default_app_id(),
            final(self).spec_app_ids() == old(self).spec_app_ids(),
    {
        let mut taken: Option<DiscordClient<C>> = None;
        std::mem::swap(&mut taken, &mut self.client);
        match taken {
            Some(mut c) => {
                c.disconnect();
            },
            None => {},
        }
    }

    /// Renders a presence into a Discord activity payload and sends it. A
    /// failed send drops the client so the next publish reconnects.
    pub fn set_presence(&mut self, presence: &RichPresence) -> (r: Result<(), OutputError>)
        ensures
            final(self).spec_calls() == old(self).spec_calls(),
            r is Err ==> !final(self).spec_has_client(),
            r is Ok ==> final(self).spec_has_client() && final(self).spec_client_commands()
                == old(self).spec_client_commands() + 1,
            final(self).spec_current_app_id() == old(self).spec_current_app_id(),
            final(self).spec_default_app_id() == old(self).spec_default_app_id(),
            final(self).spec_app_ids() == old(self).spec_app_ids(),
            old(self).spec_has_client() && final(self).spec_has_client()
                ==> final(self).spec_client_app_id() == old(self).spec_client_app_id(),
            !old(self).spec_has_client() && final(self).spec_has_client()
                ==> final(self).spec_client_app_id() == Some(
                match old(self).spec_current_app_id() {
                    Some(id) => id,
                    None => old(self).spec_default_app_id(),
                },
            ),
            r is Ok ==> final(self).spec_client_last_activity() == Some(rendered(*presence)),
    {
        match self.ensure_client() {
            Ok(()) => {},
            Err(e) => {
                return Err(e);
            },
        }
        let data = to_activity_data(presence);
        let sent = match &mut self.client {
            Some(client) => client.set_activity(data),
            None => Err(ClientError::NotConnected),
        };
        match sent {
            Ok(()) => Ok(()),
            Err(e) => {
                self.drop_client();
                let m = e.message();
                Err(OutputError::PublishFailed(join_str("Discord publish failed: ", m.as_str())))
            },
        }
    }

    /// Publishes `activity` for engine source `source` (the step behind
    /// [`Output::publish`]).
    ///
    /// A source whose application id resolves to zero drops the connection
    /// and leaves the output idle. Otherwise the output switches to the
    /// source's application when it differs from the current one
    /// (reconnecting), then sends the presence derived from the activity.
    pub fn publish_activity(&mut self, source: &str, activity: &Activity) -> (r: Result<(), OutputError>)
        ensures
            final(self).spec_calls() == old(self).spec_calls(),
            final(self).spec_default_app_id() == old(self).spec_default_app_id(),
            final(self).spec_app_ids() == old(self).spec_app_ids(),
            ({
                let id = resolved_app_id(old(self).spec_default_app_id(), old(self).spec_app_ids(), source@);
                &&& id == 0 ==> r is Ok && !final(self).spec_has_client()
                    && final(self).spec_current_app_id() is None
                &&& id != 0 ==> final(self).spec_current_app_id() == Some(id)
                &&& id != 0 && final(self).spec_has_client() ==> final(self).spec_client_app_id() == Some(
                    if old(self).spec_current_app_id() == Some(id) && old(self).spec_has_client() {
                        old(self).spec_client_app_id()->0
                    } else {
                        id
                    },
                )
                &&& r is Err ==> !final(self).spec_has_client()
            }),
    {
        let resolved = self.resolve_app_id(source);
        if resolved == 0 {
            self.drop_client();
            self.current_app_id = None;
            return Ok(());
        }
        let same = match self.current_app_id {
            Some(id) => id == resolved,
            None => false,
        };
        if !same {
            self.drop_client();
            self.current_app_id = Some(resolved);
        }
        match self.ensure_client() {
            Ok(()) => {},
            Err(e) => {
                return Err(e);
            },
        }
        let presence = RichPresence::from_activity(activity);
        self.set_presence(&presence)
    }

    /// Clears the presence on Discord and drops the connection; with no
    /// client there is nothing to clear.
    pub fn clear_presence(&mut self)
        ensures
            final(self).spec_calls() == old(self).spec_calls(),
            !final(self).spec_has_client(),
            final(self).spec_current_app_id() == old(self).spec_current_app_id(),
            final(self).spec_default_app_id() == old(self).spec_default_app_id(),
            final(self).spec_app_ids() == old(self).spec_app_ids(),
    {
        match &mut self.client {
            Some(client) => {
                let _ = client.clear_activity();
            },
            None => {
                return;
            },
        }
        self.drop_client();
    }
}

impl<C: DiscordIpc + Send> Output for DiscordOutput<C> {
    closed spec fn received(&self) -> Seq<OutputCall> {
        self.calls@
    }

    /// Publishes as [`DiscordOutput::publish_activity`] does.
    fn publish(&mut self, source: &str, activity: &Activity) -> (r: Result<(), OutputError>)
        ensures
            final(self).spec_default_app_id() == old(self).spec_default_app_id(),
            final(self).spec_app_ids() == old(self).spec_app_ids(),
            ({
                let id = resolved_app_id(old(self).spec_default_app_id(), old(self).spec_app_ids(), source@);
                &&& id == 0 ==> r is Ok && !final(self).spec_has_client()
                    && final(self).spec_current_app_id() is None
                &&& id != 0 ==> final(self).spec_current_app_id() == Some(id)
                &&& id != 0 && final(self).spec_has_client() ==> final(self).spec_client_app_id() == Some(
                    if old(self).spec_current_app_id() == Some(id) && old(self).spec_has_client() {
                        old(self).spec_client_app_id()->0
                    } else {
                        id
                    },
                )
                &&& r is Err ==> !final(self).spec_has_client()
            }),
    {
        let r = self.publish_activity(source, activity);
        self.calls = Ghost(self.calls@.push(OutputCall::Publish(source@, activity@, r)));
        r
    }

    /// Clears as [`DiscordOutput::clear_presence`] does.
    fn clear(&mut self)
        ensures
            !final(self).spec_has_client(),
            final(self).spec_current_app_id() == old(self).spec_current_app_id(),
            final(self).spec_default_app_id() == old(self).spec_default_app_id(),
            final(self).spec_app_ids() == old(self).spec_app_ids(),
    {
        self.clear_presence();
        self.calls = Ghost(self.calls@.push(OutputCall::Clear));
    }

    /// Always known: whether the client is connected.
    closed spec fn connection(&self) -> Option<bool> {
        Some(self.spec_connected())
    }

    /// Always known: whether the client is connected.
    fn connection_state(&self) -> (r: Option<bool>)
        ensures
            r == Some(self.spec_connected()),
    {
        Some(self.is_connected())
    }
}

} // verus!
