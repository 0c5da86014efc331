use std::collections::VecDeque;

use presencehub::activity::{Activity, ActivityTimestamps, Metadata};
use presencehub::discord::{ClientError, DiscordClient, DiscordIpc, DiscordOutput};
use presencehub::output::{Output, PresenceEngine};
use presencehub::presence::RichPresence;
use presencehub::protocol::{CommandEnvelope, Frame, HandshakeMessage, Opcode, ReadyMessage};
use presencehub::render::to_activity_data;
use presencehub::strmap::StringMap;
use presencehub::console::ConsoleOutput;

fn ready_from_json(payload: &[u8]) -> Result<ReadyMessage, String> {
    let value: serde_json::Value = serde_json::from_slice(payload).map_err(|e| e.to_string())?;
    let cmd = value.get("cmd").and_then(|v| v.as_str()).ok_or("missing field `cmd`")?;
    let evt = value.get("evt").and_then(|v| v.as_str()).ok_or("missing field `evt`")?;
    Ok(ReadyMessage { cmd: cmd.to_string(), evt: evt.to_string() })
}

fn ready_frame() -> Frame {
    Frame::new(Opcode::Frame, br#"{"cmd":"DISPATCH","data":{"v":1},"evt":"READY","nonce":null}"#.to_vec())
}

/// A pipe with no Discord on the other side.
struct OfflinePipe;

impl DiscordIpc for OfflinePipe {
    fn disconnects(&self) -> presencehub::discord::DisconnectCount {
        unreachable!("the count of disconnects is a proof-time notion")
    }

    fn open() -> Self {
        OfflinePipe
    }
    fn connect(&mut self) -> Result<(), String> {
        Err("No Discord IPC pipe found".to_string())
    }
    fn disconnect(&mut self) {}
    fn write_frame(&mut self, _frame: &Frame) -> Result<(), String> {
        Err("disconnected".to_string())
    }
    fn read_frame(&mut self) -> Result<Frame, String> {
        Err("disconnected".to_string())
    }
    fn try_read_frame(&mut self) -> Result<Option<Frame>, String> {
        Err("disconnected".to_string())
    }
    fn encode_handshake(&self, m: &HandshakeMessage) -> Result<Vec<u8>, String> {
        Ok(format!("{{\"v\":{},\"client_id\":\"{}\"}}", m.version, m.client_id).into_bytes())
    }
    fn encode_command(&self, e: &CommandEnvelope) -> Result<Vec<u8>, String> {
        Ok(format!("{{\"cmd\":\"{}\",\"nonce\":\"{}\"}}", e.cmd, e.nonce).into_bytes())
    }
    fn decode_ready(&self, payload: &[u8]) -> Result<ReadyMessage, String> {
        ready_from_json(payload)
    }
    fn process_id(&self) -> u32 {
        1234
    }
}

/// A pipe to a Discord that accepts the handshake and every command, and
/// records what was written.
struct ScriptedPipe {
    connected: bool,
    incoming: VecDeque<Frame>,
    written: Vec<Frame>,
    fail_writes: bool,
}

impl DiscordIpc for ScriptedPipe {
    fn disconnects(&self) -> presencehub::discord::DisconnectCount {
        unreachable!("the count of disconnects is a proof-time notion")
    }

    fn open() -> Self {
        ScriptedPipe { connected: false, incoming: VecDeque::new(), written: Vec::new(), fail_writes: false }
    }
    fn connect(&mut self) -> Result<(), String> {
        self.connected = true;
        Ok(())
    }
    fn disconnect(&mut self) {
        self.connected = false;
    }
    fn write_frame(&mut self, frame: &Frame) -> Result<(), String> {
        if self.fail_writes || !self.connected {
            return Err("write failed".to_string());
        }
        self.written.push(Frame::new(frame.opcode, frame.payload.clone()));
        Ok(())
    }
    fn read_frame(&mut self) -> Result<Frame, String> {
        Ok(ready_frame())
    }
    fn try_read_frame(&mut self) -> Result<Option<Frame>, String> {
        if !self.connected {
            return Err("disconnected".to_string());
        }
        Ok(self.incoming.pop_front())
    }
    fn encode_handshake(&self, m: &HandshakeMessage) -> Result<Vec<u8>, String> {
        Ok(format!("{{\"v\":{},\"client_id\":\"{}\"}}", m.version, m.client_id).into_bytes())
    }
    fn encode_command(&self, e: &CommandEnvelope) -> Result<Vec<u8>, String> {
        let with_activity = e.args.activity.is_some();
        Ok(format!("{{\"cmd\":\"{}\",\"nonce\":\"{}\",\"activity\":{}}}", e.cmd, e.nonce, with_activity).into_bytes())
    }
    fn decode_ready(&self, payload: &[u8]) -> Result<ReadyMessage, String> {
        ready_from_json(payload)
    }
    fn process_id(&self) -> u32 {
        1234
    }
}

fn test_activity(state: &str) -> Activity {
    Activity { state: state.to_string(), details: None, timestamps: None, application: None, metadata: Metadata::new() }
}

fn per_source_app_ids() -> StringMap<u64> {
    let mut m = StringMap::new();
    m.insert("Antigravity".to_string(), 200);
    m.insert("FL Studio".to_string(), 300);
    m
}

#[test]
fn discord_output_activity_mapping() {
    let mut metadata = Metadata::new();
    metadata.insert("application".to_string(), "FL Studio".to_string());
    metadata.insert("version".to_string(), "21".to_string());
    let activity = Activity {
        state: "Editing".to_string(),
        details: Some("Project: song.flp*".to_string()),
        timestamps: Some(ActivityTimestamps { start: Some(1000), end: Some(2000) }),
        metadata,
        application: None,
    };
    let presence = RichPresence::from(&activity);
    let data = to_activity_data(&presence);
    assert_eq!(data.state, "Editing");
    assert_eq!(data.details, Some("Project: song.flp*".to_string()));
    assert_eq!(data.timestamps.as_ref().unwrap().start, Some(1000));
    assert_eq!(data.timestamps.as_ref().unwrap().end, Some(2000));
    assert_eq!(data.assets.as_ref().unwrap().large_text, Some("FL Studio".to_string()));
    assert_eq!(data.assets.as_ref().unwrap().small_text, Some("21".to_string()));
    assert_eq!(data.assets.as_ref().unwrap().large_image, Some("flstudio".to_string()));
}

#[test]
fn discord_output_receives_session_start_timestamp() {
    let session_start_epoch: i64 = 1_700_000_000;
    let activity = Activity {
        state: "Editing".to_string(),
        details: Some("Project: Horizon.flp".to_string()),
        timestamps: Some(ActivityTimestamps { start: Some(session_start_epoch), end: None }),
        metadata: {
            let mut m = Metadata::new();
            m.insert("application".to_string(), "FL Studio".to_string());
            m
        },
        application: None,
    };
    let presence = RichPresence::from(&activity);
    let data = to_activity_data(&presence);
    assert_eq!(
        data.timestamps.as_ref().unwrap().start,
        Some(session_start_epoch),
        "Discord must receive the session start timestamp"
    );
    assert!(data.timestamps.as_ref().unwrap().end.is_none());
}

#[test]
fn discord_output_large_image_slug() {
    let app = "FL Studio";
    let slug = presencehub::presence::slug_of(app);
    assert_eq!(slug, "flstudio");
}

#[test]
fn discord_output_implements_output_trait() {
    fn takes_output(_output: Box<dyn Output>) {}
    takes_output(Box::new(DiscordOutput::<OfflinePipe>::new(123456789, StringMap::new())));
}

#[test]
fn discord_output_creation() {
    let output = DiscordOutput::<OfflinePipe>::new(123456789, StringMap::new());
    assert!(!output.is_connected());
}

#[test]
fn discord_output_publish_fails_when_discord_not_running() {
    let mut output = DiscordOutput::<OfflinePipe>::new(123456789, StringMap::new());
    let result = output.publish("FL Studio", &test_activity("Editing"));
    assert!(result.is_err());
    assert!(!output.has_client());
    assert_eq!(
        result.unwrap_err().message(),
        "Output failed to publish activity: Discord connection failed: transport error: No Discord IPC pipe found"
    );
}

#[test]
fn discord_output_publish_succeeds_when_discord_running() {
    let mut output = DiscordOutput::<ScriptedPipe>::new(1533559059125637311, StringMap::new());
    assert!(output.publish("FL Studio", &test_activity("Editing")).is_ok());
    assert!(output.is_connected());
    assert_eq!(output.client_app_id(), Some(1533559059125637311));
}

#[test]
fn discord_output_clear_when_not_connected_is_noop() {
    let mut output = DiscordOutput::<OfflinePipe>::new(123456789, StringMap::new());
    output.clear();
    assert!(!output.has_client());
}

#[test]
fn clear_drops_connected_client_after_clearing() {
    let mut output = DiscordOutput::<ScriptedPipe>::new(123456789, StringMap::new());
    output.publish("FL Studio", &test_activity("Editing")).unwrap();
    assert!(output.has_client());
    output.clear();
    assert!(!output.has_client(), "clear() must drop the client after sending the activity clear");
    assert_eq!(output.current_app_id(), Some(123456789));
    output.clear();
    assert!(!output.has_client());
}

#[test]
fn resolve_app_id_uses_source_map_then_default() {
    let output = DiscordOutput::<OfflinePipe>::new(100, per_source_app_ids());
    assert_eq!(output.resolve_app_id("Antigravity"), 200);
    assert_eq!(output.resolve_app_id("FL Studio"), 300);
    assert_eq!(output.resolve_app_id("Unknown Source"), 100);
}

#[test]
fn resolve_app_id_falls_back_to_default_without_map() {
    let output = DiscordOutput::<OfflinePipe>::new(1533559059125637311, StringMap::new());
    assert_eq!(output.resolve_app_id("Antigravity"), 1533559059125637311);
    assert_eq!(output.resolve_app_id("FL Studio"), 1533559059125637311);
}

#[test]
fn publish_resolves_zero_app_id_to_noop() {
    let mut output = DiscordOutput::<OfflinePipe>::new(0, StringMap::new());
    let result = output.publish("Unknown Source", &test_activity("Idle"));
    assert!(result.is_ok(), "zero app id must no-op, not fail");
    assert!(!output.has_client());
    assert_eq!(output.current_app_id(), None);
}

#[test]
fn publish_resolves_per_source_app_id_while_connected() {
    let mut output = DiscordOutput::<OfflinePipe>::new(100, per_source_app_ids());
    let _ = output.publish("Antigravity", &test_activity("Coding"));
    assert_eq!(output.current_app_id(), Some(200));
}

#[test]
fn publish_switches_app_id_antigravity_to_flstudio() {
    let mut output = DiscordOutput::<ScriptedPipe>::new(100, per_source_app_ids());
    output.publish("Antigravity", &test_activity("Coding")).unwrap();
    assert_eq!(output.client_app_id(), Some(200));
    output.publish("FL Studio", &test_activity("Editing")).unwrap();
    assert_eq!(output.current_app_id(), Some(300));
    assert_eq!(output.client_app_id(), Some(300), "a new client for the new application");
}

#[test]
fn publish_repeated_same_source_keeps_app_id() {
    let mut output = DiscordOutput::<OfflinePipe>::new(100, per_source_app_ids());
    let _ = output.publish("Antigravity", &test_activity("Coding"));
    assert_eq!(output.current_app_id(), Some(200));
    let _ = output.publish("Antigravity", &test_activity("Coding 2"));
    assert_eq!(output.current_app_id(), Some(200));
}

#[test]
fn publish_switch_while_disconnected_uses_new_sources_app_id() {
    let mut output = DiscordOutput::<OfflinePipe>::new(100, per_source_app_ids());
    let _ = output.publish("Antigravity", &test_activity("Coding"));
    assert_eq!(output.current_app_id(), Some(200));
    assert!(!output.has_client());
    let _ = output.publish("FL Studio", &test_activity("Editing"));
    assert_eq!(output.current_app_id(), Some(300));
    assert!(!output.has_client());
}

#[test]
fn client_initial_state() {
    let client = DiscordClient::<OfflinePipe>::new(123456789);
    assert!(!client.is_connected());
    assert_eq!(client.application_id(), 123456789);
}

#[test]
fn client_connect_fails_when_discord_not_running() {
    let mut client = DiscordClient::<OfflinePipe>::new(123456789);
    assert!(matches!(client.connect(), Err(ClientError::Transport(_))));
    assert!(!client.is_connected());
}

#[test]
fn client_connect_succeeds_when_discord_running() {
    let mut client = DiscordClient::<ScriptedPipe>::new(1533559059125637311);
    assert!(client.connect().is_ok());
    assert!(client.is_connected());
    let first = &client.channel().written[0];
    assert_eq!(first.opcode, Opcode::Handshake);
    assert_eq!(first.payload, br#"{"v":1,"client_id":"1533559059125637311"}"#.to_vec());
    client.disconnect();
    assert!(!client.is_connected());
}

#[test]
fn handshake_response_accepts_ready_dispatch() {
    let mut client = DiscordClient::<OfflinePipe>::new(123456789);
    let result = client.handle_handshake_response(ready_frame());
    assert!(result.is_ok());
    assert!(client.is_connected());
}

#[test]
fn handshake_response_rejects_close() {
    let mut client = DiscordClient::<OfflinePipe>::new(123456789);
    let frame = Frame::new(Opcode::Close, br#"{"code":4000,"message":"invalid client id"}"#.to_vec());
    let result = client.handle_handshake_response(frame);
    assert_eq!(result.unwrap_err().message(), "handshake failed: Discord rejected handshake");
    assert!(!client.is_connected());
}

#[test]
fn handshake_response_rejects_non_ready_dispatch() {
    let mut client = DiscordClient::<OfflinePipe>::new(123456789);
    let payload = br#"{"cmd":"DISPATCH","evt":"ERROR","data":{"code":4000}}"#.to_vec();
    let result = client.handle_handshake_response(Frame::new(Opcode::Frame, payload));
    assert_eq!(
        result.unwrap_err().message(),
        "handshake failed: Unexpected handshake response: cmd=DISPATCH, evt=ERROR"
    );
    assert!(!client.is_connected());
}

#[test]
fn handshake_response_rejects_unexpected_opcode() {
    let mut client = DiscordClient::<OfflinePipe>::new(123456789);
    let result = client.handle_handshake_response(Frame::new(Opcode::Ping, vec![]));
    assert_eq!(result.unwrap_err().message(), "handshake failed: Unexpected opcode during handshake: Ping");
    assert!(!client.is_connected());
}

#[test]
fn handshake_response_rejects_unparseable_payload() {
    let mut client = DiscordClient::<OfflinePipe>::new(123456789);
    let result = client.handle_handshake_response(Frame::new(Opcode::Frame, b"not json".to_vec()));
    assert!(result.is_err());
    assert!(result.unwrap_err().message().starts_with("handshake failed: Invalid READY payload: "));
    assert!(!client.is_connected());
}

#[test]
fn clear_activity_when_not_connected_is_noop() {
    let mut client = DiscordClient::<OfflinePipe>::new(123456789);
    assert!(client.clear_activity().is_ok());
}

#[test]
fn handle_incoming_close_disconnects() {
    let mut client = DiscordClient::<ScriptedPipe>::new(1);
    client.connect().unwrap();
    assert!(!client.handle_incoming_frame(Frame::new(Opcode::Close, vec![])));
    assert!(!client.is_connected());
}

#[test]
fn handle_incoming_dispatch_keeps_connection() {
    let mut client = DiscordClient::<ScriptedPipe>::new(1);
    client.connect().unwrap();
    assert!(client.handle_incoming_frame(Frame::new(Opcode::Frame, b"{}".to_vec())));
    assert!(client.is_connected());
}

#[test]
fn handle_incoming_ping_when_disconnected_degrades_safely() {
    let mut client = DiscordClient::<OfflinePipe>::new(1);
    assert!(!client.handle_incoming_frame(Frame::new(Opcode::Ping, vec![])));
    assert!(!client.is_connected());
}

#[test]
fn drain_incoming_without_connection_is_noop() {
    let mut client = DiscordClient::<OfflinePipe>::new(1);
    client.drain_incoming();
    assert!(!client.is_connected());
}

#[test]
fn drain_answers_ping_then_honours_close() {
    let mut pipe = ScriptedPipe::open();
    pipe.incoming.push_back(Frame::new(Opcode::Ping, vec![]));
    pipe.incoming.push_back(Frame::new(Opcode::Close, vec![]));
    pipe.incoming.push_back(Frame::new(Opcode::Ping, vec![]));
    let mut client = DiscordClient::with_channel(pipe, 1);
    client.connect().unwrap();
    assert!(!client.is_connected(), "the queued close ends the connection");
    let pongs = client.channel().written.iter().filter(|f| f.opcode == Opcode::Pong).count();
    assert_eq!(pongs, 1);
    assert_eq!(client.channel().incoming.len(), 1, "frames after the close stay unread");
}

#[test]
fn set_activity_sends_numbered_commands() {
    let mut client = DiscordClient::<ScriptedPipe>::new(7);
    let presence = RichPresence::builder().state("Editing").build();
    client.set_activity(to_activity_data(&presence)).unwrap();
    client.set_activity(to_activity_data(&presence)).unwrap();
    client.clear_activity().unwrap();
    let commands: Vec<String> = client
        .channel()
        .written
        .iter()
        .filter(|f| f.opcode == Opcode::Frame)
        .map(|f| String::from_utf8(f.payload.clone()).unwrap())
        .collect();
    assert_eq!(
        commands,
        vec![
            r#"{"cmd":"SET_ACTIVITY","nonce":"presencehub-1","activity":true}"#.to_string(),
            r#"{"cmd":"SET_ACTIVITY","nonce":"presencehub-2","activity":true}"#.to_string(),
            r#"{"cmd":"SET_ACTIVITY","nonce":"presencehub-3","activity":false}"#.to_string(),
        ]
    );
}

#[test]
fn set_activity_reconnects_once_when_the_write_fails() {
    let mut pipe = ScriptedPipe::open();
    pipe.fail_writes = true;
    let mut client = DiscordClient::with_channel(pipe, 7);
    let presence = RichPresence::builder().state("Editing").build();
    let result = client.set_activity(to_activity_data(&presence));
    assert!(matches!(result, Err(ClientError::Transport(_))));
}

#[test]
fn runtime_pipeline_multiple_outputs() {
    let mut engine = PresenceEngine::new();
    engine.register_output(Box::new(ConsoleOutput::new()));
    engine.register_output(Box::new(DiscordOutput::<OfflinePipe>::new(123456789, StringMap::new())));
    let activity = Activity {
        state: "Editing".to_string(),
        details: Some("Project: song.flp".to_string()),
        timestamps: None,
        metadata: {
            let mut m = Metadata::new();
            m.insert("application".to_string(), "FL Studio".to_string());
            m.insert("version".to_string(), "21".to_string());
            m
        },
        application: None,
    };
    let errors = engine.update("FL Studio", &activity);
    assert_eq!(errors.len(), 1);
    assert_eq!(errors[0].0, 1);
    let current = engine.current_activity().unwrap();
    assert_eq!(current.state, "Editing");
    assert_eq!(current.details, Some("Project: song.flp".to_string()));
    assert!(current.timestamps.as_ref().unwrap().start.is_some());
}

#[test]
fn clear_is_idempotent_when_called_twice() {
    let mut output = DiscordOutput::<ScriptedPipe>::new(123456789, StringMap::new());
    output.publish("FL Studio", &test_activity("Editing")).unwrap();
    output.clear();
    output.clear();
    assert!(!output.has_client());
    assert_eq!(output.current_app_id(), Some(123456789));
}

#[test]
fn publish_switches_app_id_flstudio_to_antigravity() {
    let mut output = DiscordOutput::<OfflinePipe>::new(100, per_source_app_ids());
    let _ = output.publish("FL Studio", &test_activity("Editing"));
    assert_eq!(output.current_app_id(), Some(300));
    let _ = output.publish("Antigravity", &test_activity("Coding"));
    assert!(!output.has_client(), "old client must be dropped when the application switches");
    assert_eq!(output.current_app_id(), Some(200), "new application ID selected");
}

#[test]
fn publish_repeated_same_source_keeps_single_connection_when_discord_running() {
    let mut output = DiscordOutput::<ScriptedPipe>::new(1533559059125637311, StringMap::new());
    assert!(output.publish("FL Studio", &test_activity("Editing")).is_ok());
    assert!(output.is_connected());
    assert!(output.publish("FL Studio", &test_activity("Editing 2")).is_ok());
    assert!(output.is_connected());
    assert_eq!(output.client_app_id(), Some(1533559059125637311));
    assert_eq!(output.current_app_id(), Some(1533559059125637311));
}

#[test]
fn publish_failure_drops_client_and_keeps_app_id() {
    let mut output = DiscordOutput::<OfflinePipe>::new(100, per_source_app_ids());
    let result = output.publish("Antigravity", &test_activity("Coding"));
    assert!(result.is_err(), "publish without a live Discord must fail");
    assert!(!output.has_client(), "failed publish drops the client");
    assert_eq!(output.current_app_id(), Some(200));
    let _ = output.publish("Antigravity", &test_activity("Coding 2"));
    assert_eq!(output.current_app_id(), Some(200));
}

/// A pipe whose inbound queue and outbound record the test keeps handles
/// to, so frames can arrive after the handshake.
struct SharedPipe {
    connected: bool,
    incoming: std::sync::Arc<std::sync::Mutex<VecDeque<Result<Frame, String>>>>,
    written: std::sync::Arc<std::sync::Mutex<Vec<Frame>>>,
}

impl DiscordIpc for SharedPipe {
    fn disconnects(&self) -> presencehub::discord::DisconnectCount {
        unreachable!("the count of disconnects is a proof-time notion")
    }

    fn open() -> Self {
        SharedPipe { connected: false, incoming: Default::default(), written: Default::default() }
    }
    fn connect(&mut self) -> Result<(), String> {
        self.connected = true;
        Ok(())
    }
    fn disconnect(&mut self) {
        self.connected = false;
    }
    fn write_frame(&mut self, frame: &Frame) -> Result<(), String> {
        if !self.connected {
            return Err("disconnected".to_string());
        }
        self.written.lock().unwrap().push(Frame::new(frame.opcode, frame.payload.clone()));
        Ok(())
    }
    fn read_frame(&mut self) -> Result<Frame, String> {
        Ok(ready_frame())
    }
    fn try_read_frame(&mut self) -> Result<Option<Frame>, String> {
        if !self.connected {
            return Err("disconnected".to_string());
        }
        match self.incoming.lock().unwrap().pop_front() {
            Some(Ok(frame)) => Ok(Some(frame)),
            Some(Err(e)) => Err(e),
            None => Ok(None),
        }
    }
    fn encode_handshake(&self, m: &HandshakeMessage) -> Result<Vec<u8>, String> {
        Ok(format!("{{\"v\":{},\"client_id\":\"{}\"}}", m.version, m.client_id).into_bytes())
    }
    fn encode_command(&self, e: &CommandEnvelope) -> Result<Vec<u8>, String> {
        let activity = if e.args.activity.is_some() { "{}" } else { "null" };
        Ok(format!("{{\"cmd\":\"{}\",\"args\":{{\"activity\":{}}}}}", e.cmd, activity).into_bytes())
    }
    fn decode_ready(&self, payload: &[u8]) -> Result<ReadyMessage, String> {
        ready_from_json(payload)
    }
    fn process_id(&self) -> u32 {
        1234
    }
}

/// A connected client over a shared pipe, with the pipe's handles.
fn connected_client(
    id: u64,
) -> (
    DiscordClient<SharedPipe>,
    std::sync::Arc<std::sync::Mutex<VecDeque<Result<Frame, String>>>>,
    std::sync::Arc<std::sync::Mutex<Vec<Frame>>>,
) {
    let pipe = SharedPipe::open();
    let incoming = pipe.incoming.clone();
    let written = pipe.written.clone();
    let mut client = DiscordClient::with_channel(pipe, id);
    client.connect().unwrap();
    written.lock().unwrap().clear();
    (client, incoming, written)
}

#[test]
fn clear_activity_sends_set_activity_with_null_activity() {
    let (mut client, _incoming, written) = connected_client(1533559059125637311);
    client.clear_activity().expect("clear should succeed");
    let frames = written.lock().unwrap();
    assert_eq!(frames.len(), 1);
    assert_eq!(frames[0].opcode, Opcode::Frame, "SET_ACTIVITY must be sent as an opcode-1 Frame");
    let payload: serde_json::Value = serde_json::from_slice(&frames[0].payload).expect("envelope must be JSON");
    assert_eq!(payload["cmd"], "SET_ACTIVITY");
    assert!(payload["args"]["activity"].is_null(), "clear must send activity: null; got {:?}", payload);
}

#[test]
fn drain_answers_ping_with_pong() {
    let (mut client, incoming, written) = connected_client(123456789);
    incoming.lock().unwrap().push_back(Ok(Frame::new(Opcode::Ping, vec![])));
    client.drain_incoming();
    let frames = written.lock().unwrap();
    assert_eq!(frames[0].opcode, Opcode::Pong, "PING must be answered with PONG");
    assert!(client.is_connected(), "connection stays alive after PONG");
}

#[test]
fn drain_disconnects_on_close() {
    let (mut client, incoming, _written) = connected_client(123456789);
    incoming.lock().unwrap().push_back(Ok(Frame::new(Opcode::Close, br#"{"code":4000}"#.to_vec())));
    client.drain_incoming();
    assert!(!client.is_connected(), "CLOSE must mark the client disconnected");
}

#[test]
fn drain_consumes_stacked_ping_then_close() {
    let (mut client, incoming, written) = connected_client(123456789);
    incoming.lock().unwrap().push_back(Ok(Frame::new(Opcode::Ping, vec![])));
    incoming.lock().unwrap().push_back(Ok(Frame::new(Opcode::Close, vec![])));
    client.drain_incoming();
    assert_eq!(written.lock().unwrap()[0].opcode, Opcode::Pong, "PING answered before CLOSE processed");
    assert!(!client.is_connected(), "CLOSE observed after the PONG");
}

#[test]
fn drain_rejects_oversized_frame_and_disconnects() {
    let (mut client, incoming, _written) = connected_client(123456789);
    incoming.lock().unwrap().push_back(Err("frame payload too large".to_string()));
    client.drain_incoming();
    assert!(!client.is_connected(), "an oversized inbound frame must disconnect the client");
}

#[test]
fn refused_handshake_closes_the_pipe() {
    let mut client = DiscordClient::<ScriptedPipe>::new(123456789);
    assert!(client.connect().is_ok());
    assert!(client.channel().connected);
    let result = client.handle_handshake_response(Frame::new(Opcode::Ping, vec![]));
    assert!(matches!(result, Err(ClientError::HandshakeFailed(_))));
    assert!(!client.is_connected());
    assert!(!client.channel().connected, "a refused handshake closes the pipe");
}

#[test]
fn accepted_handshake_keeps_the_pipe_open() {
    let mut client = DiscordClient::<ScriptedPipe>::new(123456789);
    assert!(client.connect().is_ok());
    assert!(client.handle_handshake_response(ready_frame()).is_ok());
    assert!(client.channel().connected);
}
