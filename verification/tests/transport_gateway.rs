//! Gateway core: send budget, session state, identify/resume, close codes,
//! reconnect policy, and the read-loop step.

use hello_discord::events::{DispatchData, DispatchKind, GatewayEvent, GatewayPayload};
use hello_discord::events::{dispatch_kind, hello_heartbeat_interval, HelloError};
use hello_discord::gateway::{
    backoff_delay, close_code_outcome, close_frame_outcome, gateway_url, handle_payload,
    heartbeat_frame, initial_heartbeat_delay, next_auth_frame, reconnect_policy, AuthFrame,
    DisconnectReason, DriverStep, GatewayConfig, ReadAction, SendRateLimiter, SessionState,
};
use hello_discord::types::id::Id;
use hello_discord::types::marker::ApplicationMarker;
use hello_discord::types::{ReadyApplication, ReadyEvent, User};

fn test_user() -> User {
    User {
        id: Id::new(789),
        name: "bot".to_string(),
        discriminator: 0,
        avatar: None,
        bot: true,
        global_name: None,
    }
}

fn ready_event(session_id: &str, resume_url: &str) -> ReadyEvent {
    ReadyEvent {
        v: 10,
        user: test_user(),
        session_id: session_id.to_string(),
        resume_gateway_url: resume_url.to_string(),
        guilds: Vec::new(),
        application: ReadyApplication { id: Id::<ApplicationMarker>::new(42), flags: None },
    }
}

fn config() -> GatewayConfig {
    GatewayConfig { token: "token".to_string(), intents: 33539, shard: None }
}

// ---------------------------------------------------------------------------
// Send budget
// ---------------------------------------------------------------------------

#[test]
fn send_budget_allows_up_to_capacity() {
    let mut rl = SendRateLimiter::new(3, 60_000);
    for _ in 0..3 {
        assert_eq!(rl.delay(1000), None);
        rl.record(1000);
    }
    // window full: the fourth send must wait until the oldest ages out
    assert_eq!(rl.delay(1000), Some(60_000));
    assert_eq!(rl.delay(31_000), Some(30_000));
}

#[test]
fn send_budget_window_reopens() {
    let mut rl = SendRateLimiter::new(2, 60_000);
    rl.record(0);
    rl.record(0);
    assert!(rl.delay(59_999).is_some());
    assert_eq!(rl.delay(60_000), None);
    rl.record(60_000);
    assert_eq!(rl.delay(60_000), None);
}

// ---------------------------------------------------------------------------
// Session state and sequence monotonicity
// ---------------------------------------------------------------------------

#[test]
fn sequence_never_decreases() {
    let mut s = SessionState::new();
    s.note_sequence(5);
    assert_eq!(s.sequence, Some(5));
    s.note_sequence(3);
    assert_eq!(s.sequence, Some(5));
    s.note_sequence(9);
    assert_eq!(s.sequence, Some(9));
}

#[test]
fn invalidate_clears_session_but_keeps_resume_url() {
    let mut s = SessionState::new();
    s.note_ready("S".to_string(), "wss://rx.example/?v=10".to_string());
    s.note_sequence(1);
    s.invalidate();
    assert!(s.session_id.is_none());
    assert!(s.sequence.is_none());
    assert_eq!(s.resume_gateway_url.as_deref(), Some("wss://rx.example/?v=10"));
}

// ---------------------------------------------------------------------------
// Identify / resume decision
// ---------------------------------------------------------------------------

#[test]
fn resume_iff_session_present() {
    let mut s = SessionState::new();
    assert!(matches!(next_auth_frame(&s, &config()), AuthFrame::Identify { .. }));
    s.note_ready("S".to_string(), "wss://rx.example/?v=10".to_string());
    // session id alone is not enough
    assert!(matches!(next_auth_frame(&s, &config()), AuthFrame::Identify { .. }));
    s.note_sequence(1);
    match next_auth_frame(&s, &config()) {
        AuthFrame::Resume { token, session_id, seq } => {
            assert_eq!(token, "token");
            assert_eq!(session_id, "S");
            assert_eq!(seq, 1);
        }
        other => panic!("expected RESUME, got {:?}", matches!(other, AuthFrame::Identify { .. })),
    }
}

#[test]
fn fresh_identify_then_resume_uses_ready_identity() {
    // start with empty session state, identify, receive READY, reconnect
    let mut s = SessionState::new();
    assert!(matches!(next_auth_frame(&s, &config()), AuthFrame::Identify { .. }));
    let payload = GatewayPayload { op: 0, d: None, s: Some(1), t: Some("READY".to_string()) };
    let dispatch = DispatchData::Ready(ready_event("S", "wss://rx.example/?v=10"));
    let action = handle_payload(&mut s, payload, dispatch);
    assert!(matches!(action, ReadAction::Forward(GatewayEvent::Ready(_))));
    assert_eq!(gateway_url(&s.resume_gateway_url), "wss://rx.example/?v=10");
    match next_auth_frame(&s, &config()) {
        AuthFrame::Resume { session_id, seq, .. } => {
            assert_eq!(session_id, "S");
            assert_eq!(seq, 1);
        }
        _ => panic!("expected RESUME after READY"),
    }
}

// ---------------------------------------------------------------------------
// Gateway URL
// ---------------------------------------------------------------------------

#[test]
fn gateway_url_default_when_no_resume_url() {
    assert_eq!(gateway_url(&None), "wss://gateway.discord.gg/?v=10&encoding=json");
}

#[test]
fn gateway_url_appends_query_parameters_when_absent() {
    let bare = Some("wss://rx.example".to_string());
    assert_eq!(gateway_url(&bare), "wss://rx.example?v=10&encoding=json");
    let with_query = Some("wss://rx.example?a=1".to_string());
    assert_eq!(gateway_url(&with_query), "wss://rx.example?a=1&v=10&encoding=json");
    let already = Some("wss://rx.example/?v=10&encoding=json".to_string());
    assert_eq!(gateway_url(&already), "wss://rx.example/?v=10&encoding=json");
}

// ---------------------------------------------------------------------------
// Close-code policy
// ---------------------------------------------------------------------------

#[test]
fn close_codes_map_to_outcomes() {
    for fatal in [4004u16, 4010, 4011, 4012, 4013, 4014] {
        assert!(matches!(close_code_outcome(fatal), DisconnectReason::Fatal));
    }
    for reid in [4007u16, 4009] {
        assert!(matches!(close_code_outcome(reid), DisconnectReason::ShouldReidentify));
    }
    for resume in [1000u16, 4000, 4008, 4015] {
        assert!(matches!(close_code_outcome(resume), DisconnectReason::ShouldResume));
    }
    assert!(matches!(close_frame_outcome(None), DisconnectReason::ShouldResume));
}

#[test]
fn fatal_auth_terminates_without_consulting_the_counter() {
    // server closes with 4004: the driver stops even with a fresh counter
    let reason = close_code_outcome(4004);
    let mut s = SessionState::new();
    s.note_ready("S".to_string(), "wss://rx.example".to_string());
    s.note_sequence(7);
    let step = reconnect_policy(&reason, 0, 1000, &mut s);
    assert!(matches!(step, DriverStep::Terminate));
    // the session was not touched
    assert_eq!(s.session_id.as_deref(), Some("S"));
    assert_eq!(s.sequence, Some(7));
}

// ---------------------------------------------------------------------------
// Reconnect policy and back-off
// ---------------------------------------------------------------------------

#[test]
fn reconnect_backs_off_and_gives_up_after_eight_attempts() {
    let mut s = SessionState::new();
    match reconnect_policy(&DisconnectReason::ShouldResume, 0, 1000, &mut s) {
        DriverStep::Reconnect { delay_ms, attempts } => {
            assert_eq!(attempts, 1);
            assert_eq!(delay_ms, 2000);
        }
        _ => panic!("expected a reconnect"),
    }
    let step = reconnect_policy(&DisconnectReason::ShouldResume, 8, 1000, &mut s);
    assert!(matches!(step, DriverStep::Terminate));
}

#[test]
fn reidentify_outcome_clears_the_session() {
    let mut s = SessionState::new();
    s.note_ready("S".to_string(), "wss://rx.example".to_string());
    s.note_sequence(3);
    match reconnect_policy(&DisconnectReason::ShouldReidentify, 0, 1000, &mut s) {
        DriverStep::Reconnect { .. } => {}
        _ => panic!("expected a reconnect"),
    }
    assert!(s.session_id.is_none());
    assert!(s.sequence.is_none());
    assert!(matches!(next_auth_frame(&s, &config()), AuthFrame::Identify { .. }));
}

#[test]
fn backoff_is_monotone_and_capped() {
    let mut prev = 0u64;
    for attempt in 1..=10u32 {
        let d = backoff_delay(attempt, 1000);
        assert!(d >= prev, "back-off shrank at attempt {}", attempt);
        assert!(d <= 60_000);
        prev = d;
    }
    // the cap binds with high jitter on large attempts
    assert_eq!(backoff_delay(7, 1249), 60_000);
}

#[test]
fn initial_heartbeat_delay_is_a_fraction_of_the_interval() {
    assert_eq!(initial_heartbeat_delay(41_250, 500), 20_625);
    assert_eq!(initial_heartbeat_delay(41_250, 0), 0);
    assert!(initial_heartbeat_delay(41_250, 999) < 41_250);
}

// ---------------------------------------------------------------------------
// Read-loop step
// ---------------------------------------------------------------------------

#[test]
fn heartbeat_request_is_answered_and_not_forwarded() {
    // server sends {op:1}: the driver answers with the current sequence
    let mut s = SessionState::new();
    s.note_sequence(12);
    let payload = GatewayPayload { op: 1, d: None, s: None, t: None };
    match handle_payload(&mut s, payload, DispatchData::Undecoded) {
        ReadAction::SendHeartbeat { seq } => assert_eq!(seq, Some(12)),
        _ => panic!("expected an immediate heartbeat"),
    }
    assert_eq!(heartbeat_frame(&s).seq, Some(12));
}

#[test]
fn reconnect_opcode_ends_the_attempt_preserving_the_session() {
    let mut s = SessionState::new();
    let payload = GatewayPayload { op: 7, d: None, s: None, t: None };
    match handle_payload(&mut s, payload, DispatchData::Undecoded) {
        ReadAction::End { reason, wait_ms } => {
            assert!(matches!(reason, DisconnectReason::ShouldResume));
            assert_eq!(wait_ms, 0);
        }
        _ => panic!("expected the attempt to end"),
    }
}

#[test]
fn invalid_session_non_resumable_waits_then_reidentifies() {
    // {op:9, d:false}: wait 3 s, clear the session, identify anew
    let mut s = SessionState::new();
    s.note_ready("S".to_string(), "wss://rx.example".to_string());
    s.note_sequence(4);
    let d: serde_json::Value = serde_json::from_str("false").unwrap();
    let payload = GatewayPayload { op: 9, d: Some(d), s: None, t: None };
    match handle_payload(&mut s, payload, DispatchData::Undecoded) {
        ReadAction::End { reason, wait_ms } => {
            assert!(matches!(reason, DisconnectReason::ShouldReidentify));
            assert_eq!(wait_ms, 3000);
            let step = reconnect_policy(&reason, 0, 1000, &mut s);
            assert!(matches!(step, DriverStep::Reconnect { .. }));
        }
        _ => panic!("expected the attempt to end"),
    }
    assert!(matches!(next_auth_frame(&s, &config()), AuthFrame::Identify { .. }));
}

#[test]
fn invalid_session_resumable_waits_two_seconds() {
    let mut s = SessionState::new();
    let d: serde_json::Value = serde_json::from_str("true").unwrap();
    let payload = GatewayPayload { op: 9, d: Some(d), s: None, t: None };
    match handle_payload(&mut s, payload, DispatchData::Undecoded) {
        ReadAction::End { reason, wait_ms } => {
            assert!(matches!(reason, DisconnectReason::ShouldResume));
            assert_eq!(wait_ms, 2000);
        }
        _ => panic!("expected the attempt to end"),
    }
}

#[test]
fn sequence_updates_before_the_event_is_forwarded() {
    let mut s = SessionState::new();
    let payload =
        GatewayPayload { op: 0, d: None, s: Some(41), t: Some("TYPING_START".to_string()) };
    match handle_payload(&mut s, payload, DispatchData::Undecoded) {
        ReadAction::Forward(GatewayEvent::Unknown { event_name, op, .. }) => {
            assert_eq!(event_name.as_deref(), Some("TYPING_START"));
            assert_eq!(op, 0);
        }
        _ => panic!("expected an unknown event to be forwarded"),
    }
    assert_eq!(s.sequence, Some(41));
}

// ---------------------------------------------------------------------------
// Envelope classification
// ---------------------------------------------------------------------------

#[test]
fn opcodes_map_to_events() {
    let hb = GatewayPayload { op: 11, d: None, s: None, t: None };
    assert!(matches!(
        GatewayEvent::from_payload(hb, DispatchData::Undecoded),
        GatewayEvent::HeartbeatAck
    ));
    let unknown = GatewayPayload { op: 42, d: None, s: None, t: Some("X".to_string()) };
    match GatewayEvent::from_payload(unknown, DispatchData::Undecoded) {
        GatewayEvent::Unknown { op, event_name, .. } => {
            assert_eq!(op, 42);
            assert_eq!(event_name.as_deref(), Some("X"));
        }
        _ => panic!("expected Unknown"),
    }
}

#[test]
fn dispatch_names_classify() {
    assert_eq!(dispatch_kind("READY"), DispatchKind::Ready);
    assert_eq!(dispatch_kind("GUILD_CREATE"), DispatchKind::GuildCreate);
    assert_eq!(dispatch_kind("MESSAGE_CREATE"), DispatchKind::MessageCreate);
    assert_eq!(dispatch_kind("PRESENCE_UPDATE"), DispatchKind::PresenceUpdate);
    assert_eq!(dispatch_kind("INTERACTION_CREATE"), DispatchKind::InteractionCreate);
    assert_eq!(dispatch_kind("TYPING_START"), DispatchKind::Other);
}

#[test]
fn hello_payload_yields_the_heartbeat_interval() {
    let d: serde_json::Value = serde_json::from_str("{\"heartbeat_interval\":41250}").unwrap();
    let hello = GatewayPayload { op: 10, d: Some(d), s: None, t: None };
    assert_eq!(hello_heartbeat_interval(&hello).unwrap(), 41_250);

    let wrong = GatewayPayload { op: 0, d: None, s: None, t: None };
    assert!(matches!(hello_heartbeat_interval(&wrong), Err(HelloError::WrongOpcode(0))));

    let missing: serde_json::Value = serde_json::from_str("{}").unwrap();
    let bad = GatewayPayload { op: 10, d: Some(missing), s: None, t: None };
    assert!(matches!(hello_heartbeat_interval(&bad), Err(HelloError::MissingInterval)));
}
