//! The two receive loops, driven step by step.

use felt_ipc::client_loop::{client_step, ClientLoopState, HostAction};
use felt_ipc::cookie_record::{CookieRecord, SameSitePolicy};
use felt_ipc::message::{BroadcastTopic, FeltMessage, PollEvent};
use felt_ipc::server_loop::responder_step;
use felt_ipc::tokens::TokenState;

fn cookie(name: &str) -> CookieRecord {
    CookieRecord {
        name: name.to_string(),
        value: "v".to_string(),
        domain: "example.test".to_string(),
        path: "/".to_string(),
        same_site: SameSitePolicy::Lax,
        secure: true,
        http_only: false,
        expiry_ms: Some(1_700_000_000_000),
    }
}

// The host collaborator receives exactly one set-bool-preference call for a
// bool-preference message; the action list is what gets marshalled onto the
// host's main execution context, so nothing runs on the worker itself.
#[test]
fn bool_preference_causes_exactly_one_injection() {
    let state = ClientLoopState::new_initial();
    let event = PollEvent::Message(FeltMessage::BoolPreference(
        "pref.enabled".to_string(),
        true,
    ));
    let (_state, actions, exit) = client_step(state, false, false, event);
    assert_eq!(
        actions,
        vec![HostAction::SetBoolPref("pref.enabled".to_string(), true)]
    );
    assert!(!exit);
}

#[test]
fn string_and_int_preferences_forward() {
    let state = ClientLoopState::new_initial();
    let (state, actions, _) = client_step(
        state,
        false,
        false,
        PollEvent::Message(FeltMessage::StringPreference(
            "a.b".to_string(),
            "x".to_string(),
        )),
    );
    assert_eq!(
        actions,
        vec![HostAction::SetStringPref("a.b".to_string(), "x".to_string())]
    );
    let (_, actions, _) = client_step(
        state,
        false,
        false,
        PollEvent::Message(FeltMessage::IntPreference("c.d".to_string(), -7)),
    );
    assert_eq!(actions, vec![HostAction::SetIntPref("c.d".to_string(), -7)]);
}

#[test]
fn console_address_preference_also_feeds_the_cell() {
    let state = ClientLoopState::new_initial();
    let (_state, actions, _) = client_step(
        state,
        false,
        false,
        PollEvent::Message(FeltMessage::StringPreference(
            "enterprise.console.address".to_string(),
            "https://console.example.test".to_string(),
        )),
    );
    assert_eq!(
        actions,
        vec![
            HostAction::SetConsoleUrl("https://console.example.test".to_string()),
            HostAction::SetStringPref(
                "enterprise.console.address".to_string(),
                "https://console.example.test".to_string()
            ),
        ]
    );
}

#[test]
fn cookie_before_readiness_queues_without_injection() {
    let state = ClientLoopState::new_initial();
    let (state, actions, exit) = client_step(
        state,
        false,
        false,
        PollEvent::Message(FeltMessage::Cookie(cookie("one"))),
    );
    assert!(actions.is_empty());
    assert!(!exit);
    assert_eq!(state.pending, vec![cookie("one")]);
}

#[test]
fn queued_cookies_drain_in_arrival_order_on_readiness() {
    let state = ClientLoopState::new_initial();
    let (state, _, _) = client_step(
        state,
        false,
        false,
        PollEvent::Message(FeltMessage::Cookie(cookie("one"))),
    );
    let (state, actions, _) = client_step(
        state,
        false,
        false,
        PollEvent::Message(FeltMessage::Cookie(cookie("two"))),
    );
    assert!(actions.is_empty());
    assert_eq!(state.pending.len(), 2);

    // First iteration that observes readiness: the queue drains fully, in
    // arrival order, before the polled event is handled.
    let (state, actions, _) = client_step(
        state,
        true,
        false,
        PollEvent::Message(FeltMessage::Cookie(cookie("three"))),
    );
    assert_eq!(
        actions,
        vec![
            HostAction::InjectCookie(cookie("one")),
            HostAction::InjectCookie(cookie("two")),
            HostAction::InjectCookie(cookie("three")),
        ]
    );
    assert!(state.pending.is_empty());
    assert!(state.profile_ready);

    // Nothing is ever injected twice: the queue is gone.
    let (state, actions, _) = client_step(state, true, false, PollEvent::Empty);
    assert!(actions.is_empty());
    assert!(state.pending.is_empty());
}

// With several pending records for one cookie name, nothing is deduplicated
// and arrival order is kept, so the record sent last wins at the store.
#[test]
fn duplicate_cookie_names_keep_arrival_order() {
    let mut first = cookie("dup");
    first.value = "old".to_string();
    let mut second = cookie("dup");
    second.value = "new".to_string();

    let state = ClientLoopState::new_initial();
    let (state, _, _) = client_step(
        state,
        false,
        false,
        PollEvent::Message(FeltMessage::Cookie(first.clone())),
    );
    let (state, _, _) = client_step(
        state,
        false,
        false,
        PollEvent::Message(FeltMessage::Cookie(second.clone())),
    );
    let (_, actions, _) = client_step(state, true, false, PollEvent::Empty);
    assert_eq!(
        actions,
        vec![
            HostAction::InjectCookie(first),
            HostAction::InjectCookie(second),
        ]
    );
}

#[test]
fn readiness_latches_across_iterations() {
    let state = ClientLoopState::new_initial();
    let (state, _, _) = client_step(state, true, false, PollEvent::Empty);
    assert!(state.profile_ready);
    // Even if the sampled signal reads false later, the loop stays ready.
    let (state, actions, _) = client_step(
        state,
        false,
        false,
        PollEvent::Message(FeltMessage::Cookie(cookie("now"))),
    );
    assert_eq!(actions, vec![HostAction::InjectCookie(cookie("now"))]);
    assert!(state.pending.is_empty());
}

#[test]
fn startup_ready_schedules_the_barrier() {
    let state = ClientLoopState::new_initial();
    let (_, actions, _) = client_step(
        state,
        false,
        false,
        PollEvent::Message(FeltMessage::StartupReady),
    );
    assert_eq!(actions, vec![HostAction::ScheduleStartupComplete]);
}

#[test]
fn restart_forced_broadcasts() {
    let state = ClientLoopState::new_initial();
    let (_, actions, _) = client_step(
        state,
        false,
        false,
        PollEvent::Message(FeltMessage::RestartForced),
    );
    assert_eq!(
        actions,
        vec![HostAction::Broadcast(BroadcastTopic::RestartForced)]
    );
}

#[test]
fn tokens_message_overwrites_the_cache_wholesale() {
    let state = ClientLoopState::new_initial();
    let t = TokenState {
        access_token: "acc".to_string(),
        refresh_token: "ref".to_string(),
        expires_at: 123,
    };
    let (_, actions, _) = client_step(
        state,
        false,
        false,
        PollEvent::Message(FeltMessage::Tokens(t.clone())),
    );
    assert_eq!(actions, vec![HostAction::StoreTokens(t)]);
}

#[test]
fn open_url_broadcasts_the_url() {
    let state = ClientLoopState::new_initial();
    let (_, actions, _) = client_step(
        state,
        false,
        false,
        PollEvent::Message(FeltMessage::OpenURL("https://x.test/".to_string())),
    );
    assert_eq!(actions, vec![HostAction::OpenUrl("https://x.test/".to_string())]);
}

#[test]
fn unexpected_messages_are_ignored() {
    for msg in [
        FeltMessage::VersionProbe(2),
        FeltMessage::VersionValidated(true),
        FeltMessage::ClientChannel,
        FeltMessage::Restarting,
        FeltMessage::ExtensionReady,
        FeltMessage::LogoutShutdown,
    ] {
        let state = ClientLoopState::new_initial();
        let (state, actions, exit) = client_step(state, false, false, PollEvent::Message(msg));
        assert!(actions.is_empty());
        assert!(!exit);
        assert!(state.pending.is_empty());
    }
}

#[test]
fn transient_errors_and_empty_polls_keep_looping() {
    let state = ClientLoopState::new_initial();
    let (state, actions, exit) = client_step(state, false, false, PollEvent::Empty);
    assert!(actions.is_empty() && !exit);
    let (_, actions, exit) = client_step(state, false, false, PollEvent::TransientError);
    assert!(actions.is_empty() && !exit);
}

#[test]
fn disconnect_exits_the_loop() {
    let state = ClientLoopState::new_initial();
    let (_, _, exit) = client_step(state, false, false, PollEvent::Disconnected);
    assert!(exit);
}

// The stop flag is sampled every iteration, and the poll blocks for at most
// one timeout interval, so a stop raised mid-loop is observed within one
// interval: the iteration that samples it is the last one.
#[test]
fn stop_flag_exits_within_one_iteration() {
    let state = ClientLoopState::new_initial();
    let (_, actions, exit) = client_step(state, false, true, PollEvent::Empty);
    assert!(exit);
    assert!(actions.is_empty());

    // A message polled in the same iteration is still handled; no further
    // message is ever processed after the exit.
    let state = ClientLoopState::new_initial();
    let (_, actions, exit) = client_step(
        state,
        false,
        true,
        PollEvent::Message(FeltMessage::BoolPreference("p".to_string(), false)),
    );
    assert!(exit);
    assert_eq!(
        actions,
        vec![HostAction::SetBoolPref("p".to_string(), false)]
    );
}

#[test]
fn responder_broadcasts_lifecycle_messages() {
    assert_eq!(
        responder_step(false, PollEvent::Message(FeltMessage::Restarting)),
        (Some(BroadcastTopic::PeerRestarting), false)
    );
    assert_eq!(
        responder_step(false, PollEvent::Message(FeltMessage::ExtensionReady)),
        (Some(BroadcastTopic::PeerReady), false)
    );
    assert_eq!(
        responder_step(false, PollEvent::Message(FeltMessage::LogoutShutdown)),
        (Some(BroadcastTopic::PeerLoggedOut), false)
    );
}

#[test]
fn responder_ignores_other_messages_and_exits_on_stop_or_disconnect() {
    assert_eq!(
        responder_step(false, PollEvent::Message(FeltMessage::StartupReady)),
        (None, false)
    );
    assert_eq!(responder_step(false, PollEvent::Empty), (None, false));
    assert_eq!(responder_step(false, PollEvent::TransientError), (None, false));
    assert_eq!(responder_step(false, PollEvent::Disconnected), (None, true));
    assert_eq!(responder_step(true, PollEvent::Empty), (None, true));
}
