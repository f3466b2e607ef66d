use wa_session::events::{
    handle_event, project_event, InboundEvent, Notification, Projection, StatusEffect,
};
use wa_session::status::{is_bot_ready, SharedStatus, WhatsAppState};

fn status(authenticated: bool, ready: bool) -> SharedStatus {
    SharedStatus { authenticated, ready }
}

fn all_statuses() -> Vec<SharedStatus> {
    vec![status(false, false), status(false, true), status(true, false), status(true, true)]
}

#[test]
fn new_state_is_blank() {
    let state = WhatsAppState::new();
    assert!(!state.sender_published);
    assert_eq!(state.status, status(false, false));
    assert_eq!(is_bot_ready(&state), Ok(false));
}

#[test]
fn is_bot_ready_reads_the_ready_flag() {
    let mut state = WhatsAppState::new();
    state.status.ready = true;
    assert_eq!(is_bot_ready(&state), Ok(true));
    state.status.ready = false;
    state.status.authenticated = true;
    state.sender_published = true;
    assert_eq!(is_bot_ready(&state), Ok(false));
}

#[test]
fn pairing_code_changes_nothing_and_shows_the_code() {
    for before in all_statuses() {
        let mut state = WhatsAppState { sender_published: true, status: before };
        let note = handle_event(&mut state, InboundEvent::PairingCode("2@abc".to_string()));
        assert_eq!(state.status, before);
        assert!(state.sender_published);
        assert_eq!(note, Some(Notification::QrCode("2@abc".to_string())));
    }
}

#[test]
fn pair_success_authenticates_only() {
    for before in all_statuses() {
        let mut state = WhatsAppState { sender_published: false, status: before };
        let note = handle_event(&mut state, InboundEvent::PairSucceeded);
        assert_eq!(state.status, status(true, before.ready));
        assert!(!state.sender_published);
        assert_eq!(note, Some(Notification::AuthSuccess));
    }
}

#[test]
fn connected_sets_both_flags() {
    for before in all_statuses() {
        let mut state = WhatsAppState { sender_published: true, status: before };
        let note = handle_event(&mut state, InboundEvent::Connected);
        assert_eq!(state.status, status(true, true));
        assert_eq!(note, Some(Notification::AuthSuccess));
    }
}

#[test]
fn logged_out_clears_both_flags() {
    for before in all_statuses() {
        let mut state = WhatsAppState { sender_published: true, status: before };
        let note = handle_event(&mut state, InboundEvent::LoggedOut);
        assert_eq!(state.status, status(false, false));
        assert_eq!(is_bot_ready(&state), Ok(false));
        assert_eq!(note, Some(Notification::LoggedOut));
        assert!(state.sender_published);
    }
}

#[test]
fn message_and_other_events_are_silent() {
    for before in all_statuses() {
        let mut state = WhatsAppState { sender_published: true, status: before };
        let note = handle_event(&mut state, InboundEvent::MessageReceived("alice".to_string()));
        assert_eq!(state.status, before);
        assert_eq!(note, None);
        let note = handle_event(&mut state, InboundEvent::Other);
        assert_eq!(state.status, before);
        assert_eq!(note, None);
    }
}

#[test]
fn projection_depends_on_the_event_alone() {
    assert_eq!(
        project_event(InboundEvent::PairingCode("c".to_string())),
        Projection {
            effect: StatusEffect::Unchanged,
            notification: Some(Notification::QrCode("c".to_string())),
        }
    );
    assert_eq!(
        project_event(InboundEvent::PairSucceeded),
        Projection {
            effect: StatusEffect::Authenticated,
            notification: Some(Notification::AuthSuccess),
        }
    );
    assert_eq!(
        project_event(InboundEvent::Connected),
        Projection { effect: StatusEffect::Ready, notification: Some(Notification::AuthSuccess) }
    );
    assert_eq!(
        project_event(InboundEvent::LoggedOut),
        Projection { effect: StatusEffect::Revoked, notification: Some(Notification::LoggedOut) }
    );
    assert_eq!(
        project_event(InboundEvent::MessageReceived("bob".to_string())),
        Projection { effect: StatusEffect::Unchanged, notification: None }
    );
    assert_eq!(
        project_event(InboundEvent::Other),
        Projection { effect: StatusEffect::Unchanged, notification: None }
    );
}

#[test]
fn effects_apply_as_the_table_says() {
    for before in all_statuses() {
        assert_eq!(StatusEffect::Unchanged.apply(before), before);
        assert_eq!(StatusEffect::Authenticated.apply(before), status(true, before.ready));
        assert_eq!(StatusEffect::Ready.apply(before), status(true, true));
        assert_eq!(StatusEffect::Revoked.apply(before), status(false, false));
    }
}

#[test]
fn events_take_effect_in_order() {
    let mut state = WhatsAppState::new();
    let events = vec![
        InboundEvent::PairingCode("code".to_string()),
        InboundEvent::PairSucceeded,
        InboundEvent::Connected,
        InboundEvent::MessageReceived("carol".to_string()),
        InboundEvent::LoggedOut,
        InboundEvent::PairSucceeded,
    ];
    let expected = vec![
        status(false, false),
        status(true, false),
        status(true, true),
        status(true, true),
        status(false, false),
        status(true, false),
    ];
    for (event, after) in events.into_iter().zip(expected) {
        handle_event(&mut state, event);
        assert_eq!(state.status, after);
    }
}

#[test]
fn readiness_follows_the_last_connection_event() {
    let mut state = WhatsAppState::new();
    handle_event(&mut state, InboundEvent::LoggedOut);
    handle_event(&mut state, InboundEvent::Connected);
    handle_event(&mut state, InboundEvent::PairSucceeded);
    handle_event(&mut state, InboundEvent::Other);
    assert_eq!(is_bot_ready(&state), Ok(true));
    handle_event(&mut state, InboundEvent::Connected);
    handle_event(&mut state, InboundEvent::LoggedOut);
    handle_event(&mut state, InboundEvent::PairSucceeded);
    assert_eq!(is_bot_ready(&state), Ok(false));
    assert!(state.status.authenticated);
}

#[test]
fn notification_names() {
    assert_eq!(Notification::QrCode("x".to_string()).event_name(), "qr-code");
    assert_eq!(Notification::AuthSuccess.event_name(), "auth-success");
    assert_eq!(Notification::LoggedOut.event_name(), "logged-out");
}
