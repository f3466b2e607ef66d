use wa_session::actor::{
    init_whatsapp, ActorAction, ActorEvent, ActorPhase, PendingMedia, SessionActor,
};
use wa_session::command::{
    command_result, send_media_message, send_message, BotCommand, CommandError, Delivery,
};
use wa_session::events::{InboundEvent, Notification};
use wa_session::media::MediaKind;
use wa_session::message::{OutboundMessage, UploadedMedia};
use wa_session::recipient::RecipientId;
use wa_session::status::{is_bot_ready, SharedStatus, WhatsAppState};

fn jid(user: &str) -> RecipientId {
    RecipientId { user: user.to_string(), server: "s.whatsapp.net".to_string() }
}

fn uploaded() -> UploadedMedia {
    UploadedMedia {
        url: "https://mmg.example/d/f".to_string(),
        direct_path: "/d/f".to_string(),
        media_key: vec![7; 32],
        file_enc_sha256: vec![8; 32],
        file_sha256: vec![9; 32],
        file_length: 3,
    }
}

fn running() -> (WhatsAppState, SessionActor) {
    let mut state = WhatsAppState::new();
    let mut actor = init_whatsapp(&mut state, Ok(())).unwrap();
    assert_eq!(actor.step(&mut state, ActorEvent::Started), ActorAction::Nothing);
    assert_eq!(
        actor.step(&mut state, ActorEvent::Inbound(InboundEvent::Connected)),
        ActorAction::Notify(Notification::AuthSuccess)
    );
    (state, actor)
}

fn text_command(state: &WhatsAppState, contact: &str, body: &str) -> BotCommand {
    send_message(contact.to_string(), body.to_string(), state).unwrap()
}

fn media_command(state: &WhatsAppState, contact: &str, path: &str, label: &str) -> BotCommand {
    send_media_message(
        contact.to_string(),
        "see".to_string(),
        path.to_string(),
        label.to_string(),
        Ok(vec![1, 2, 3]),
        state,
    )
    .unwrap()
}

fn every_event() -> Vec<ActorEvent> {
    vec![
        ActorEvent::Started,
        ActorEvent::StartFailed,
        ActorEvent::Inbound(InboundEvent::Other),
        ActorEvent::Command(BotCommand::SendMessage {
            jid: jid("1"),
            message: OutboundMessage::Text { text: "t".to_string() },
        }),
        ActorEvent::UploadFinished(Ok(uploaded())),
        ActorEvent::SendFinished(Ok("ID".to_string())),
        ActorEvent::ChannelClosed,
        ActorEvent::BackendCompleted,
    ]
}

fn accepted(actor: &SessionActor) -> Vec<bool> {
    every_event().iter().map(|event| actor.accepts(event)).collect()
}

#[test]
fn init_publishes_the_sender_and_hands_out_a_starting_actor() {
    let mut state = WhatsAppState::new();
    let actor = init_whatsapp(&mut state, Ok(())).unwrap();
    assert!(state.sender_published);
    assert_eq!(state.status, SharedStatus { authenticated: false, ready: false });
    assert_eq!(actor.phase(), &ActorPhase::Starting);
    assert_eq!(actor, SessionActor::new());
}

#[test]
fn init_keeps_the_status_flags() {
    let mut state = WhatsAppState {
        sender_published: true,
        status: SharedStatus { authenticated: true, ready: true },
    };
    let actor = init_whatsapp(&mut state, Ok(()));
    assert!(actor.is_ok());
    assert!(state.sender_published);
    assert_eq!(state.status, SharedStatus { authenticated: true, ready: true });
}

#[test]
fn init_fails_where_the_store_cannot_be_opened() {
    let mut state = WhatsAppState::new();
    let started = init_whatsapp(&mut state, Err("unable to open database file".to_string()));
    assert_eq!(started, Err("unable to open database file".to_string()));
    assert_eq!(state, WhatsAppState::new());
}

#[test]
fn enqueue_before_init_is_not_initialized_and_touches_no_actor() {
    let mut state = WhatsAppState::new();
    state.status = SharedStatus { authenticated: true, ready: true };
    let before = state;
    assert_eq!(
        send_message("+1 555-0100".to_string(), "hi".to_string(), &state),
        Err(CommandError::NotInitialized)
    );
    assert_eq!(state, before);
}

#[test]
fn what_each_phase_accepts() {
    let starting = SessionActor::new();
    assert_eq!(accepted(&starting), vec![true, true, true, false, false, false, false, false]);

    let (mut state, mut actor) = running();
    assert!(actor.is_idle());
    assert_eq!(accepted(&actor), vec![false, false, true, true, false, false, true, true]);

    let command = text_command(&state, "1", "a");
    actor.step(&mut state, ActorEvent::Command(command));
    assert_eq!(actor.phase(), &ActorPhase::SendingText);
    assert_eq!(accepted(&actor), vec![false, false, true, false, false, true, false, false]);
    actor.step(&mut state, ActorEvent::SendFinished(Ok("ID".to_string())));

    let command = media_command(&state, "1", "a.png", "image");
    actor.step(&mut state, ActorEvent::Command(command));
    assert_eq!(accepted(&actor), vec![false, false, true, false, true, false, false, false]);
    actor.step(&mut state, ActorEvent::UploadFinished(Ok(uploaded())));
    assert_eq!(actor.phase(), &ActorPhase::SendingMedia);
    assert_eq!(accepted(&actor), vec![false, false, true, false, false, true, false, false]);
    actor.step(&mut state, ActorEvent::SendFinished(Ok("ID".to_string())));

    actor.step(&mut state, ActorEvent::BackendCompleted);
    assert!(actor.is_stopped());
    assert_eq!(accepted(&actor), vec![false; 8]);
}

#[test]
fn text_command_is_sent_and_answered() {
    let (mut state, mut actor) = running();
    let command = text_command(&state, "+1 555-0100", "hello");
    assert_eq!(
        actor.step(&mut state, ActorEvent::Command(command)),
        ActorAction::Send {
            jid: jid("15550100"),
            message: OutboundMessage::Text { text: "hello".to_string() },
        }
    );
    assert!(!actor.is_idle());
    assert_eq!(
        actor.step(&mut state, ActorEvent::SendFinished(Ok("3EB0".to_string()))),
        ActorAction::Reply(Ok("3EB0".to_string()))
    );
    assert!(actor.is_idle());
}

#[test]
fn failed_text_send_is_answered_with_the_backend_error() {
    let (mut state, mut actor) = running();
    let command = text_command(&state, "1", "hello");
    actor.step(&mut state, ActorEvent::Command(command));
    assert_eq!(
        actor.step(&mut state, ActorEvent::SendFinished(Err("socket closed".to_string()))),
        ActorAction::Reply(Err("Failed to send: socket closed".to_string()))
    );
    assert!(actor.is_idle());
    assert_eq!(is_bot_ready(&state), Ok(true));
}

#[test]
fn media_command_is_uploaded_then_sent_then_answered() {
    let (mut state, mut actor) = running();
    let command = media_command(&state, "+49 30-1234", "/tmp/cat.png", "image");
    assert_eq!(
        actor.step(&mut state, ActorEvent::Command(command)),
        ActorAction::Upload { media_data: vec![1, 2, 3], media_type: MediaKind::Image }
    );
    assert_eq!(
        actor.phase(),
        &ActorPhase::Uploading(PendingMedia {
            jid: jid("49301234"),
            media_category: "image".to_string(),
            mime_type: "image/png".to_string(),
            caption: "see".to_string(),
            file_name: "cat.png".to_string(),
        })
    );
    assert_eq!(
        actor.step(&mut state, ActorEvent::UploadFinished(Ok(uploaded()))),
        ActorAction::Send {
            jid: jid("49301234"),
            message: OutboundMessage::Image {
                media: uploaded(),
                mimetype: "image/png".to_string(),
                caption: Some("see".to_string()),
            },
        }
    );
    assert_eq!(
        actor.step(&mut state, ActorEvent::SendFinished(Ok("3EB1".to_string()))),
        ActorAction::Reply(Ok("3EB1".to_string()))
    );
    assert!(actor.is_idle());
}

#[test]
fn audio_is_uploaded_as_audio_and_sent_as_a_document() {
    let (mut state, mut actor) = running();
    let command = media_command(&state, "1", "song.mp3", "audio");
    assert_eq!(
        actor.step(&mut state, ActorEvent::Command(command)),
        ActorAction::Upload { media_data: vec![1, 2, 3], media_type: MediaKind::Audio }
    );
    assert_eq!(
        actor.step(&mut state, ActorEvent::UploadFinished(Ok(uploaded()))),
        ActorAction::Send {
            jid: jid("1"),
            message: OutboundMessage::Document {
                media: uploaded(),
                mimetype: "audio/mpeg".to_string(),
                file_name: "song.mp3".to_string(),
            },
        }
    );
}

#[test]
fn failed_upload_is_answered_at_once() {
    let (mut state, mut actor) = running();
    let command = media_command(&state, "1", "a.mp4", "video");
    actor.step(&mut state, ActorEvent::Command(command));
    assert_eq!(
        actor.step(&mut state, ActorEvent::UploadFinished(Err("413".to_string()))),
        ActorAction::Reply(Err("Failed to send media: 413".to_string()))
    );
    assert!(actor.is_idle());
}

#[test]
fn failed_media_send_is_answered_with_the_backend_error() {
    let (mut state, mut actor) = running();
    let command = media_command(&state, "1", "a.mp4", "video");
    actor.step(&mut state, ActorEvent::Command(command));
    actor.step(&mut state, ActorEvent::UploadFinished(Ok(uploaded())));
    assert_eq!(
        actor.step(&mut state, ActorEvent::SendFinished(Err("not-authorized".to_string()))),
        ActorAction::Reply(Err("Failed to send media: not-authorized".to_string()))
    );
    assert!(actor.is_idle());
}

#[test]
fn a_failed_command_does_not_stop_the_loop() {
    let (mut state, mut actor) = running();
    let first = text_command(&state, "1", "a");
    actor.step(&mut state, ActorEvent::Command(first));
    actor.step(&mut state, ActorEvent::SendFinished(Err("boom".to_string())));
    let second = text_command(&state, "2", "b");
    assert!(actor.accepts(&ActorEvent::Command(second.clone())));
    assert_eq!(
        actor.step(&mut state, ActorEvent::Command(second)),
        ActorAction::Send {
            jid: jid("2"),
            message: OutboundMessage::Text { text: "b".to_string() },
        }
    );
}

#[test]
fn commands_are_served_one_after_the_other() {
    let (mut state, mut actor) = running();
    let first = media_command(&state, "111", "one.png", "image");
    let second = text_command(&state, "222", "two");
    let mut log = Vec::new();

    log.push(actor.step(&mut state, ActorEvent::Command(first)));
    assert!(!actor.accepts(&ActorEvent::Command(second.clone())));
    log.push(actor.step(&mut state, ActorEvent::UploadFinished(Ok(uploaded()))));
    assert!(!actor.accepts(&ActorEvent::Command(second.clone())));
    log.push(actor.step(&mut state, ActorEvent::SendFinished(Ok("A".to_string()))));
    assert!(actor.accepts(&ActorEvent::Command(second.clone())));
    log.push(actor.step(&mut state, ActorEvent::Command(second)));
    log.push(actor.step(&mut state, ActorEvent::SendFinished(Ok("B".to_string()))));

    assert_eq!(
        log,
        vec![
            ActorAction::Upload { media_data: vec![1, 2, 3], media_type: MediaKind::Image },
            ActorAction::Send {
                jid: jid("111"),
                message: OutboundMessage::Image {
                    media: uploaded(),
                    mimetype: "image/png".to_string(),
                    caption: Some("see".to_string()),
                },
            },
            ActorAction::Reply(Ok("A".to_string())),
            ActorAction::Send {
                jid: jid("222"),
                message: OutboundMessage::Text { text: "two".to_string() },
            },
            ActorAction::Reply(Ok("B".to_string())),
        ]
    );
}

#[test]
fn inbound_events_do_not_touch_the_command_in_flight() {
    let (mut state, mut actor) = running();
    let command = media_command(&state, "1", "a.png", "image");
    actor.step(&mut state, ActorEvent::Command(command));
    let pending = PendingMedia {
        jid: jid("1"),
        media_category: "image".to_string(),
        mime_type: "image/png".to_string(),
        caption: "see".to_string(),
        file_name: "a.png".to_string(),
    };
    assert_eq!(
        actor.step(&mut state, ActorEvent::Inbound(InboundEvent::LoggedOut)),
        ActorAction::Notify(Notification::LoggedOut)
    );
    assert_eq!(is_bot_ready(&state), Ok(false));
    assert_eq!(actor.phase(), &ActorPhase::Uploading(pending));
    assert_eq!(
        actor.step(&mut state, ActorEvent::Inbound(InboundEvent::MessageReceived("x".to_string()))),
        ActorAction::Nothing
    );
    assert_eq!(
        actor.step(&mut state, ActorEvent::Inbound(InboundEvent::PairingCode("q".to_string()))),
        ActorAction::Notify(Notification::QrCode("q".to_string()))
    );
    assert!(matches!(
        actor.step(&mut state, ActorEvent::UploadFinished(Ok(uploaded()))),
        ActorAction::Send { .. }
    ));
}

#[test]
fn commands_do_not_touch_the_status() {
    let (mut state, mut actor) = running();
    let before = state;
    let command = media_command(&state, "1", "a.png", "image");
    actor.step(&mut state, ActorEvent::Command(command));
    assert_eq!(state, before);
    actor.step(&mut state, ActorEvent::UploadFinished(Ok(uploaded())));
    assert_eq!(state, before);
    actor.step(&mut state, ActorEvent::SendFinished(Err("e".to_string())));
    assert_eq!(state, before);
}

#[test]
fn closed_channel_ends_the_loop_and_revokes_readiness() {
    let (mut state, mut actor) = running();
    assert_eq!(is_bot_ready(&state), Ok(true));
    assert_eq!(
        actor.step(&mut state, ActorEvent::ChannelClosed),
        ActorAction::Notify(Notification::LoggedOut)
    );
    assert!(actor.is_stopped());
    assert_eq!(is_bot_ready(&state), Ok(false));
    assert_eq!(state.status, SharedStatus { authenticated: false, ready: false });
    assert!(state.sender_published);
}

#[test]
fn completed_backend_ends_the_loop_and_revokes_readiness() {
    let (mut state, mut actor) = running();
    assert_eq!(
        actor.step(&mut state, ActorEvent::BackendCompleted),
        ActorAction::Notify(Notification::LoggedOut)
    );
    assert!(actor.is_stopped());
    assert_eq!(is_bot_ready(&state), Ok(false));
    assert_eq!(state.status, SharedStatus { authenticated: false, ready: false });
}

#[test]
fn requests_after_the_end_are_refused_as_not_ready() {
    let (mut state, mut actor) = running();
    actor.step(&mut state, ActorEvent::BackendCompleted);
    assert_eq!(
        send_message("1".to_string(), "x".to_string(), &state),
        Err(CommandError::NotReady)
    );
}

#[test]
fn failed_start_stops_the_actor_quietly() {
    let mut state = WhatsAppState::new();
    let mut actor = init_whatsapp(&mut state, Ok(())).unwrap();
    actor.step(&mut state, ActorEvent::Inbound(InboundEvent::PairSucceeded));
    let before = state;
    assert_eq!(actor.step(&mut state, ActorEvent::StartFailed), ActorAction::Nothing);
    assert!(actor.is_stopped());
    assert_eq!(state, before);
}

#[test]
fn command_left_in_the_channel_when_the_actor_ends_is_unavailable() {
    let (mut state, mut actor) = running();
    let waiting = text_command(&state, "1", "never served");
    actor.step(&mut state, ActorEvent::BackendCompleted);
    assert!(!actor.accepts(&ActorEvent::Command(waiting)));
    assert_eq!(command_result(Delivery::Dropped), Err(CommandError::ActorUnavailable));
}
