//! The session actor: the single owner of the connection.
//!
//! The actor is a state machine. The embedding program runs its loop: it
//! waits for the next event, hands it to [`SessionActor::step`], carries out
//! the action that comes back and, where the action was work for the
//! backend, reports the result as the next event. Because the actor takes a
//! new command only while it is idle, the work of two commands never
//! interleaves on the connection.

use crate::command::{BotCommand, BotCommandView};
use crate::events::{
    handle_event, notification_of, status_after_event, InboundEvent, InboundEventView,
    Notification, NotificationView,
};
use crate::media::MediaKind;
use crate::message::{
    media_message, media_message_of, OutboundMessage, OutboundMessageView, UploadedMedia,
    UploadedMediaView,
};
use crate::recipient::{RecipientId, RecipientIdView};
use crate::status::{SharedStatus, WhatsAppState};
use crate::text::reply_text;
use vstd::prelude::*;
use vstd::string::*;

verus! {

/// What the actor keeps of a media command while the file is uploaded.
#[derive(Debug, PartialEq, Eq)]
pub struct PendingMedia {
    pub jid: RecipientId,
    pub media_category: String,
    pub mime_type: String,
    pub caption: String,
    pub file_name: String,
}

/// The mathematical value of a [`PendingMedia`].
pub struct PendingMediaView {
    pub jid: RecipientIdView,
    pub media_category: Seq<char>,
    pub mime_type: Seq<char>,
    pub caption: Seq<char>,
    pub file_name: Seq<char>,
}

impl View for PendingMedia {
    type V = PendingMediaView;

    open spec fn view(&self) -> PendingMediaView {
        PendingMediaView {
            jid: self.jid@,
            media_category: self.media_category@,
            mime_type: self.mime_type@,
            caption: self.caption@,
            file_name: self.file_name@,
        }
    }
}

/// Where the actor stands.
#[derive(Debug, PartialEq, Eq)]
pub enum ActorPhase {
    /// The backend is being built and started.
    Starting,
    /// Waiting for the next event or command.
    Idle,
    /// The backend sends a text message.
    SendingText,
    /// The backend uploads the file of a media command.
    Uploading(PendingMedia),
    /// The backend sends the message that carries an uploaded file.
    SendingMedia,
    /// The loop has ended.
    Stopped,
}

/// The mathematical value of an [`ActorPhase`].
pub enum ActorPhaseView {
    Starting,
    Idle,
    SendingText,
    Uploading(PendingMediaView),
    SendingMedia,
    Stopped,
}

impl View for ActorPhase {
    type V = ActorPhaseView;

    open spec fn view(&self) -> ActorPhaseView {
        match self {
            ActorPhase::Starting => ActorPhaseView::Starting,
            ActorPhase::Idle => ActorPhaseView::Idle,
            ActorPhase::SendingText => ActorPhaseView::SendingText,
            ActorPhase::Uploading(pending) => ActorPhaseView::Uploading(pending@),
            ActorPhase::SendingMedia => ActorPhaseView::SendingMedia,
            ActorPhase::Stopped => ActorPhaseView::Stopped,
        }
    }
}

impl ActorPhaseView {
    /// Whether a command is in flight: accepted and not yet answered.
    pub open spec fn busy(self) -> bool {
        self is SendingText || self is Uploading || self is SendingMedia
    }
}

/// What the actor is told.
#[derive(Debug, PartialEq, Eq)]
pub enum ActorEvent {
    /// The backend was built and runs.
    Started,
    /// The backend could not be built or started.
    StartFailed,
    /// The backend reported a lifecycle event.
    Inbound(InboundEvent),
    /// The next command was taken from the command channel.
    Command(BotCommand),
    /// The upload that the actor asked for has ended.
    UploadFinished(Result<UploadedMedia, String>),
    /// The send that the actor asked for has ended.
    SendFinished(Result<String, String>),
    /// Every command sender is gone.
    ChannelClosed,
    /// The backend's run has completed: the connection is over.
    BackendCompleted,
}

/// The mathematical value of an [`ActorEvent`].
pub enum ActorEventView {
    Started,
    StartFailed,
    Inbound(InboundEventView),
    Command(BotCommandView),
    UploadFinished(Result<UploadedMediaView, Seq<char>>),
    SendFinished(Result<Seq<char>, Seq<char>>),
    ChannelClosed,
    BackendCompleted,
}

/// The result of an upload as a mathematical value.
pub open spec fn upload_view(result: Result<UploadedMedia, String>) -> Result<
    UploadedMediaView,
    Seq<char>,
> {
    match result {
        Ok(uploaded) => Ok(uploaded@),
        Err(reason) => Err(reason@),
    }
}

impl View for ActorEvent {
    type V = ActorEventView;

    open spec fn view(&self) -> ActorEventView {
        match self {
            ActorEvent::Started => ActorEventView::Started,
            ActorEvent::StartFailed => ActorEventView::StartFailed,
            ActorEvent::Inbound(event) => ActorEventView::Inbound(event@),
            ActorEvent::Command(command) => ActorEventView::Command(command@),
            ActorEvent::UploadFinished(result) => ActorEventView::UploadFinished(
                upload_view(*result),
            ),
            ActorEvent::SendFinished(result) => ActorEventView::SendFinished(reply_text(*result)),
            ActorEvent::ChannelClosed => ActorEventView::ChannelClosed,
            ActorEvent::BackendCompleted => ActorEventView::BackendCompleted,
        }
    }
}

impl ActorEventView {
    /// Whether this event ends the loop.
    pub open spec fn ends_loop(self) -> bool {
        self is ChannelClosed || self is BackendCompleted
    }
}

/// What the actor asks the embedding program to do.
#[derive(Debug, PartialEq, Eq)]
pub enum ActorAction {
    /// Nothing.
    Nothing,
    /// Send this notification to the user interface.
    Notify(Notification),
    /// Upload these bytes as media of this kind, then report
    /// [`ActorEvent::UploadFinished`].
    Upload { media_data: Vec<u8>, media_type: MediaKind },
    /// Send this message to this recipient, then report
    /// [`ActorEvent::SendFinished`].
    Send { jid: RecipientId, message: OutboundMessage },
    /// Write this reply into the reply slot of the command in flight.
    Reply(Result<String, String>),
}

/// The mathematical value of an [`ActorAction`].
pub enum ActorActionView {
    Nothing,
    Notify(NotificationView),
    Upload { media_data: Seq<u8>, media_type: MediaKind },
    Send { jid: RecipientIdView, message: OutboundMessageView },
    Reply(Result<Seq<char>, Seq<char>>),
}

impl View for ActorAction {
    type V = ActorActionView;

    open spec fn view(&self) -> ActorActionView {
        match self {
            ActorAction::Nothing => ActorActionView::Nothing,
            ActorAction::Notify(notification) => ActorActionView::Notify(notification@),
            ActorAction::Upload { media_data, media_type } => ActorActionView::Upload {
                media_data: media_data@,
                media_type: *media_type,
            },
            ActorAction::Send { jid, message } => ActorActionView::Send {
                jid: jid@,
                message: message@,
            },
            ActorAction::Reply(reply) => ActorActionView::Reply(reply_text(*reply)),
        }
    }
}

impl ActorActionView {
    /// Whether this action is work for the connection backend.
    pub open spec fn uses_backend(self) -> bool {
        self is Upload || self is Send
    }
}

/// Whether the actor takes an event in a phase.
///
/// Startup reports belong to the starting actor. Lifecycle events are taken
/// by every actor that has not stopped. A command, and the two signals that
/// end the loop, are taken only by the waiting actor. The result of backend
/// work is taken only by the actor that asked for that work.
pub open spec fn enabled(phase: ActorPhaseView, event: ActorEventView) -> bool {
    match event {
        ActorEventView::Started => phase is Starting,
        ActorEventView::StartFailed => phase is Starting,
        ActorEventView::Inbound(_) => !(phase is Stopped),
        ActorEventView::Command(_) => phase is Idle,
        ActorEventView::UploadFinished(_) => phase is Uploading,
        ActorEventView::SendFinished(_) => phase is SendingText || phase is SendingMedia,
        ActorEventView::ChannelClosed => phase is Idle,
        ActorEventView::BackendCompleted => phase is Idle,
    }
}

/// The error text of a reply: the backend's own words behind a few that
/// say what failed.
pub open spec fn failure_text(media: bool, reason: Seq<char>) -> Seq<char> {
    if media {
        "Failed to send media: "@ + reason
    } else {
        "Failed to send: "@ + reason
    }
}

/// The reply to a command whose send has ended: the message identifier, or
/// the error text.
pub open spec fn send_reply_of(media: bool, result: Result<Seq<char>, Seq<char>>) -> Result<
    Seq<char>,
    Seq<char>,
> {
    match result {
        Ok(id) => Ok(id),
        Err(reason) => Err(failure_text(media, reason)),
    }
}

/// The first thing the actor asks of the backend for a command.
pub open spec fn first_action_of(command: BotCommandView) -> ActorActionView {
    match command {
        BotCommandView::SendMessage { jid, message } => ActorActionView::Send { jid, message },
        BotCommandView::SendMediaMessage { media_data, media_type_enum, .. } => {
            ActorActionView::Upload { media_data, media_type: media_type_enum }
        },
    }
}

/// The phase in which the actor waits for the first result of a command.
pub open spec fn first_phase_of(command: BotCommandView) -> ActorPhaseView {
    match command {
        BotCommandView::SendMessage { .. } => ActorPhaseView::SendingText,
        BotCommandView::SendMediaMessage {
            jid,
            media_category,
            mime_type,
            caption,
            file_name,
            ..
        } => ActorPhaseView::Uploading(
            PendingMediaView { jid, media_category, mime_type, caption, file_name },
        ),
    }
}

/// The outcome of one step: the next phase, the shared state after it, and
/// the action to carry out.
pub struct StepView {
    pub phase: ActorPhaseView,
    pub state: WhatsAppState,
    pub action: ActorActionView,
}

/// The actor's transition function.
///
/// An event that is not enabled changes nothing and asks for nothing.
pub open spec fn step_of(
    phase: ActorPhaseView,
    state: WhatsAppState,
    event: ActorEventView,
) -> StepView {
    if !enabled(phase, event) {
        StepView { phase, state, action: ActorActionView::Nothing }
    } else {
        match event {
            ActorEventView::Started => StepView {
                phase: ActorPhaseView::Idle,
                state,
                action: ActorActionView::Nothing,
            },
            ActorEventView::StartFailed => StepView {
                phase: ActorPhaseView::Stopped,
                state,
                action: ActorActionView::Nothing,
            },
            ActorEventView::Inbound(inbound) => StepView {
                phase,
                state: WhatsAppState {
                    sender_published: state.sender_published,
                    status: status_after_event(state.status, inbound),
                },
                action: match notification_of(inbound) {
                    Some(notification) => ActorActionView::Notify(notification),
                    None => ActorActionView::Nothing,
                },
            },
            ActorEventView::Command(command) => StepView {
                phase: first_phase_of(command),
                state,
                action: first_action_of(command),
            },
            ActorEventView::UploadFinished(Ok(uploaded)) => StepView {
                phase: ActorPhaseView::SendingMedia,
                state,
                action: ActorActionView::Send {
                    jid: phase->Uploading_0.jid,
                    message: media_message_of(
                        phase->Uploading_0.media_category,
                        uploaded,
                        phase->Uploading_0.mime_type,
                        phase->Uploading_0.caption,
                        phase->Uploading_0.file_name,
                    ),
                },
            },
            ActorEventView::UploadFinished(Err(reason)) => StepView {
                phase: ActorPhaseView::Idle,
                state,
                action: ActorActionView::Reply(Err(failure_text(true, reason))),
            },
            ActorEventView::SendFinished(result) => StepView {
                phase: ActorPhaseView::Idle,
                state,
                action: ActorActionView::Reply(send_reply_of(phase is SendingMedia, result)),
            },
            ActorEventView::ChannelClosed => StepView {
                phase: ActorPhaseView::Stopped,
                state: WhatsAppState {
                    sender_published: state.sender_published,
                    status: SharedStatus::cleared(),
                },
                action: ActorActionView::Notify(NotificationView::LoggedOut),
            },
            ActorEventView::BackendCompleted => StepView {
                phase: ActorPhaseView::Stopped,
                state: WhatsAppState {
                    sender_published: state.sender_published,
                    status: SharedStatus::cleared(),
                },
                action: ActorActionView::Notify(NotificationView::LoggedOut),
            },
        }
    }
}

/// The session actor. Its phase changes only through [`SessionActor::step`].
#[derive(Debug, PartialEq, Eq)]
pub struct SessionActor {
    phase: ActorPhase,
}

impl View for SessionActor {
    type V = ActorPhaseView;

    closed spec fn view(&self) -> ActorPhaseView {
        self.phase@
    }
}

fn failure(media: bool, reason: String) -> (text: String)
    ensures
        text@ == failure_text(media, reason@),
{
    let prefix = if media {
        "Failed to send media: ".to_string()
    } else {
        "Failed to send: ".to_string()
    };
    prefix.concat(reason.as_str())
}

fn send_reply(media: bool, result: Result<String, String>) -> (reply: Result<String, String>)
    ensures
        reply_text(reply) == send_reply_of(media, reply_text(result)),
{
    match result {
        Ok(id) => Ok(id),
        Err(reason) => Err(failure(media, reason)),
    }
}

impl SessionActor {
    /// An actor whose backend is still to be started.
    pub fn new() -> (actor: SessionActor)
        ensures
            actor@ == ActorPhaseView::Starting,
    {
        SessionActor { phase: ActorPhase::Starting }
    }

    /// The phase the actor is in.
    pub fn phase(&self) -> (phase: &ActorPhase)
        ensures
            phase@ == self@,
    {
        &self.phase
    }

    /// Whether the actor has stopped.
    pub fn is_stopped(&self) -> (stopped: bool)
        ensures
            stopped == (self@ is Stopped),
    {
        match self.phase {
            ActorPhase::Stopped => true,
            _ => false,
        }
    }

    /// Whether the actor waits for the next command.
    pub fn is_idle(&self) -> (idle: bool)
        ensures
            idle == (self@ is Idle),
    {
        match self.phase {
            ActorPhase::Idle => true,
            _ => false,
        }
    }

    /// Whether the actor takes the event in its present phase.
    pub fn accepts(&self, event: &ActorEvent) -> (accepted: bool)
        ensures
            accepted == enabled(self@, event@),
    {
        match event {
            ActorEvent::Started => matches!(self.phase, ActorPhase::Starting),
            ActorEvent::StartFailed => matches!(self.phase, ActorPhase::Starting),
            ActorEvent::Inbound(_) => !matches!(self.phase, ActorPhase::Stopped),
            ActorEvent::Command(_) => matches!(self.phase, ActorPhase::Idle),
            ActorEvent::UploadFinished(_) => matches!(self.phase, ActorPhase::Uploading(_)),
            ActorEvent::SendFinished(_) => matches!(
                self.phase,
                ActorPhase::SendingText | ActorPhase::SendingMedia
            ),
            ActorEvent::ChannelClosed => matches!(self.phase, ActorPhase::Idle),
            ActorEvent::BackendCompleted => matches!(self.phase, ActorPhase::Idle),
        }
    }

    /// Takes one event: moves to the next phase, updates the shared state
    /// and returns the action to carry out.
    pub fn step(&mut self, state: &mut WhatsAppState, event: ActorEvent) -> (action: ActorAction)
        requires
            enabled(old(self)@, event@),
        ensures
            final(self)@ == step_of(old(self)@, *old(state), event@).phase,
            *final(state) == step_of(old(self)@, *old(state), event@).state,
            action@ == step_of(old(self)@, *old(state), event@).action,
    {
        match event {
            ActorEvent::Started => {
                self.phase = ActorPhase::Idle;
                ActorAction::Nothing
            },
            ActorEvent::StartFailed => {
                self.phase = ActorPhase::Stopped;
                ActorAction::Nothing
            },
            ActorEvent::Inbound(inbound) => {
                match handle_event(state, inbound) {
                    Some(notification) => ActorAction::Notify(notification),
                    None => ActorAction::Nothing,
                }
            },
            ActorEvent::Command(BotCommand::SendMessage { jid, message }) => {
                self.phase = ActorPhase::SendingText;
                ActorAction::Send { jid, message }
            },
            ActorEvent::Command(
                BotCommand::SendMediaMessage {
                    jid,
                    media_data,
                    media_type_enum,
                    media_category,
                    mime_type,
                    caption,
                    file_name,
                },
            ) => {
                self.phase = ActorPhase::Uploading(
                    PendingMedia { jid, media_category, mime_type, caption, file_name },
                );
                ActorAction::Upload { media_data, media_type: media_type_enum }
            },
            ActorEvent::UploadFinished(result) => {
                let mut phase = ActorPhase::Idle;
                std::mem::swap(&mut self.phase, &mut phase);
                match (phase, result) {
                    (ActorPhase::Uploading(pending), Ok(uploaded)) => {
                        self.phase = ActorPhase::SendingMedia;
                        let message = media_message(
                            pending.media_category.as_str(),
                            uploaded,
                            pending.mime_type,
                            pending.caption,
                            pending.file_name,
                        );
                        ActorAction::Send { jid: pending.jid, message }
                    },
                    (_, Ok(_)) => ActorAction::Nothing,
                    (_, Err(reason)) => ActorAction::Reply(Err(failure(true, reason))),
                }
            },
            ActorEvent::SendFinished(result) => {
                let media = matches!(self.phase, ActorPhase::SendingMedia);
                self.phase = ActorPhase::Idle;
                ActorAction::Reply(send_reply(media, result))
            },
            ActorEvent::ChannelClosed => self.stop(state),
            ActorEvent::BackendCompleted => self.stop(state),
        }
    }

    /// Ends the loop: readiness is revoked and the user interface is told,
    /// whichever signal ended it.
    fn stop(&mut self, state: &mut WhatsAppState) -> (action: ActorAction)
        ensures
            final(self)@ == ActorPhaseView::Stopped,
            final(state).sender_published == old(state).sender_published,
            final(state).status == SharedStatus::cleared(),
            action@ == ActorActionView::Notify(NotificationView::LoggedOut),
    {
        self.phase = ActorPhase::Stopped;
        state.status = SharedStatus { authenticated: false, ready: false };
        ActorAction::Notify(Notification::LoggedOut)
    }
}

/// Starts a session: publishes the command sender and hands out the actor
/// that will own the connection.
///
/// `storage` is what opening the session store gave. Where the store could
/// not be opened nothing is published, no actor is made and the reason is
/// handed back.
pub fn init_whatsapp(state: &mut WhatsAppState, storage: Result<(), String>) -> (started: Result<
    SessionActor,
    String,
>)
    ensures
        final(state).status == old(state).status,
        final(state).sender_published == (old(state).sender_published || storage is Ok),
        storage is Ok ==> (started matches Ok(actor) && actor@ == ActorPhaseView::Starting),
        storage matches Err(reason) ==> (started matches Err(text) && text@ == reason@),
{
    match storage {
        Ok(()) => {
            state.sender_published = true;
            Ok(SessionActor::new())
        },
        Err(reason) => Err(reason),
    }
}

} // verus!
