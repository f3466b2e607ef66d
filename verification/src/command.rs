//! The command facade: what a caller's request becomes before it is handed
//! to the session actor, and what the caller is told in the end.

use crate::media::{
    classified_extension, display_file_name, get_media_type_and_mime, media_kind_of, mime_for,
    shown_file_name, MediaKind,
};
use crate::message::{text_message, OutboundMessage, OutboundMessageView};
use crate::paths::path_file_name_of;
use crate::recipient::{recipient_id, recipient_of, RecipientId, RecipientIdView};
use crate::status::WhatsAppState;
use crate::text::reply_text;
use vstd::prelude::*;
use vstd::string::*;

verus! {

/// How many commands may wait for the actor before callers are held back.
pub const COMMAND_CHANNEL_CAPACITY: usize = 32;

/// A request on its way to the session actor. The reply slot travels beside
/// it, in the hands of the embedding program.
#[derive(Clone, Debug, PartialEq, Eq)]
pub enum BotCommand {
    /// Send a finished message.
    SendMessage { jid: RecipientId, message: OutboundMessage },
    /// Upload a file, then send the message that carries it.
    SendMediaMessage {
        jid: RecipientId,
        media_data: Vec<u8>,
        media_type_enum: MediaKind,
        media_category: String,
        mime_type: String,
        caption: String,
        file_name: String,
    },
}

/// The mathematical value of a [`BotCommand`].
pub enum BotCommandView {
    SendMessage { jid: RecipientIdView, message: OutboundMessageView },
    SendMediaMessage {
        jid: RecipientIdView,
        media_data: Seq<u8>,
        media_type_enum: MediaKind,
        media_category: Seq<char>,
        mime_type: Seq<char>,
        caption: Seq<char>,
        file_name: Seq<char>,
    },
}

impl View for BotCommand {
    type V = BotCommandView;

    open spec fn view(&self) -> BotCommandView {
        match self {
            BotCommand::SendMessage { jid, message } => BotCommandView::SendMessage {
                jid: jid@,
                message: message@,
            },
            BotCommand::SendMediaMessage {
                jid,
                media_data,
                media_type_enum,
                media_category,
                mime_type,
                caption,
                file_name,
            } => BotCommandView::SendMediaMessage {
                jid: jid@,
                media_data: media_data@,
                media_type_enum: *media_type_enum,
                media_category: media_category@,
                mime_type: mime_type@,
                caption: caption@,
                file_name: file_name@,
            },
        }
    }
}

/// Why a request did not yield a message identifier.
#[derive(Clone, Debug, PartialEq, Eq)]
pub enum CommandError {
    /// No command sender was ever published.
    NotInitialized,
    /// The session is not ready.
    NotReady,
    /// The media file could not be read; the text says why.
    LocalIo(String),
    /// The command could not be enqueued: the actor no longer listens.
    ChannelClosed,
    /// The backend refused or failed; the text says why.
    Backend(String),
    /// The actor ended before it answered.
    ActorUnavailable,
}

/// The mathematical value of a [`CommandError`].
pub enum CommandErrorView {
    NotInitialized,
    NotReady,
    LocalIo(Seq<char>),
    ChannelClosed,
    Backend(Seq<char>),
    ActorUnavailable,
}

impl View for CommandError {
    type V = CommandErrorView;

    open spec fn view(&self) -> CommandErrorView {
        match self {
            CommandError::NotInitialized => CommandErrorView::NotInitialized,
            CommandError::NotReady => CommandErrorView::NotReady,
            CommandError::LocalIo(reason) => CommandErrorView::LocalIo(reason@),
            CommandError::ChannelClosed => CommandErrorView::ChannelClosed,
            CommandError::Backend(reason) => CommandErrorView::Backend(reason@),
            CommandError::ActorUnavailable => CommandErrorView::ActorUnavailable,
        }
    }
}

impl CommandError {
    /// The text shown to the user for each error.
    pub open spec fn text_of(error: CommandErrorView) -> Seq<char> {
        match error {
            CommandErrorView::NotInitialized => "WhatsApp not initialized"@,
            CommandErrorView::NotReady => {
                "WhatsApp is not ready yet. Please wait for connection to complete."@
            },
            CommandErrorView::LocalIo(reason) => reason,
            CommandErrorView::ChannelClosed => "Failed to send command to bot task"@,
            CommandErrorView::Backend(reason) => reason,
            CommandErrorView::ActorUnavailable => "Bot task dropped before responding"@,
        }
    }

    /// The text shown to the user for this error.
    pub fn message(&self) -> (text: String)
        ensures
            text@ == CommandError::text_of(self@),
    {
        match self {
            CommandError::NotInitialized => "WhatsApp not initialized".to_string(),
            CommandError::NotReady => {
                "WhatsApp is not ready yet. Please wait for connection to complete.".to_string()
            },
            CommandError::LocalIo(reason) => reason.clone(),
            CommandError::ChannelClosed => "Failed to send command to bot task".to_string(),
            CommandError::Backend(reason) => reason.clone(),
            CommandError::ActorUnavailable => "Bot task dropped before responding".to_string(),
        }
    }
}

/// A request as a mathematical value: what `Ok` holds, or the error.
pub open spec fn request_view(request: Result<BotCommand, CommandError>) -> Result<
    BotCommandView,
    CommandErrorView,
> {
    match request {
        Ok(command) => Ok(command@),
        Err(error) => Err(error@),
    }
}

/// The command that sends a text to a contact.
pub open spec fn text_command_of(contact: Seq<char>, message: Seq<char>) -> BotCommandView {
    BotCommandView::SendMessage {
        jid: recipient_of(contact),
        message: OutboundMessageView::Text { text: message },
    }
}

/// What a text request comes to in a given state: refused while the session
/// is not ready, whatever else holds; refused where no sender was published;
/// otherwise the command to enqueue.
pub open spec fn text_request_of(
    state: WhatsAppState,
    contact: Seq<char>,
    message: Seq<char>,
) -> Result<BotCommandView, CommandErrorView> {
    if !state.status.ready {
        Err(CommandErrorView::NotReady)
    } else if !state.sender_published {
        Err(CommandErrorView::NotInitialized)
    } else {
        Ok(text_command_of(contact, message))
    }
}

/// The command that uploads a file's bytes and sends them to a contact.
pub open spec fn media_command_of(
    contact: Seq<char>,
    message_text: Seq<char>,
    media_path: Seq<char>,
    media_type: Seq<char>,
    media_data: Seq<u8>,
) -> BotCommandView {
    BotCommandView::SendMediaMessage {
        jid: recipient_of(contact),
        media_data,
        media_type_enum: media_kind_of(media_type),
        media_category: media_type,
        mime_type: mime_for(media_kind_of(media_type), classified_extension(media_path)),
        caption: message_text,
        file_name: shown_file_name(path_file_name_of(media_path)),
    }
}

/// A file's content as a mathematical value: its bytes, or why it could not
/// be read.
pub open spec fn file_view(file: Result<Vec<u8>, String>) -> Result<Seq<u8>, Seq<char>> {
    match file {
        Ok(bytes) => Ok(bytes@),
        Err(reason) => Err(reason@),
    }
}

/// What a media request comes to in a given state: refused while the
/// session is not ready, whatever else holds; then refused where the file
/// could not be read; then refused where no sender was published; otherwise
/// the command to enqueue.
pub open spec fn media_request_of(
    state: WhatsAppState,
    contact: Seq<char>,
    message_text: Seq<char>,
    media_path: Seq<char>,
    media_type: Seq<char>,
    file: Result<Seq<u8>, Seq<char>>,
) -> Result<BotCommandView, CommandErrorView> {
    if !state.status.ready {
        Err(CommandErrorView::NotReady)
    } else {
        match file {
            Err(reason) => Err(CommandErrorView::LocalIo(reason)),
            Ok(media_data) => {
                if !state.sender_published {
                    Err(CommandErrorView::NotInitialized)
                } else {
                    Ok(media_command_of(contact, message_text, media_path, media_type, media_data))
                }
            },
        }
    }
}

/// Refuses a request while the session is not ready. A caller that has to
/// read a file first asks this before it reads.
pub fn ensure_ready(state: &WhatsAppState) -> (gate: Result<(), CommandError>)
    ensures
        state.status.ready ==> gate is Ok,
        !state.status.ready ==> (gate matches Err(error) && error@ == CommandErrorView::NotReady),
{
    if state.status.ready {
        Ok(())
    } else {
        Err(CommandError::NotReady)
    }
}

/// Prepares the command that sends a text to a contact.
///
/// The caller enqueues the command and waits for the reply, which
/// [`command_result`] turns into the final answer.
pub fn send_message(contact: String, message: String, state: &WhatsAppState) -> (request: Result<
    BotCommand,
    CommandError,
>)
    ensures
        request_view(request) == text_request_of(*state, contact@, message@),
        !state.status.ready ==> (request matches Err(error) && error@
            == CommandErrorView::NotReady),
{
    if !state.status.ready {
        return Err(CommandError::NotReady);
    }
    let jid = recipient_id(contact.as_str());
    let wa_message = text_message(message);
    if !state.sender_published {
        return Err(CommandError::NotInitialized);
    }
    Ok(BotCommand::SendMessage { jid, message: wa_message })
}

/// Prepares the command that uploads a file and sends it to a contact.
///
/// `media_data` is what reading the file at `media_path` gave: its bytes,
/// or the reason why it could not be read.
pub fn send_media_message(
    contact: String,
    message_text: String,
    media_path: String,
    media_type: String,
    media_data: Result<Vec<u8>, String>,
    state: &WhatsAppState,
) -> (request: Result<BotCommand, CommandError>)
    ensures
        request_view(request) == media_request_of(
            *state,
            contact@,
            message_text@,
            media_path@,
            media_type@,
            file_view(media_data),
        ),
        !state.status.ready ==> (request matches Err(error) && error@
            == CommandErrorView::NotReady),
{
    if !state.status.ready {
        return Err(CommandError::NotReady);
    }
    let jid = recipient_id(contact.as_str());
    let media_data = match media_data {
        Ok(bytes) => bytes,
        Err(reason) => {
            return Err(CommandError::LocalIo(reason));
        },
    };
    let (media_type_enum, mime_type) = get_media_type_and_mime(
        media_type.as_str(),
        media_path.as_str(),
    );
    let file_name = display_file_name(media_path.as_str());
    if !state.sender_published {
        return Err(CommandError::NotInitialized);
    }
    Ok(
        BotCommand::SendMediaMessage {
            jid,
            media_data,
            media_type_enum,
            media_category: media_type,
            mime_type,
            caption: message_text,
            file_name,
        },
    )
}

/// What became of a command that a caller tried to hand to the actor.
#[derive(Debug, PartialEq, Eq)]
pub enum Delivery {
    /// The command channel did not take the command: its receiver is gone.
    Refused,
    /// The actor answered: a message identifier, or the backend's error.
    Answered(Result<String, String>),
    /// The reply slot was dropped unanswered: the actor has ended.
    Dropped,
}

/// The mathematical value of a [`Delivery`].
pub enum DeliveryView {
    Refused,
    Answered(Result<Seq<char>, Seq<char>>),
    Dropped,
}

impl View for Delivery {
    type V = DeliveryView;

    open spec fn view(&self) -> DeliveryView {
        match self {
            Delivery::Refused => DeliveryView::Refused,
            Delivery::Answered(reply) => DeliveryView::Answered(reply_text(*reply)),
            Delivery::Dropped => DeliveryView::Dropped,
        }
    }
}

/// A final answer as a mathematical value.
pub open spec fn answer_view(answer: Result<String, CommandError>) -> Result<
    Seq<char>,
    CommandErrorView,
> {
    match answer {
        Ok(id) => Ok(id@),
        Err(error) => Err(error@),
    }
}

/// The answer a caller gets for each way a delivery can end.
pub open spec fn answer_of(delivery: DeliveryView) -> Result<Seq<char>, CommandErrorView> {
    match delivery {
        DeliveryView::Refused => Err(CommandErrorView::ChannelClosed),
        DeliveryView::Answered(Ok(id)) => Ok(id),
        DeliveryView::Answered(Err(reason)) => Err(CommandErrorView::Backend(reason)),
        DeliveryView::Dropped => Err(CommandErrorView::ActorUnavailable),
    }
}

/// Turns the end of a delivery into the caller's answer: the message
/// identifier, the backend's error, the report that the command could not
/// be enqueued, or the report that the actor ended before it answered.
pub fn command_result(delivery: Delivery) -> (answer: Result<String, CommandError>)
    ensures
        answer_view(answer) == answer_of(delivery@),
{
    match delivery {
        Delivery::Refused => Err(CommandError::ChannelClosed),
        Delivery::Answered(Ok(id)) => Ok(id),
        Delivery::Answered(Err(reason)) => Err(CommandError::Backend(reason)),
        Delivery::Dropped => Err(CommandError::ActorUnavailable),
    }
}

} // verus!
