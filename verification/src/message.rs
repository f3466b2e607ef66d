//! Outbound payloads: what the actor hands to the connection backend.

use crate::text::{optional_text, same_text};
use vstd::prelude::*;
use vstd::string::*;

verus! {

/// What the backend reports about an uploaded file. The session core never
/// interprets these fields; it copies them into the outbound message.
#[derive(Clone, Debug, PartialEq, Eq)]
pub struct UploadedMedia {
    pub url: String,
    pub direct_path: String,
    pub media_key: Vec<u8>,
    pub file_enc_sha256: Vec<u8>,
    pub file_sha256: Vec<u8>,
    pub file_length: u64,
}

/// The mathematical value of an [`UploadedMedia`].
pub struct UploadedMediaView {
    pub url: Seq<char>,
    pub direct_path: Seq<char>,
    pub media_key: Seq<u8>,
    pub file_enc_sha256: Seq<u8>,
    pub file_sha256: Seq<u8>,
    pub file_length: u64,
}

impl View for UploadedMedia {
    type V = UploadedMediaView;

    open spec fn view(&self) -> UploadedMediaView {
        UploadedMediaView {
            url: self.url@,
            direct_path: self.direct_path@,
            media_key: self.media_key@,
            file_enc_sha256: self.file_enc_sha256@,
            file_sha256: self.file_sha256@,
            file_length: self.file_length,
        }
    }
}

/// A message on its way to a recipient.
#[derive(Clone, Debug, PartialEq, Eq)]
pub enum OutboundMessage {
    /// Plain text.
    Text { text: String },
    /// An uploaded image, with a caption where the caller gave one.
    Image { media: UploadedMedia, mimetype: String, caption: Option<String> },
    /// An uploaded video, with a caption where the caller gave one.
    Video { media: UploadedMedia, mimetype: String, caption: Option<String> },
    /// Any other uploaded file, under the name shown for it.
    Document { media: UploadedMedia, mimetype: String, file_name: String },
}

/// The mathematical value of an [`OutboundMessage`].
pub enum OutboundMessageView {
    Text { text: Seq<char> },
    Image { media: UploadedMediaView, mimetype: Seq<char>, caption: Option<Seq<char>> },
    Video { media: UploadedMediaView, mimetype: Seq<char>, caption: Option<Seq<char>> },
    Document { media: UploadedMediaView, mimetype: Seq<char>, file_name: Seq<char> },
}

impl View for OutboundMessage {
    type V = OutboundMessageView;

    open spec fn view(&self) -> OutboundMessageView {
        match self {
            OutboundMessage::Text { text } => OutboundMessageView::Text { text: text@ },
            OutboundMessage::Image { media, mimetype, caption } => OutboundMessageView::Image {
                media: media@,
                mimetype: mimetype@,
                caption: optional_text(*caption),
            },
            OutboundMessage::Video { media, mimetype, caption } => OutboundMessageView::Video {
                media: media@,
                mimetype: mimetype@,
                caption: optional_text(*caption),
            },
            OutboundMessage::Document { media, mimetype, file_name } => {
                OutboundMessageView::Document {
                    media: media@,
                    mimetype: mimetype@,
                    file_name: file_name@,
                }
            },
        }
    }
}

/// The caption a message carries: none where the caller's text is empty.
pub open spec fn caption_of(caption: Seq<char>) -> Option<Seq<char>> {
    if caption.len() == 0 {
        None
    } else {
        Some(caption)
    }
}

/// The message that carries an uploaded file.
///
/// The category is the caller's label as written: `image` and `video` give
/// a message of that family with the optional caption, every other label a
/// document under its file name. The upload's fields are taken over as they
/// are.
pub open spec fn media_message_of(
    category: Seq<char>,
    uploaded: UploadedMediaView,
    mime_type: Seq<char>,
    caption: Seq<char>,
    file_name: Seq<char>,
) -> OutboundMessageView {
    if category == "image"@ {
        OutboundMessageView::Image {
            media: uploaded,
            mimetype: mime_type,
            caption: caption_of(caption),
        }
    } else if category == "video"@ {
        OutboundMessageView::Video {
            media: uploaded,
            mimetype: mime_type,
            caption: caption_of(caption),
        }
    } else {
        OutboundMessageView::Document { media: uploaded, mimetype: mime_type, file_name }
    }
}

/// Wraps a body in a text message.
pub fn text_message(body: String) -> (message: OutboundMessage)
    ensures
        message@ == (OutboundMessageView::Text { text: body@ }),
{
    OutboundMessage::Text { text: body }
}

fn caption(text: String) -> (caption: Option<String>)
    ensures
        optional_text(caption) == caption_of(text@),
{
    if text.as_str().is_empty() {
        None
    } else {
        Some(text)
    }
}

/// Assembles the message for an uploaded file.
pub fn media_message(
    category: &str,
    uploaded: UploadedMedia,
    mime_type: String,
    caption_text: String,
    file_name: String,
) -> (message: OutboundMessage)
    ensures
        message@ == media_message_of(
            category@,
            uploaded@,
            mime_type@,
            caption_text@,
            file_name@,
        ),
{
    if same_text(category, "image") {
        OutboundMessage::Image { media: uploaded, mimetype: mime_type, caption: caption(caption_text) }
    } else if same_text(category, "video") {
        OutboundMessage::Video { media: uploaded, mimetype: mime_type, caption: caption(caption_text) }
    } else {
        OutboundMessage::Document { media: uploaded, mimetype: mime_type, file_name }
    }
}

} // verus!
