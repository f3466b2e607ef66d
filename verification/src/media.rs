//! Media classification: from a caller's label and a file path to the
//! protocol's media kind, the MIME type and the name shown for the file.

use crate::paths::{path_extension, path_extension_of, path_file_name, path_file_name_of};
use crate::text::{lowercase_of, same_text, to_lowercase};
use vstd::prelude::*;
use vstd::string::*;

verus! {

/// The media families of the protocol.
#[derive(Clone, Copy, Debug, PartialEq, Eq, Structural)]
pub enum MediaKind {
    Image,
    Video,
    Audio,
    Document,
}

/// The kind a caller's label stands for. Labels are matched as written;
/// every label that is not one of the three known ones means a document.
pub open spec fn media_kind_of(label: Seq<char>) -> MediaKind {
    if label == "image"@ {
        MediaKind::Image
    } else if label == "video"@ {
        MediaKind::Video
    } else if label == "audio"@ {
        MediaKind::Audio
    } else {
        MediaKind::Document
    }
}

/// The MIME type of an image with the given lowercase extension.
pub open spec fn image_mime(extension: Seq<char>) -> Seq<char> {
    if extension == "jpg"@ || extension == "jpeg"@ {
        "image/jpeg"@
    } else if extension == "png"@ {
        "image/png"@
    } else if extension == "gif"@ {
        "image/gif"@
    } else if extension == "webp"@ {
        "image/webp"@
    } else {
        "image/jpeg"@
    }
}

/// The MIME type of a video with the given lowercase extension.
pub open spec fn video_mime(extension: Seq<char>) -> Seq<char> {
    if extension == "mp4"@ {
        "video/mp4"@
    } else if extension == "mov"@ {
        "video/quicktime"@
    } else if extension == "avi"@ {
        "video/x-msvideo"@
    } else if extension == "mkv"@ {
        "video/x-matroska"@
    } else {
        "video/mp4"@
    }
}

/// The MIME type of an audio file with the given lowercase extension.
pub open spec fn audio_mime(extension: Seq<char>) -> Seq<char> {
    if extension == "mp3"@ {
        "audio/mpeg"@
    } else if extension == "ogg"@ {
        "audio/ogg"@
    } else if extension == "wav"@ {
        "audio/wav"@
    } else if extension == "m4a"@ {
        "audio/mp4"@
    } else {
        "audio/mpeg"@
    }
}

/// The MIME type of a document with the given lowercase extension.
pub open spec fn document_mime(extension: Seq<char>) -> Seq<char> {
    if extension == "pdf"@ {
        "application/pdf"@
    } else if extension == "doc"@ {
        "application/msword"@
    } else if extension == "docx"@ {
        "application/vnd.openxmlformats-officedocument.wordprocessingml.document"@
    } else if extension == "xls"@ {
        "application/vnd.ms-excel"@
    } else if extension == "xlsx"@ {
        "application/vnd.openxmlformats-officedocument.spreadsheetml.sheet"@
    } else if extension == "zip"@ {
        "application/zip"@
    } else if extension == "txt"@ {
        "text/plain"@
    } else {
        "application/octet-stream"@
    }
}

/// The MIME type for a kind and a lowercase extension. An extension that
/// the kind's table does not list gives the kind's generic type.
pub open spec fn mime_for(kind: MediaKind, extension: Seq<char>) -> Seq<char> {
    match kind {
        MediaKind::Image => image_mime(extension),
        MediaKind::Video => video_mime(extension),
        MediaKind::Audio => audio_mime(extension),
        MediaKind::Document => document_mime(extension),
    }
}

/// The extension that classification goes by: the one the path parser
/// reports, in lowercase, and the empty text where it reports none.
pub open spec fn classified_extension(path: Seq<char>) -> Seq<char> {
    match path_extension_of(path) {
        Some(extension) => lowercase_of(extension),
        None => lowercase_of(""@),
    }
}

/// The name shown for a file when its path has no final component.
pub open spec fn default_file_name() -> Seq<char> {
    "document"@
}

/// The name shown for a file, given the final component of its path.
pub open spec fn shown_file_name(component: Option<Seq<char>>) -> Seq<char> {
    match component {
        Some(name) => name,
        None => default_file_name(),
    }
}

/// Reads a caller's label as a media kind.
pub fn media_kind(label: &str) -> (kind: MediaKind)
    ensures
        kind == media_kind_of(label@),
{
    if same_text(label, "image") {
        MediaKind::Image
    } else if same_text(label, "video") {
        MediaKind::Video
    } else if same_text(label, "audio") {
        MediaKind::Audio
    } else {
        MediaKind::Document
    }
}

fn image_mime_type(extension: &str) -> (mime: &'static str)
    ensures
        mime@ == image_mime(extension@),
{
    if same_text(extension, "jpg") || same_text(extension, "jpeg") {
        "image/jpeg"
    } else if same_text(extension, "png") {
        "image/png"
    } else if same_text(extension, "gif") {
        "image/gif"
    } else if same_text(extension, "webp") {
        "image/webp"
    } else {
        "image/jpeg"
    }
}

fn video_mime_type(extension: &str) -> (mime: &'static str)
    ensures
        mime@ == video_mime(extension@),
{
    if same_text(extension, "mp4") {
        "video/mp4"
    } else if same_text(extension, "mov") {
        "video/quicktime"
    } else if same_text(extension, "avi") {
        "video/x-msvideo"
    } else if same_text(extension, "mkv") {
        "video/x-matroska"
    } else {
        "video/mp4"
    }
}

fn audio_mime_type(extension: &str) -> (mime: &'static str)
    ensures
        mime@ == audio_mime(extension@),
{
    if same_text(extension, "mp3") {
        "audio/mpeg"
    } else if same_text(extension, "ogg") {
        "audio/ogg"
    } else if same_text(extension, "wav") {
        "audio/wav"
    } else if same_text(extension, "m4a") {
        "audio/mp4"
    } else {
        "audio/mpeg"
    }
}

fn document_mime_type(extension: &str) -> (mime: &'static str)
    ensures
        mime@ == document_mime(extension@),
{
    if same_text(extension, "pdf") {
        "application/pdf"
    } else if same_text(extension, "doc") {
        "application/msword"
    } else if same_text(extension, "docx") {
        "application/vnd.openxmlformats-officedocument.wordprocessingml.document"
    } else if same_text(extension, "xls") {
        "application/vnd.ms-excel"
    } else if same_text(extension, "xlsx") {
        "application/vnd.openxmlformats-officedocument.spreadsheetml.sheet"
    } else if same_text(extension, "zip") {
        "application/zip"
    } else if same_text(extension, "txt") {
        "text/plain"
    } else {
        "application/octet-stream"
    }
}

/// Looks up the MIME type for a kind and a lowercase extension.
pub fn mime_type_for(kind: MediaKind, extension: &str) -> (mime: String)
    ensures
        mime@ == mime_for(kind, extension@),
{
    let mime = match kind {
        MediaKind::Image => image_mime_type(extension),
        MediaKind::Video => video_mime_type(extension),
        MediaKind::Audio => audio_mime_type(extension),
        MediaKind::Document => document_mime_type(extension),
    };
    mime.to_string()
}

/// Classifies a file by the caller's label and the extension of its path.
///
/// The kind follows from the label alone. The MIME type is looked up under
/// the lowercase form of the extension that the path parser reports.
pub fn get_media_type_and_mime(type_str: &str, file_path: &str) -> (classified: (MediaKind, String))
    ensures
        classified.0 == media_kind_of(type_str@),
        classified.1@ == mime_for(media_kind_of(type_str@), classified_extension(file_path@)),
{
    let extension = match path_extension(file_path) {
        Some(reported) => to_lowercase(reported.as_str()),
        None => to_lowercase(""),
    };
    let kind = media_kind(type_str);
    let mime = mime_type_for(kind, extension.as_str());
    (kind, mime)
}

/// The name shown for a file whose path has the given final component:
/// the component itself, and `document` where there is none.
pub fn file_name_or_default(component: Option<String>) -> (name: String)
    ensures
        name@ == shown_file_name(crate::text::optional_text(component)),
{
    match component {
        Some(name) => name,
        None => "document".to_string(),
    }
}

/// The name shown for the file at a path: its final component, as the path
/// parser reports it, and `document` where the path has none.
pub fn display_file_name(media_path: &str) -> (name: String)
    ensures
        name@ == shown_file_name(path_file_name_of(media_path@)),
{
    file_name_or_default(path_file_name(media_path))
}

} // verus!
