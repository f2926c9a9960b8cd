//! Files: sending them, and saving those that messages carry.

use matrix_sdk::ruma::events::room::message::MessageType::{
    Audio as AudioMessage, File as FileMessage, Image as ImageMessage, Video as VideoMessage,
};
use matrix_sdk::ruma::events::room::MediaSource;
use matrix_sdk::ruma::events::AnySyncMessageLikeEvent::RoomMessage;
use matrix_sdk::ruma::events::AnySyncTimelineEvent::MessageLike;
use matrix_sdk::ruma::events::SyncMessageLikeEvent::Original;
use vstd::prelude::*;

use crate::json::{no_members, optional_json, Fields, Json, JsonView};
use crate::manager::MatrixManager;
use crate::media::EventKind::{Audio, File, Image, Video};
use crate::outcome::{fails_with, step_error};
use crate::path::{
    extension, extension_of, file_name, file_name_of, law_extension_is_behind_the_last_dot,
    law_file_name_is_the_last_component, one_component, two_dots,
};
use crate::text::{copied, in_context, owned, slice_text, text_of, with_context};

verus! {

/// The MIME type that `mime_guess` has for a file extension.
pub uninterp spec fn mime_type(extension: Seq<char>) -> Seq<char>;

/// `mime_guess::from_ext`, and of what it finds the first, or `application/octet-stream` if it
/// finds nothing - as it does for an empty extension. Which type it has for other extensions is not
/// said here; it depends on the extension alone.
#[verifier::external_body]
fn guess_mime_type(extension: &str) -> (found: String)
    ensures
        found@ == mime_type(extension@),
        extension@.len() == 0 ==> found@ == "application/octet-stream"@,
{
    mime_guess::from_ext(extension).first_or_octet_stream().to_string()
}

/// The extension that decides on the MIME type of a file: that of its name. No extension, or no
/// name, is as good as an empty extension.
pub open spec fn deciding_extension(path: Seq<char>) -> Seq<char> {
    match file_name_of(path) {
        Some(name) => match extension_of(name) {
            Some(extension) => extension,
            None => Seq::empty(),
        },
        None => Seq::empty(),
    }
}

/// The MIME type of a file, guessed from its extension.
pub fn content_type_of(path: &str) -> (content_type: String)
    ensures
        content_type@ == mime_type(deciding_extension(path@)),
        deciding_extension(path@).len() == 0 ==> content_type@ == "application/octet-stream"@,
{
    let found = match file_name(path) {
        Some(name) => extension(&name),
        None => None,
    };
    match found {
        Some(extension) => guess_mime_type(&extension),
        None => guess_mime_type(&String::new()),
    }
}

/// The name under which a file is sent: that of its path, if it has one.
pub open spec fn sent_name(path: Seq<char>) -> Seq<char> {
    match file_name_of(path) {
        Some(name) => name,
        None => "file"@,
    }
}

/// A file to send.
pub struct FileRequest {
    pub room_id: String,
    pub path: String,
    pub content_type: String,
    pub filename: String,
    pub caption: Option<String>,
}

/// What is uploaded, and sent as an attachment.
pub struct Upload {
    pub filename: String,
    pub content_type: String,
    pub caption: Option<String>,
    pub data: Vec<u8>,
}

/// Where media can be had, as the `MediaSource` of `ruma` tells it: the address of a file in the
/// clear, or that of an encrypted file along with its keys. The library only hands it on.
#[verifier::external_type_specification]
#[verifier::external_body]
pub struct ExMediaSource(matrix_sdk::ruma::events::room::MediaSource);

/// What an event is, for the purpose of downloading what it carries. A message that carries a file
/// comes with the body of the message, the name of the file, its MIME type and its source.
pub enum EventKind {
    Image(String, Option<String>, Option<String>, MediaSource),
    Video(String, Option<String>, Option<String>, MediaSource),
    Audio(String, Option<String>, Option<String>, MediaSource),
    File(String, Option<String>, Option<String>, MediaSource),
    /// A message that carries nothing to download.
    OtherMessage,
    /// Not a message, or one that was redacted.
    Other,
}

/// A file that a message carries: the body of the message, the name of the file, its MIME type and
/// its source.
pub ghost struct Attachment {
    pub body: Seq<char>,
    pub filename: Option<Seq<char>>,
    pub mimetype: Option<Seq<char>>,
    pub source: MediaSource,
}

pub ghost enum EventKindView {
    Image(Attachment),
    Video(Attachment),
    Audio(Attachment),
    File(Attachment),
    OtherMessage,
    Other,
}

pub open spec fn attached(
    body: String,
    filename: Option<String>,
    mimetype: Option<String>,
    source: MediaSource,
) -> Attachment {
    Attachment { body: body@, filename: text_of(filename), mimetype: text_of(mimetype), source }
}

impl View for EventKind {
    type V = EventKindView;

    open spec fn view(&self) -> EventKindView {
        match *self {
            EventKind::Image(body, filename, mimetype, source) => EventKindView::Image(
                attached(body, filename, mimetype, source),
            ),
            EventKind::Video(body, filename, mimetype, source) => EventKindView::Video(
                attached(body, filename, mimetype, source),
            ),
            EventKind::Audio(body, filename, mimetype, source) => EventKindView::Audio(
                attached(body, filename, mimetype, source),
            ),
            EventKind::File(body, filename, mimetype, source) => EventKindView::File(
                attached(body, filename, mimetype, source),
            ),
            EventKind::OtherMessage => EventKindView::OtherMessage,
            EventKind::Other => EventKindView::Other,
        }
    }
}

/// What reading an event gave: its kind, or why it cannot be read.
pub open spec fn kind_view(kind: Result<EventKind, String>) -> Result<EventKindView, Seq<char>> {
    match kind {
        Ok(kind) => Ok(kind@),
        Err(cause) => Err(cause@),
    }
}

/// What the event types of `ruma` find in the JSON of an event: what kind of event it is, or why
/// it is none that they understand.
pub uninterp spec fn event_kind_in(json: Seq<char>) -> Result<EventKindView, Seq<char>>;

/// `serde_json::from_str` to an `AnySyncTimelineEvent` of `ruma`. What it makes of an event depends
/// on the JSON alone; an event is a message if it is a room message with its content still there.
/// Of a message that carries an image, a video, a sound or a file, the body, the file name, the
/// MIME type and the source are taken as they are found. Which JSON makes which event is not said
/// here.
#[verifier::external_body]
fn ruma_event_kind(json: &str) -> (kind: Result<EventKind, String>)
    ensures
        kind_view(kind) == event_kind_in(json@),
{
    serde_json::from_str(json).map(|event| match event {
        MessageLike(RoomMessage(Original(event))) => match event.content.msgtype {
            ImageMessage(c) => Image(c.body, c.filename, c.info.and_then(|i| i.mimetype), c.source),
            VideoMessage(c) => Video(c.body, c.filename, c.info.and_then(|i| i.mimetype), c.source),
            AudioMessage(c) => Audio(c.body, c.filename, c.info.and_then(|i| i.mimetype), c.source),
            FileMessage(c) => File(c.body, c.filename, c.info.and_then(|i| i.mimetype), c.source),
            _ => EventKind::OtherMessage,
        },
        _ => EventKind::Other,
    }).map_err(|e| e.to_string())
}

/// The attachment that an event carries, if it does.
pub open spec fn attachment_of(kind: EventKindView) -> Option<Attachment> {
    match kind {
        EventKindView::Image(attachment) => Some(attachment),
        EventKindView::Video(attachment) => Some(attachment),
        EventKindView::Audio(attachment) => Some(attachment),
        EventKindView::File(attachment) => Some(attachment),
        _ => None,
    }
}

/// The name of an attachment: its file name, or else the body of the message.
pub open spec fn attachment_name(attachment: Attachment) -> Seq<char> {
    match attachment.filename {
        Some(filename) => filename,
        None => attachment.body,
    }
}

/// A download of what an event carries.
pub struct DownloadRequest {
    pub room_id: String,
    pub event_id: String,
    pub save_path: String,
}

/// How fetching the event failed.
pub enum FetchFailure {
    Fetch(String),
    /// The event is not one that is understood.
    Read(String),
}

/// A download to write to a file.
pub struct SavedFile {
    pub path: String,
    pub data: Vec<u8>,
}

/// The media to download.
pub struct Media {
    pub filename: String,
    pub mimetype: Option<String>,
    /// Where it can be had.
    pub source: MediaSource,
}

/// Whether what is to be downloaded is what an event carries.
pub open spec fn media_from(media: Media, kind: EventKindView) -> bool {
    match attachment_of(kind) {
        Some(attachment) => {
            &&& media.filename@ == attachment_name(attachment)
            &&& text_of(media.mimetype) == attachment.mimetype
            &&& media.source == attachment.source
        },
        None => false,
    }
}

/// The error of an event whose media is to be downloaded, if it carries none.
pub open spec fn kind_error(event_id: Seq<char>, kind: EventKindView) -> Option<Seq<char>> {
    if kind is Other {
        Some("event "@ + event_id + " is not a message"@)
    } else if attachment_of(kind) is None {
        Some("event "@ + event_id + " has no downloadable media"@)
    } else {
        None
    }
}

/// The error of an event whose media is to be downloaded, if that cannot be done.
pub open spec fn media_error(event_id: Seq<char>, outcome: Result<EventKind, FetchFailure>) -> Option<
    Seq<char>,
> {
    match outcome {
        Err(FetchFailure::Fetch(cause)) => Some(in_context("failed to fetch event"@, cause@)),
        Err(FetchFailure::Read(cause)) => Some(in_context("failed to deserialize event"@, cause@)),
        Ok(kind) => kind_error(event_id, kind@),
    }
}

/// The error of an event whose media is to be downloaded, given its JSON, if that cannot be done.
pub open spec fn fetched_error(event_id: Seq<char>, event: Result<&str, String>) -> Option<
    Seq<char>,
> {
    match event {
        Err(cause) => Some(in_context("failed to fetch event"@, cause@)),
        Ok(json) => match event_kind_in(json@) {
            Err(cause) => Some(in_context("failed to deserialize event"@, cause)),
            Ok(kind) => kind_error(event_id, kind),
        },
    }
}

pub open spec fn saved_json(request: DownloadRequest, media: Media, bytes_written: nat) -> JsonView {
    JsonView::Object(
        no_members().push(("room_id"@, JsonView::Text(request.room_id@))).push(
            ("event_id"@, JsonView::Text(request.event_id@)),
        ).push(("path"@, JsonView::Text(request.save_path@))).push(
            ("filename"@, JsonView::Text(media.filename@)),
        ).push(("mime_type"@, optional_json(text_of(media.mimetype)))).push(
            ("bytes_written"@, JsonView::Count(bytes_written)),
        ),
    )
}

/// What is uploaded of a file that was read, or was not: all of it, as it was asked for.
pub open spec fn uploaded(
    request: FileRequest,
    read: Result<Vec<u8>, String>,
    upload: Result<Upload, String>,
) -> bool {
    &&& fails_with(upload, step_error(read, "failed to read file '"@ + request.path@ + "'"@))
    &&& upload matches Ok(upload) ==> {
        &&& upload.filename@ == request.filename@
        &&& upload.content_type@ == request.content_type@
        &&& upload.caption == request.caption
        &&& upload.data@ == read->Ok_0@
    }
}

/// What is written of media that was downloaded, or was not: all of it, to the path that was asked
/// for.
pub open spec fn downloaded(
    request: DownloadRequest,
    received: Result<Vec<u8>, String>,
    file: Result<SavedFile, String>,
) -> bool {
    &&& fails_with(file, step_error(received, "failed to download media"@))
    &&& file matches Ok(file) ==> file.path@ == request.save_path@ && file.data@
        == received->Ok_0@
}

fn take_attachment(
    body: String,
    filename: Option<String>,
    mimetype: Option<String>,
    source: MediaSource,
) -> (media: Media)
    ensures
        media.filename@ == attachment_name(attached(body, filename, mimetype, source)),
        media.mimetype == mimetype,
        media.source == source,
{
    Media {
        filename: match filename {
            Some(filename) => filename,
            None => body,
        },
        mimetype,
        source,
    }
}

impl DownloadRequest {
    /// Reacts to the event that was fetched, which is given as JSON: the media that is to be
    /// downloaded.
    pub fn on_fetched(&self, event: Result<&str, String>) -> (media: Result<Media, String>)
        ensures
            fails_with(media, fetched_error(self.event_id@, event)),
            media matches Ok(media) ==> {
                &&& event is Ok
                &&& event_kind_in(event->Ok_0@) is Ok
                &&& media_from(media, event_kind_in(event->Ok_0@)->Ok_0)
            },
    {
        match event {
            Ok(json) => match ruma_event_kind(json) {
                Ok(kind) => self.on_event(Ok(kind)),
                Err(cause) => self.on_event(Err(FetchFailure::Read(cause))),
            },
            Err(cause) => self.on_event(Err(FetchFailure::Fetch(cause))),
        }
    }

    /// Reacts to the kind of the event that was fetched: the media that is to be downloaded.
    pub fn on_event(&self, outcome: Result<EventKind, FetchFailure>) -> (media: Result<
        Media,
        String,
    >)
        ensures
            fails_with(media, media_error(self.event_id@, outcome)),
            media matches Ok(media) ==> outcome is Ok && media_from(media, outcome->Ok_0@),
    {
        match outcome {
            Err(FetchFailure::Fetch(cause)) => Err(with_context("failed to fetch event", &cause)),
            Err(FetchFailure::Read(cause)) => Err(
                with_context("failed to deserialize event", &cause),
            ),
            Ok(EventKind::Other) => Err(
                "event ".to_owned().concat(&self.event_id).concat(" is not a message"),
            ),
            Ok(EventKind::Image(body, filename, mimetype, source)) => Ok(
                take_attachment(body, filename, mimetype, source),
            ),
            Ok(EventKind::Video(body, filename, mimetype, source)) => Ok(
                take_attachment(body, filename, mimetype, source),
            ),
            Ok(EventKind::Audio(body, filename, mimetype, source)) => Ok(
                take_attachment(body, filename, mimetype, source),
            ),
            Ok(EventKind::File(body, filename, mimetype, source)) => Ok(
                take_attachment(body, filename, mimetype, source),
            ),
            Ok(EventKind::OtherMessage) => Err(
                "event ".to_owned().concat(&self.event_id).concat(" has no downloadable media"),
            ),
        }
    }

    /// Takes what was downloaded as what is to be written.
    pub fn on_downloaded(&self, outcome: Result<Vec<u8>, String>) -> (file: Result<SavedFile, String>)
        ensures
            downloaded(*self, outcome, file),
    {
        match outcome {
            Ok(data) => Ok(SavedFile { path: self.save_path.clone(), data }),
            Err(cause) => Err(with_context("failed to download media", &cause)),
        }
    }

    /// Reports the media that was written, with the number of its bytes.
    pub fn on_saved(&self, media: &Media, file: &SavedFile, outcome: Result<(), String>) -> (reply:
        Result<Json, String>)
        ensures
            fails_with(
                reply,
                step_error(outcome, "failed to write '"@ + self.save_path@ + "'"@),
            ),
            reply matches Ok(reply) ==> reply@ == saved_json(*self, *media, file.data@.len()),
    {
        match outcome {
            Ok(()) => Ok(
                Fields::new().with("room_id", Json::text(&self.room_id)).with(
                    "event_id",
                    Json::text(&self.event_id),
                ).with("path", Json::text(&self.save_path)).with(
                    "filename",
                    Json::text(&media.filename),
                ).with("mime_type", Json::optional(&media.mimetype)).with(
                    "bytes_written",
                    Json::Count(file.data.len() as u64),
                ).done(),
            ),
            Err(cause) => Err(
                with_context(
                    &"failed to write '".to_owned().concat(&self.save_path).concat("'"),
                    &cause,
                ),
            ),
        }
    }
}

impl FileRequest {
    /// Takes what was read from the file as what is to be uploaded.
    pub fn on_read(&self, outcome: Result<Vec<u8>, String>) -> (upload: Result<Upload, String>)
        ensures
            uploaded(*self, outcome, upload),
    {
        match outcome {
            Ok(data) => Ok(
                Upload {
                    filename: self.filename.clone(),
                    content_type: self.content_type.clone(),
                    caption: copied(&self.caption),
                    data,
                },
            ),
            Err(cause) => Err(
                with_context(
                    &"failed to read file '".to_owned().concat(&self.path).concat("'"),
                    &cause,
                ),
            ),
        }
    }

    /// Takes note of the attachment that was sent.
    pub fn on_sent(&self, outcome: Result<String, String>) -> (event_id: Result<String, String>)
        ensures
            fails_with(event_id, step_error(outcome, "failed to send attachment"@)),
            event_id matches Ok(id) ==> outcome == Ok::<String, String>(id),
    {
        match outcome {
            Ok(event_id) => Ok(event_id),
            Err(cause) => Err(with_context("failed to send attachment", &cause)),
        }
    }
}

impl MatrixManager {
    /// Upload a local file and send it to a room as an image, audio, video, or generic file
    /// attachment, chosen automatically from its MIME type.
    pub fn send_file(&self, room_id: &str, room_found: bool, path: &str, caption: Option<&str>) -> (request:
        Result<FileRequest, String>)
        ensures
            fails_with(request, self.room_operation_error(room_id@, room_found)),
            request matches Ok(request) ==> {
                &&& request.room_id@ == room_id@
                &&& request.path@ == path@
                &&& request.content_type@ == mime_type(deciding_extension(path@))
                &&& deciding_extension(path@).len() == 0 ==> request.content_type@
                    == "application/octet-stream"@
                &&& request.filename@ == sent_name(path@)
                &&& text_of(request.caption) == slice_text(caption)
            },
    {
        let room_id = match self.room_operation(room_id, room_found) {
            Ok(room_id) => room_id,
            Err(message) => return Err(message),
        };
        let filename = match file_name(path) {
            Some(name) => name,
            None => "file".to_owned(),
        };
        Ok(
            FileRequest {
                room_id,
                path: path.to_owned(),
                content_type: content_type_of(path),
                filename,
                caption: owned(caption),
            },
        )
    }

    /// Download the media attached to a message event and save it to a local path.
    pub fn download_media(
        &self,
        room_id: &str,
        room_found: bool,
        event_id: &str,
        save_path: &str,
    ) -> (request: Result<DownloadRequest, String>)
        ensures
            fails_with(request, self.event_operation_error(room_id@, room_found, event_id@)),
            request matches Ok(request) ==> {
                &&& request.room_id@ == room_id@
                &&& request.event_id@ == event_id@
                &&& request.save_path@ == save_path@
            },
    {
        match self.event_operation(room_id, room_found, event_id) {
            Ok((room_id, event_id)) => Ok(
                DownloadRequest { room_id, event_id, save_path: save_path.to_owned() },
            ),
            Err(message) => Err(message),
        }
    }
}

/// Media is downloaded exactly from messages that carry an image, a video, a sound or a file.
pub proof fn law_only_media_is_downloaded(event_id: Seq<char>, kind: EventKindView)
    ensures
        kind_error(event_id, kind) is None <==> attachment_of(kind) is Some,
{
}

/// Whether a message carries what was uploaded: the source that it was uploaded to, and the name
/// that it was uploaded with - as the file name, or as the body where it has no file name.
pub open spec fn carries(kind: EventKindView, upload: Upload, source: MediaSource) -> bool {
    attachment_of(kind) matches Some(attachment) && attachment.source == source && (
    attachment.filename == Some(upload.filename@) || attachment.filename is None && attachment.body
        == upload.filename@)
}

/// A file that is sent and downloaded again comes out as it went in: where the homeserver keeps
/// what was uploaded at the source that the message carries, along with the name it was uploaded
/// with, and what is received is what the homeserver keeps at the source that is asked for, the
/// download is told under the name of the file that was sent, and what is written - and counted -
/// are the bytes that were read.
pub proof fn law_files_come_out_as_they_went_in(
    sent: FileRequest,
    read: Result<Vec<u8>, String>,
    upload: Result<Upload, String>,
    kept: Map<MediaSource, Seq<u8>>,
    source: MediaSource,
    kind: EventKindView,
    media: Media,
    download: DownloadRequest,
    received: Result<Vec<u8>, String>,
    file: Result<SavedFile, String>,
)
    requires
        sent.filename@ == sent_name(sent.path@),
        uploaded(sent, read, upload),
        upload matches Ok(upload) && kept[source] == upload.data@ && carries(kind, upload, source),
        media_from(media, kind),
        received matches Ok(received) && received@ == kept[media.source],
        downloaded(download, received, file),
    ensures
        media.filename@ == sent_name(sent.path@),
        read is Ok,
        file matches Ok(file) && file.data@ == read->Ok_0@ && file.path@ == download.save_path@,
{
}

/// A file is sent under the same name, and as the same type of content, wherever it lies.
pub proof fn law_directory_does_not_matter(first: Seq<char>, second: Seq<char>)
    requires
        file_name_of(first) == file_name_of(second),
    ensures
        sent_name(first) == sent_name(second),
        mime_type(deciding_extension(first)) == mime_type(deciding_extension(second)),
{
}

/// The type of a file is decided by all that stands behind the last dot of its name, however long
/// that is, and whatever directory the file is in.
pub proof fn law_the_extension_decides(dir: Seq<char>, stem: Seq<char>, ext: Seq<char>)
    requires
        stem.len() > 0,
        forall|i: int| 0 <= i < stem.len() ==> #[trigger] stem[i] != '/',
        forall|i: int| 0 <= i < ext.len() ==> #[trigger] ext[i] != '/' && ext[i] != '.',
    ensures
        deciding_extension(dir + seq!['/'] + (stem + seq!['.'] + ext)) == ext,
        deciding_extension(stem + seq!['.'] + ext) == ext,
{
    let name = stem + seq!['.'] + ext;
    assert forall|i: int| 0 <= i < name.len() implies #[trigger] name[i] != '/' by {
        if i < stem.len() {
            assert(name[i] == stem[i]);
        } else if i > stem.len() {
            assert(name[i] == ext[i - stem.len() - 1]);
        }
    }
    assert(one_component(name));
    law_file_name_is_the_last_component(dir, name);
    law_extension_is_behind_the_last_dot(stem, ext, name);
    if two_dots(name) {
        assert(ext =~= Seq::empty());
    }
}

/// A file whose name has no dot behind its first character is of the type that stands for any
/// bytes.
pub proof fn law_without_extension_nothing_is_known(dir: Seq<char>, name: Seq<char>, path: &str, found: String)
    requires
        one_component(name),
        forall|i: int| 0 < i < name.len() ==> #[trigger] name[i] != '.',
        path@ == dir + seq!['/'] + name || path@ == name,
        call_ensures(content_type_of, (path,), found),
    ensures
        deciding_extension(path@).len() == 0,
        found@ == "application/octet-stream"@,
{
    law_file_name_is_the_last_component(dir, name);
    law_extension_is_behind_the_last_dot(name, name, name);
}

/// The type that is found for a file is the one that its extension stands for.
pub proof fn law_files_are_typed_by_extension(
    path: &str,
    dir: Seq<char>,
    stem: Seq<char>,
    ext: Seq<char>,
    found: String,
)
    requires
        stem.len() > 0,
        forall|i: int| 0 <= i < stem.len() ==> #[trigger] stem[i] != '/',
        forall|i: int| 0 <= i < ext.len() ==> #[trigger] ext[i] != '/' && ext[i] != '.',
        path@ == dir + seq!['/'] + (stem + seq!['.'] + ext) || path@ == stem + seq!['.'] + ext,
        call_ensures(content_type_of, (path,), found),
    ensures
        found@ == mime_type(ext),
{
    law_the_extension_decides(dir, stem, ext);
}

/// Whether what is to be downloaded goes by the file name, or else by the body, and has the type
/// and the source that are given.
pub open spec fn goes_by(
    media: Media,
    body: String,
    filename: Option<String>,
    mimetype: Option<String>,
    source: MediaSource,
) -> bool {
    &&& media.filename@ == match filename {
        Some(filename) => filename@,
        None => body@,
    }
    &&& text_of(media.mimetype) == text_of(mimetype)
    &&& media.source == source
}

/// What a message carries is what is downloaded: the source, the type and the name are those of
/// the attachment, whichever of the four kinds it is; any other event is refused by its id.
pub proof fn law_what_is_carried_is_downloaded(
    request: DownloadRequest,
    outcome: Result<EventKind, FetchFailure>,
    media: Result<Media, String>,
)
    requires
        call_ensures(DownloadRequest::on_event, (&request, outcome), media),
    ensures
        match outcome {
            Ok(EventKind::Image(body, filename, mimetype, source)) => media matches Ok(media)
                && goes_by(media, body, filename, mimetype, source),
            Ok(EventKind::Video(body, filename, mimetype, source)) => media matches Ok(media)
                && goes_by(media, body, filename, mimetype, source),
            Ok(EventKind::Audio(body, filename, mimetype, source)) => media matches Ok(media)
                && goes_by(media, body, filename, mimetype, source),
            Ok(EventKind::File(body, filename, mimetype, source)) => media matches Ok(media)
                && goes_by(media, body, filename, mimetype, source),
            Ok(EventKind::OtherMessage) => media matches Err(message) && message@ == "event "@
                + request.event_id@ + " has no downloadable media"@,
            Ok(EventKind::Other) => media matches Err(message) && message@ == "event "@
                + request.event_id@ + " is not a message"@,
            Err(FetchFailure::Fetch(cause)) => media matches Err(message) && message@
                == "failed to fetch event"@ + ": "@ + cause@,
            Err(FetchFailure::Read(cause)) => media matches Err(message) && message@
                == "failed to deserialize event"@ + ": "@ + cause@,
        },
{
}

/// An event that is given as JSON is downloaded as the kind of event that it is: fetching the JSON
/// and reading its kind give the same as the kind alone.
pub proof fn law_fetched_events_are_read(
    request: DownloadRequest,
    json: &str,
    kind: EventKind,
    fetched: Result<Media, String>,
    media: Result<Media, String>,
)
    requires
        event_kind_in(json@) == Ok::<EventKindView, Seq<char>>(kind@),
        call_ensures(DownloadRequest::on_fetched, (&request, Ok(json)), fetched),
        call_ensures(DownloadRequest::on_event, (&request, Ok(kind)), media),
    ensures
        match (fetched, media) {
            (Ok(fetched), Ok(media)) => fetched.filename@ == media.filename@ && text_of(
                fetched.mimetype,
            ) == text_of(media.mimetype) && fetched.source == media.source,
            (Err(fetched), Err(media)) => fetched@ == media@,
            _ => false,
        },
{
}

/// A file is sent by its name: what stands behind the last slash of its path, whole. A path that
/// ends in no name is sent as `file`.
pub proof fn law_files_are_sent_by_name(
    manager: MatrixManager,
    room_id: &str,
    found: bool,
    path: &str,
    caption: Option<&str>,
    request: FileRequest,
    dir: Seq<char>,
    name: Seq<char>,
)
    requires
        call_ensures(
            MatrixManager::send_file,
            (&manager, room_id, found, path, caption),
            Ok::<FileRequest, String>(request),
        ),
    ensures
        request.room_id@ == room_id@,
        request.path@ == path@,
        match (request.caption, caption) {
            (Some(a), Some(b)) => a@ == b@,
            (None, None) => true,
            _ => false,
        },
        one_component(name) && (path@ == name || path@ == dir + seq!['/'] + name)
            ==> request.filename@ == if two_dots(name) {
            "file"@
        } else {
            name
        },
        request.content_type@ == mime_type(deciding_extension(path@)),
{
    if one_component(name) {
        law_file_name_is_the_last_component(dir, name);
    }
}

/// A file goes to the homeserver with all of its bytes, and under the name, type and caption that
/// it is sent with; media is written with all of the bytes that came, to the path that was given.
pub proof fn law_bytes_are_kept(
    file: FileRequest,
    data: Vec<u8>,
    upload: Result<Upload, String>,
    download: DownloadRequest,
    saved: Result<SavedFile, String>,
    cause: String,
    unread: Result<Upload, String>,
    unsaved: Result<SavedFile, String>,
)
    requires
        call_ensures(FileRequest::on_read, (&file, Ok(data)), upload),
        call_ensures(DownloadRequest::on_downloaded, (&download, Ok(data)), saved),
        call_ensures(FileRequest::on_read, (&file, Err(cause)), unread),
        call_ensures(DownloadRequest::on_downloaded, (&download, Err(cause)), unsaved),
    ensures
        upload matches Ok(upload) && upload.data@ == data@ && upload.filename@ == file.filename@
            && upload.content_type@ == file.content_type@ && upload.caption == file.caption,
        saved matches Ok(saved) && saved.data@ == data@ && saved.path@ == download.save_path@,
        unread matches Err(message) && message@ == "failed to read file '"@ + file.path@ + "'"@
            + ": "@ + cause@,
        unsaved matches Err(message) && message@ == "failed to download media"@ + ": "@ + cause@,
{
}

/// The answer to a download tells the room, the event, the path, the name, the type if there is
/// one, and how many bytes were written.
pub proof fn law_downloads_are_told_in_full(
    request: DownloadRequest,
    media: Media,
    file: SavedFile,
    reply: Result<Json, String>,
)
    requires
        call_ensures(
            DownloadRequest::on_saved,
            (&request, &media, &file, Ok::<(), String>(())),
            reply,
        ),
    ensures
        reply matches Ok(reply) && reply@ == JsonView::Object(
            seq![
                ("room_id"@, JsonView::Text(request.room_id@)),
                ("event_id"@, JsonView::Text(request.event_id@)),
                ("path"@, JsonView::Text(request.save_path@)),
                ("filename"@, JsonView::Text(media.filename@)),
                (
                    "mime_type"@,
                    match media.mimetype {
                        Some(mimetype) => JsonView::Text(mimetype@),
                        None => JsonView::Null,
                    },
                ),
                ("bytes_written"@, JsonView::Count(file.data@.len())),
            ],
        ),
{
    assert(reply->Ok_0@->Object_0 =~= seq![
        ("room_id"@, JsonView::Text(request.room_id@)),
        ("event_id"@, JsonView::Text(request.event_id@)),
        ("path"@, JsonView::Text(request.save_path@)),
        ("filename"@, JsonView::Text(media.filename@)),
        (
            "mime_type"@,
            match media.mimetype {
                Some(mimetype) => JsonView::Text(mimetype@),
                None => JsonView::Null,
            },
        ),
        ("bytes_written"@, JsonView::Count(file.data@.len())),
    ]);
}

/// An event that could not be fetched, or that is not understood, is reported with the cause.
pub proof fn law_unreadable_events_are_reported(
    request: DownloadRequest,
    event: Result<&str, String>,
    fault: Seq<char>,
    media: Result<Media, String>,
)
    requires
        call_ensures(DownloadRequest::on_fetched, (&request, event), media),
    ensures
        event matches Err(cause) ==> (media matches Err(message) && message@
            == "failed to fetch event"@ + ": "@ + cause@),
        event matches Ok(json) ==> event_kind_in(json@) == Err::<EventKindView, Seq<char>>(fault)
            ==> (media matches Err(message) && message@ == "failed to deserialize event"@ + ": "@
            + fault),
{
}

} // verus!
