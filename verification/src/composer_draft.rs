//! What is kept of a message that was not sent yet.

use vstd::prelude::*;

use crate::duration::Duration;
use crate::error::{texts_error, ClientError, MediaInfoError};
use crate::ids::{check_event_id, event_id_refusal};

verus! {

/// What a draft is for.
pub enum ComposerDraftType {
    /// A new message.
    NewMessage,
    /// A reply to an event.
    Reply { event_id: String },
    /// An edit of an event.
    Edit { event_id: String },
}

impl ComposerDraftType {
    /// The texts with which the event is refused, if it is.
    pub open spec fn refused(self) -> Option<(Seq<char>, Seq<char>)> {
        match self {
            ComposerDraftType::NewMessage => None,
            ComposerDraftType::Reply { event_id } => event_id_refusal(event_id@),
            ComposerDraftType::Edit { event_id } => event_id_refusal(event_id@),
        }
    }

    /// The type itself, if the event is named by its ID.
    pub fn checked(self) -> (r: Result<ComposerDraftType, ClientError>)
        ensures
            match self.refused() {
                None => r == Ok::<ComposerDraftType, ClientError>(self),
                Some(texts) => r matches Err(error) && texts_error(texts, error),
            },
    {
        let result: Result<(), ClientError> = match &self {
            ComposerDraftType::NewMessage => Ok(()),
            ComposerDraftType::Reply { event_id } => check_event_id(event_id.as_str()),
            ComposerDraftType::Edit { event_id } => check_event_id(event_id.as_str()),
        };
        match result {
            Ok(()) => Ok(self),
            Err(error) => Err(error),
        }
    }
}

/// What is known of a thumbnail.
pub struct ThumbnailInfo {
    pub height: Option<u64>,
    pub width: Option<u64>,
    pub mimetype: Option<String>,
    pub size: Option<u64>,
}

/// Where a media is found on a homeserver.
pub enum MediaSource {
    /// At this URI.
    Plain { url: String },
    /// Encrypted; with its JSON form.
    Encrypted { json: String },
}

/// What is known of an image.
pub struct ImageInfo {
    pub height: Option<u64>,
    pub width: Option<u64>,
    pub mimetype: Option<String>,
    pub size: Option<u64>,
    pub thumbnail_info: Option<ThumbnailInfo>,
    pub thumbnail_source: Option<MediaSource>,
    pub blurhash: Option<String>,
    pub is_animated: Option<bool>,
}

impl ImageInfo {
    /// The URL of the thumbnail of an avatar. It must not be encrypted.
    pub fn avatar_thumbnail_url(self) -> (r: Result<Option<String>, MediaInfoError>)
        ensures
            match self.thumbnail_source {
                None => r matches Ok(url) && url is None,
                Some(MediaSource::Plain { url }) => r == Ok::<Option<String>, MediaInfoError>(
                    Some(url),
                ),
                Some(MediaSource::Encrypted { json }) => r matches Err(error)
                    && error is InvalidField,
            },
    {
        match self.thumbnail_source {
            None => Ok(None),
            Some(MediaSource::Plain { url }) => Ok(Some(url)),
            Some(MediaSource::Encrypted { .. }) => Err(MediaInfoError::InvalidField),
        }
    }
}

/// What is known of a video.
pub struct VideoInfo {
    pub duration: Option<Duration>,
    pub height: Option<u64>,
    pub width: Option<u64>,
    pub mimetype: Option<String>,
    pub size: Option<u64>,
    pub thumbnail_info: Option<ThumbnailInfo>,
    pub thumbnail_source: Option<MediaSource>,
    pub blurhash: Option<String>,
}

/// What is known of an audio file.
pub struct AudioInfo {
    pub duration: Option<Duration>,
    pub size: Option<u64>,
    pub mimetype: Option<String>,
}

/// What is known of any other file.
pub struct FileInfo {
    pub mimetype: Option<String>,
    pub size: Option<u64>,
    pub thumbnail_info: Option<ThumbnailInfo>,
    pub thumbnail_source: Option<MediaSource>,
}

/// What is to be uploaded.
pub enum UploadSource {
    /// The file at this path.
    File { filename: String },
    /// These bytes, under this name.
    Data { bytes: Vec<u8>, filename: String },
}

/// The content of what is to be uploaded, and its name.
pub struct FileData {
    pub bytes: Vec<u8>,
    pub filename: String,
}

/// Why a file to be uploaded has no content.
#[derive(Clone, Copy, Debug, PartialEq, Eq, Structural)]
pub enum UploadError {
    /// The path does not end in a name.
    NoName,
    /// The file could not be read.
    Unreadable,
}

/// What is said of a file that has no content.
pub open spec fn upload_error(error: UploadError, r: ClientError) -> bool {
    &&& r matches ClientError::Generic { msg, details }
    &&& details is None
    &&& msg@ == match error {
        UploadError::NoName => "Invalid attachment path"@,
        UploadError::Unreadable => "Could not load file"@,
    }
}

impl ClientError {
    /// What is said of a file that has no content.
    pub fn from_upload_error(error: UploadError) -> (r: ClientError)
        ensures
            upload_error(error, r),
    {
        match error {
            UploadError::NoName => ClientError::from_str("Invalid attachment path", None),
            UploadError::Unreadable => ClientError::from_str("Could not load file", None),
        }
    }
}

/// An attachment of a draft.
pub enum DraftAttachment {
    Audio { audio_info: AudioInfo, source: UploadSource },
    File { file_info: FileInfo, source: UploadSource },
    Image { image_info: ImageInfo, source: UploadSource, thumbnail_source: Option<UploadSource> },
    Video { video_info: VideoInfo, source: UploadSource, thumbnail_source: Option<UploadSource> },
}

/// The thumbnail of an attachment, as it is kept.
pub struct DraftThumbnail {
    pub filename: String,
    pub data: Vec<u8>,
    pub mimetype: Option<String>,
    pub width: Option<u64>,
    pub height: Option<u64>,
    pub size: Option<u64>,
}

/// An attachment of a draft, as it is kept.
pub struct StoredAttachment {
    pub filename: String,
    pub content: DraftAttachmentContent,
}

/// The content of an attachment, as it is kept.
pub enum DraftAttachmentContent {
    Image {
        data: Vec<u8>,
        mimetype: Option<String>,
        size: Option<u64>,
        width: Option<u64>,
        height: Option<u64>,
        blurhash: Option<String>,
        thumbnail: Option<DraftThumbnail>,
    },
    Video {
        data: Vec<u8>,
        mimetype: Option<String>,
        size: Option<u64>,
        width: Option<u64>,
        height: Option<u64>,
        duration: Option<Duration>,
        blurhash: Option<String>,
        thumbnail: Option<DraftThumbnail>,
    },
    Audio {
        data: Vec<u8>,
        mimetype: Option<String>,
        size: Option<u64>,
        duration: Option<Duration>,
    },
    File { data: Vec<u8>, mimetype: Option<String>, size: Option<u64> },
}

/// The source and the info of a thumbnail that was kept.
pub open spec fn shown_thumbnail(thumbnail: Option<DraftThumbnail>) -> (
    Option<UploadSource>,
    Option<ThumbnailInfo>,
) {
    match thumbnail {
        Some(t) => (
            Some(UploadSource::Data { bytes: t.data, filename: t.filename }),
            Some(
                ThumbnailInfo {
                    width: t.width,
                    height: t.height,
                    mimetype: t.mimetype,
                    size: t.size,
                },
            ),
        ),
        None => (None, None),
    }
}

/// The source and the info of a thumbnail that was kept.
fn show_thumbnail(thumbnail: Option<DraftThumbnail>) -> (r: (
    Option<UploadSource>,
    Option<ThumbnailInfo>,
))
    ensures
        r == shown_thumbnail(thumbnail),
{
    match thumbnail {
        Some(t) => (
            Some(UploadSource::Data { bytes: t.data, filename: t.filename }),
            Some(
                ThumbnailInfo {
                    width: t.width,
                    height: t.height,
                    mimetype: t.mimetype,
                    size: t.size,
                },
            ),
        ),
        None => (None, None),
    }
}

/// What an attachment that was kept is shown as: all of it is there as data.
pub open spec fn shown_attachment(value: StoredAttachment) -> DraftAttachment {
    match value.content {
        DraftAttachmentContent::Image {
            data,
            mimetype,
            size,
            width,
            height,
            blurhash,
            thumbnail,
        } => DraftAttachment::Image {
            image_info: ImageInfo {
                height,
                width,
                mimetype,
                size,
                thumbnail_info: shown_thumbnail(thumbnail).1,
                thumbnail_source: None,
                blurhash,
                is_animated: None,
            },
            source: UploadSource::Data { bytes: data, filename: value.filename },
            thumbnail_source: shown_thumbnail(thumbnail).0,
        },
        DraftAttachmentContent::Video {
            data,
            mimetype,
            size,
            width,
            height,
            duration,
            blurhash,
            thumbnail,
        } => DraftAttachment::Video {
            video_info: VideoInfo {
                duration,
                height,
                width,
                mimetype,
                size,
                thumbnail_info: shown_thumbnail(thumbnail).1,
                thumbnail_source: None,
                blurhash,
            },
            source: UploadSource::Data { bytes: data, filename: value.filename },
            thumbnail_source: shown_thumbnail(thumbnail).0,
        },
        DraftAttachmentContent::Audio { data, mimetype, size, duration } => DraftAttachment::Audio {
            audio_info: AudioInfo { duration, size, mimetype },
            source: UploadSource::Data { bytes: data, filename: value.filename },
        },
        DraftAttachmentContent::File { data, mimetype, size } => DraftAttachment::File {
            file_info: FileInfo { mimetype, size, thumbnail_info: None, thumbnail_source: None },
            source: UploadSource::Data { bytes: data, filename: value.filename },
        },
    }
}

/// Whether an attachment comes with a thumbnail that is kept with it: both its info
/// and its source have to be there.
pub open spec fn has_thumbnail(attachment: DraftAttachment) -> bool {
    match attachment {
        DraftAttachment::Image { image_info, thumbnail_source, .. } => {
            image_info.thumbnail_info is Some && thumbnail_source is Some
        },
        DraftAttachment::Video { video_info, thumbnail_source, .. } => {
            video_info.thumbnail_info is Some && thumbnail_source is Some
        },
        _ => false,
    }
}

/// The thumbnail that is kept.
pub open spec fn kept_thumbnail(
    info: Option<ThumbnailInfo>,
    file: Option<FileData>,
) -> Option<DraftThumbnail> {
    match (info, file) {
        (Some(info), Some(file)) => Some(
            DraftThumbnail {
                filename: file.filename,
                data: file.bytes,
                mimetype: info.mimetype,
                width: info.width,
                height: info.height,
                size: info.size,
            },
        ),
        _ => None,
    }
}

/// What is kept of an attachment with these contents.
pub open spec fn kept_attachment(
    attachment: DraftAttachment,
    file: FileData,
    thumbnail: Option<FileData>,
) -> StoredAttachment {
    StoredAttachment {
        filename: file.filename,
        content: match attachment {
            DraftAttachment::Image { image_info, .. } => DraftAttachmentContent::Image {
                data: file.bytes,
                mimetype: image_info.mimetype,
                size: image_info.size,
                width: image_info.width,
                height: image_info.height,
                blurhash: image_info.blurhash,
                thumbnail: kept_thumbnail(image_info.thumbnail_info, thumbnail),
            },
            DraftAttachment::Video { video_info, .. } => DraftAttachmentContent::Video {
                data: file.bytes,
                mimetype: video_info.mimetype,
                size: video_info.size,
                width: video_info.width,
                height: video_info.height,
                duration: video_info.duration,
                blurhash: video_info.blurhash,
                thumbnail: kept_thumbnail(video_info.thumbnail_info, thumbnail),
            },
            DraftAttachment::Audio { audio_info, .. } => DraftAttachmentContent::Audio {
                data: file.bytes,
                mimetype: audio_info.mimetype,
                size: audio_info.size,
                duration: audio_info.duration,
            },
            DraftAttachment::File { file_info, .. } => DraftAttachmentContent::File {
                data: file.bytes,
                mimetype: file_info.mimetype,
                size: file_info.size,
            },
        },
    }
}

/// The thumbnail that is kept.
fn keep_thumbnail(info: Option<ThumbnailInfo>, file: Option<FileData>) -> (r: Option<
    DraftThumbnail,
>)
    ensures
        r == kept_thumbnail(info, file),
{
    match (info, file) {
        (Some(info), Some(file)) => Some(
            DraftThumbnail {
                filename: file.filename,
                data: file.bytes,
                mimetype: info.mimetype,
                width: info.width,
                height: info.height,
                size: info.size,
            },
        ),
        _ => None,
    }
}

impl DraftAttachment {
    /// What an attachment that was kept is shown as.
    pub fn from(value: StoredAttachment) -> (r: DraftAttachment)
        ensures
            r == shown_attachment(value),
    {
        match value.content {
            DraftAttachmentContent::Image {
                data,
                mimetype,
                size,
                width,
                height,
                blurhash,
                thumbnail,
            } => {
                let (thumbnail_source, thumbnail_info): (
                    Option<UploadSource>,
                    Option<ThumbnailInfo>,
                ) = show_thumbnail(thumbnail);
                DraftAttachment::Image {
                    image_info: ImageInfo {
                        height,
                        width,
                        mimetype,
                        size,
                        thumbnail_info,
                        thumbnail_source: None,
                        blurhash,
                        is_animated: None,
                    },
                    source: UploadSource::Data { bytes: data, filename: value.filename },
                    thumbnail_source,
                }
            },
            DraftAttachmentContent::Video {
                data,
                mimetype,
                size,
                width,
                height,
                duration,
                blurhash,
                thumbnail,
            } => {
                let (thumbnail_source, thumbnail_info): (
                    Option<UploadSource>,
                    Option<ThumbnailInfo>,
                ) = show_thumbnail(thumbnail);
                DraftAttachment::Video {
                    video_info: VideoInfo {
                        duration,
                        height,
                        width,
                        mimetype,
                        size,
                        thumbnail_info,
                        thumbnail_source: None,
                        blurhash,
                    },
                    source: UploadSource::Data { bytes: data, filename: value.filename },
                    thumbnail_source,
                }
            },
            DraftAttachmentContent::Audio { data, mimetype, size, duration } => {
                DraftAttachment::Audio {
                    audio_info: AudioInfo { duration, size, mimetype },
                    source: UploadSource::Data { bytes: data, filename: value.filename },
                }
            },
            DraftAttachmentContent::File { data, mimetype, size } => DraftAttachment::File {
                file_info: FileInfo {
                    mimetype,
                    size,
                    thumbnail_info: None,
                    thumbnail_source: None,
                },
                source: UploadSource::Data { bytes: data, filename: value.filename },
            },
        }
    }

    /// Whether the thumbnail has to be read to keep the attachment.
    pub fn has_thumbnail(&self) -> (r: bool)
        ensures
            r == has_thumbnail(*self),
    {
        match self {
            DraftAttachment::Image { image_info, thumbnail_source, .. } => {
                image_info.thumbnail_info.is_some() && thumbnail_source.is_some()
            },
            DraftAttachment::Video { video_info, thumbnail_source, .. } => {
                video_info.thumbnail_info.is_some() && thumbnail_source.is_some()
            },
            _ => false,
        }
    }

    /// What is kept of the attachment, from what was read of its source and, if it
    /// has one, of the source of its thumbnail.
    pub fn into_stored(
        self,
        file: Result<FileData, UploadError>,
        thumbnail: Option<Result<FileData, UploadError>>,
    ) -> (r: Result<StoredAttachment, ClientError>)
        requires
            thumbnail is Some <==> has_thumbnail(self),
        ensures
            match (file, thumbnail) {
                (Err(unread), _) => r matches Err(error) && upload_error(unread, error),
                (Ok(file), Some(Err(unread))) => r matches Err(error) && upload_error(
                    unread,
                    error,
                ),
                (Ok(file), Some(Ok(thumbnail))) => r == Ok::<StoredAttachment, ClientError>(
                    kept_attachment(self, file, Some(thumbnail)),
                ),
                (Ok(file), None) => r == Ok::<StoredAttachment, ClientError>(
                    kept_attachment(self, file, None),
                ),
            },
    {
        let file: FileData = match file {
            Ok(file) => file,
            Err(error) => return Err(ClientError::from_upload_error(error)),
        };
        let thumbnail: Option<FileData> = match thumbnail {
            Some(Ok(thumbnail)) => Some(thumbnail),
            Some(Err(error)) => return Err(ClientError::from_upload_error(error)),
            None => None,
        };
        let content: DraftAttachmentContent = match self {
            DraftAttachment::Image { image_info, .. } => DraftAttachmentContent::Image {
                data: file.bytes,
                mimetype: image_info.mimetype,
                size: image_info.size,
                width: image_info.width,
                height: image_info.height,
                blurhash: image_info.blurhash,
                thumbnail: keep_thumbnail(image_info.thumbnail_info, thumbnail),
            },
            DraftAttachment::Video { video_info, .. } => DraftAttachmentContent::Video {
                data: file.bytes,
                mimetype: video_info.mimetype,
                size: video_info.size,
                width: video_info.width,
                height: video_info.height,
                duration: video_info.duration,
                blurhash: video_info.blurhash,
                thumbnail: keep_thumbnail(video_info.thumbnail_info, thumbnail),
            },
            DraftAttachment::Audio { audio_info, .. } => DraftAttachmentContent::Audio {
                data: file.bytes,
                mimetype: audio_info.mimetype,
                size: audio_info.size,
                duration: audio_info.duration,
            },
            DraftAttachment::File { file_info, .. } => DraftAttachmentContent::File {
                data: file.bytes,
                mimetype: file_info.mimetype,
                size: file_info.size,
            },
        };
        Ok(StoredAttachment { filename: file.filename, content })
    }
}

/// The content of a source, if it is there as data.
pub open spec fn data_of(source: UploadSource) -> Option<FileData> {
    match source {
        UploadSource::Data { bytes, filename } => Some(FileData { bytes, filename }),
        UploadSource::File { .. } => None,
    }
}

/// The source of an attachment.
pub open spec fn source_of(attachment: DraftAttachment) -> UploadSource {
    match attachment {
        DraftAttachment::Image { source, .. } => source,
        DraftAttachment::Video { source, .. } => source,
        DraftAttachment::Audio { source, .. } => source,
        DraftAttachment::File { source, .. } => source,
    }
}

/// The content of the thumbnail of an attachment, if there is one and it is there
/// as data.
pub open spec fn thumbnail_data_of(attachment: DraftAttachment) -> Option<FileData> {
    match attachment {
        DraftAttachment::Image { thumbnail_source: Some(source), .. } => data_of(source),
        DraftAttachment::Video { thumbnail_source: Some(source), .. } => data_of(source),
        _ => None,
    }
}

/// An attachment that was kept and is kept again stays as it is.
pub proof fn kept_attachment_stays(value: StoredAttachment)
    ensures
        ({
            let shown = shown_attachment(value);
            &&& data_of(source_of(shown)) is Some
            &&& has_thumbnail(shown) <==> thumbnail_data_of(shown) is Some
            &&& kept_attachment(shown, data_of(source_of(shown))->0, thumbnail_data_of(shown))
                == value
        }),
{
}

/// The draft of a message.
pub struct ComposerDraft {
    /// The plain text.
    pub plain_text: String,
    /// The same in HTML, if the message is formatted.
    pub html_text: Option<String>,
    /// What the draft is for.
    pub draft_type: ComposerDraftType,
    /// What is sent with the message.
    pub attachments: Vec<DraftAttachment>,
}

/// The draft of a message, as it is kept.
pub struct StoredDraft {
    pub plain_text: String,
    pub html_text: Option<String>,
    pub draft_type: ComposerDraftType,
    pub attachments: Vec<StoredAttachment>,
}

impl ComposerDraft {
    /// What a draft that was kept is shown as.
    pub fn from(value: StoredDraft) -> (r: ComposerDraft)
        ensures
            r.plain_text == value.plain_text,
            r.html_text == value.html_text,
            r.draft_type == value.draft_type,
            r.attachments@ == value.attachments@.map_values(
                |a: StoredAttachment| shown_attachment(a),
            ),
    {
        let ghost f = |a: StoredAttachment| shown_attachment(a);
        let ghost all = value.attachments@;
        let mut rest: Vec<StoredAttachment> = value.attachments;
        let mut attachments: Vec<DraftAttachment> = Vec::new();
        while rest.len() > 0
            invariant
                rest@.len() <= all.len(),
                rest@ == all.skip(all.len() - rest@.len()),
                f == (|a: StoredAttachment| shown_attachment(a)),
                attachments@ == all.take(all.len() - rest@.len()).map_values(f),
            decreases rest.len(),
        {
            let ghost done = all.len() - rest@.len();
            let first: StoredAttachment = rest.remove(0);
            proof {
                assert(first == all[done]);
                assert(rest@ =~= all.skip(done + 1));
            }
            attachments.push(DraftAttachment::from(first));
            proof {
                assert(attachments@ =~= all.take(done + 1).map_values(f));
            }
        }
        proof {
            assert(all.take(all.len() as int) =~= all);
        }
        ComposerDraft {
            plain_text: value.plain_text,
            html_text: value.html_text,
            draft_type: value.draft_type,
            attachments,
        }
    }
}

impl StoredDraft {
    /// What is kept of a draft, with what is kept of its attachments. The event
    /// that it is for has to be named by its ID.
    pub fn new(
        plain_text: String,
        html_text: Option<String>,
        draft_type: ComposerDraftType,
        attachments: Vec<StoredAttachment>,
    ) -> (r: Result<StoredDraft, ClientError>)
        ensures
            match draft_type.refused() {
                None => r == Ok::<StoredDraft, ClientError>(
                    StoredDraft { plain_text, html_text, draft_type, attachments },
                ),
                Some(texts) => r matches Err(error) && texts_error(texts, error),
            },
    {
        match draft_type.checked() {
            Ok(draft_type) => Ok(StoredDraft { plain_text, html_text, draft_type, attachments }),
            Err(error) => Err(error),
        }
    }
}

/// An attachment is kept with what is known of it under the same names, and with the bytes and
/// the name of its file.
pub proof fn attachments_are_kept_under_their_names(
    attachment: DraftAttachment,
    file: FileData,
    kept: StoredAttachment,
)
    requires
        !has_thumbnail(attachment),
        call_ensures(
            DraftAttachment::into_stored,
            (attachment, Ok::<FileData, UploadError>(file), None),
            Ok::<StoredAttachment, ClientError>(kept),
        ),
    ensures
        kept.filename == file.filename,
        match kept.content {
            DraftAttachmentContent::Image {
                data,
                mimetype,
                size,
                width,
                height,
                blurhash,
                thumbnail,
            } => attachment matches DraftAttachment::Image { image_info: info, .. } && data
                == file.bytes && info.mimetype == mimetype && info.size == size && info.width
                == width && info.height == height && info.blurhash == blurhash
                && thumbnail is None,
            DraftAttachmentContent::Video {
                data,
                mimetype,
                size,
                width,
                height,
                duration,
                blurhash,
                thumbnail,
            } => attachment matches DraftAttachment::Video { video_info: info, .. } && data
                == file.bytes && info.mimetype == mimetype && info.size == size && info.width
                == width && info.height == height && info.duration == duration && info.blurhash
                == blurhash && thumbnail is None,
            DraftAttachmentContent::Audio { data, mimetype, size, duration } => attachment matches
                DraftAttachment::Audio { audio_info: info, .. } && data == file.bytes
                && info.mimetype == mimetype && info.size == size && info.duration == duration,
            DraftAttachmentContent::File { data, mimetype, size } => attachment matches
                DraftAttachment::File { file_info: info, .. } && data == file.bytes
                && info.mimetype == mimetype && info.size == size,
        },
{
}

/// What was kept is shown under the same names again, with its bytes and its name.
pub proof fn attachments_are_shown_under_their_names(kept: StoredAttachment, shown: DraftAttachment)
    requires
        call_ensures(DraftAttachment::from, (kept,), shown),
    ensures
        match shown {
            DraftAttachment::Image { image_info: info, source, thumbnail_source } => kept.content
                matches DraftAttachmentContent::Image {
                data,
                mimetype,
                size,
                width,
                height,
                blurhash,
                thumbnail,
            } && source == (UploadSource::Data { bytes: data, filename: kept.filename })
                && info.mimetype == mimetype && info.size == size && info.width == width
                && info.height == height && info.blurhash == blurhash && (thumbnail is Some
                <==> thumbnail_source is Some) && (thumbnail is Some ==> thumbnail_source == Some(
                UploadSource::Data { bytes: thumbnail->0.data, filename: thumbnail->0.filename },
            ) && info.thumbnail_info == Some(
                ThumbnailInfo {
                    height: thumbnail->0.height,
                    width: thumbnail->0.width,
                    mimetype: thumbnail->0.mimetype,
                    size: thumbnail->0.size,
                },
            )),
            DraftAttachment::Video { video_info: info, source, thumbnail_source } => kept.content
                matches DraftAttachmentContent::Video {
                data,
                mimetype,
                size,
                width,
                height,
                duration,
                blurhash,
                thumbnail,
            } && source == (UploadSource::Data { bytes: data, filename: kept.filename })
                && info.mimetype == mimetype && info.size == size && info.width == width
                && info.height == height && info.duration == duration && info.blurhash == blurhash
                && (thumbnail is Some <==> thumbnail_source is Some) && (thumbnail is Some
                ==> thumbnail_source == Some(
                UploadSource::Data { bytes: thumbnail->0.data, filename: thumbnail->0.filename },
            ) && info.thumbnail_info == Some(
                ThumbnailInfo {
                    height: thumbnail->0.height,
                    width: thumbnail->0.width,
                    mimetype: thumbnail->0.mimetype,
                    size: thumbnail->0.size,
                },
            )),
            DraftAttachment::Audio { audio_info: info, source } => kept.content matches
                DraftAttachmentContent::Audio { data, mimetype, size, duration } && source == (
            UploadSource::Data { bytes: data, filename: kept.filename }) && info.mimetype
                == mimetype && info.size == size && info.duration == duration,
            DraftAttachment::File { file_info: info, source } => kept.content matches
                DraftAttachmentContent::File { data, mimetype, size } && source == (
            UploadSource::Data { bytes: data, filename: kept.filename }) && info.mimetype
                == mimetype && info.size == size,
        },
{
}

/// A draft is kept and shown again with its texts, what it is for, and as many attachments; it is
/// refused if and only if what it answers or edits is not named by the ID of an event.
pub proof fn drafts_are_kept_and_shown(
    plain_text: String,
    html_text: Option<String>,
    draft_type: ComposerDraftType,
    attachments: Vec<StoredAttachment>,
    kept: Result<StoredDraft, ClientError>,
    shown: ComposerDraft,
)
    requires
        call_ensures(StoredDraft::new, (plain_text, html_text, draft_type, attachments), kept),
        kept is Ok ==> call_ensures(ComposerDraft::from, (kept->Ok_0,), shown),
    ensures
        kept is Ok <==> match draft_type {
            ComposerDraftType::NewMessage => true,
            ComposerDraftType::Reply { event_id } => event_id_refusal(event_id@) is None,
            ComposerDraftType::Edit { event_id } => event_id_refusal(event_id@) is None,
        },
        kept is Ok ==> shown.plain_text == plain_text && shown.html_text == html_text
            && shown.draft_type == draft_type && shown.attachments@.len() == attachments@.len(),
{
}

/// A file that could not be read is the error, and so is a thumbnail; an avatar's thumbnail is one
/// that is not encrypted.
pub proof fn unread_files_are_errors(
    attachment: DraftAttachment,
    unread: UploadError,
    r: Result<StoredAttachment, ClientError>,
    info: ImageInfo,
    url: Result<Option<String>, MediaInfoError>,
)
    requires
        !has_thumbnail(attachment),
        call_ensures(
            DraftAttachment::into_stored,
            (attachment, Err::<FileData, UploadError>(unread), None),
            r,
        ),
        call_ensures(ImageInfo::avatar_thumbnail_url, (info,), url),
    ensures
        r is Err,
        url is Err <==> info.thumbnail_source is Some && info.thumbnail_source->0 is Encrypted,
        url matches Ok(Some(found)) ==> info.thumbnail_source == Some(
            MediaSource::Plain { url: found },
        ),
        info.thumbnail_source is None ==> url == Ok::<Option<String>, MediaInfoError>(None),
{
}

/// The attachments of a draft are shown one for one, in their order.
pub proof fn attachments_are_shown_in_order(
    kept: StoredDraft,
    shown: ComposerDraft,
    i: int,
    one: DraftAttachment,
)
    requires
        call_ensures(ComposerDraft::from, (kept,), shown),
        0 <= i < kept.attachments@.len(),
        call_ensures(DraftAttachment::from, (kept.attachments@[i],), one),
    ensures
        shown.attachments@.len() == kept.attachments@.len(),
        shown.attachments@[i] == one,
{
}

/// A thumbnail is kept with its file and what is known of it, under the same names.
pub proof fn thumbnails_are_kept_under_their_names(
    attachment: DraftAttachment,
    file: FileData,
    thumbnail: FileData,
    kept: StoredAttachment,
    has: bool,
)
    requires
        call_ensures(DraftAttachment::has_thumbnail, (&attachment,), has),
        has,
        call_ensures(
            DraftAttachment::into_stored,
            (
                attachment,
                Ok::<FileData, UploadError>(file),
                Some(Ok::<FileData, UploadError>(thumbnail)),
            ),
            Ok::<StoredAttachment, ClientError>(kept),
        ),
    ensures
        ({
            let info = match attachment {
                DraftAttachment::Image { image_info, .. } => image_info.thumbnail_info,
                DraftAttachment::Video { video_info, .. } => video_info.thumbnail_info,
                _ => None,
            };
            let made = match kept.content {
                DraftAttachmentContent::Image { thumbnail, .. } => thumbnail,
                DraftAttachmentContent::Video { thumbnail, .. } => thumbnail,
                _ => None,
            };
            &&& info is Some
            &&& made == Some(
                DraftThumbnail {
                    filename: thumbnail.filename,
                    data: thumbnail.bytes,
                    mimetype: info->0.mimetype,
                    width: info->0.width,
                    height: info->0.height,
                    size: info->0.size,
                },
            )
        }),
        kept.filename == file.filename,
{
}

} // verus!
