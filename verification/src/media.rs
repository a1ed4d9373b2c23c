//! Media: their types, the files that they are kept in, and who sees previews.

use mime::Mime;
use vstd::prelude::*;

use crate::composer_draft::MediaSource;
use crate::error::{context_error, text_error, texts_error, ClientError};
use crate::ids::{is_safe_int, safe_uint};

verus! {

/// Why a media type was refused.
pub struct MimeError {
    /// The text of the error.
    pub message: String,
    /// Its debug text.
    pub debug: String,
}

/// What a text reads as: the media type as it is written, or the message and the
/// debug text with which it is refused.
pub uninterp spec fn mime_reading(text: Seq<char>) -> Result<Seq<char>, (Seq<char>, Seq<char>)>;

/// `mime::Mime` from a text, and back to a text. Claimed: whether the text is a
/// media type, how that type is written, and the texts of the error where it is
/// none, depend on the text alone.
#[verifier::external_body]
fn parse_mime(text: &str) -> (r: Result<String, MimeError>)
    ensures
        match r {
            Ok(mime) => mime_reading(text@) == Ok::<Seq<char>, (Seq<char>, Seq<char>)>(mime@),
            Err(error) => mime_reading(text@) == Err::<Seq<char>, (Seq<char>, Seq<char>)>(
                (error.message@, error.debug@),
            ),
        },
{
    match text.parse::<Mime>() {
        Ok(mime) => Ok(mime.to_string()),
        Err(error) => Err(MimeError { message: error.to_string(), debug: format!("{error:?}") }),
    }
}

/// The media type of a file or of an avatar.
pub fn check_mime(text: &str) -> (r: Result<String, ClientError>)
    ensures
        match mime_reading(text@) {
            Ok(mime) => r matches Ok(made) && made@ == mime,
            Err(texts) => r matches Err(error) && texts_error(texts, error),
        },
{
    match parse_mime(text) {
        Ok(mime) => Ok(mime),
        Err(error) => Err(ClientError::from_err(error.message.as_str(), error.debug)),
    }
}

/// The media type of an upload.
pub fn check_upload_mime(text: &str) -> (r: Result<String, ClientError>)
    ensures
        match mime_reading(text@) {
            Ok(mime) => r matches Ok(made) && made@ == mime,
            Err(texts) => r matches Err(error) && context_error(
                "Parsing mime type"@,
                texts.0,
                error,
            ),
        },
{
    match parse_mime(text) {
        Ok(mime) => Ok(mime),
        Err(error) => Err(ClientError::from_context("Parsing mime type", error.message.as_str())),
    }
}

/// How much of a media is fetched.
#[derive(Clone, Copy, Debug, PartialEq, Eq, Structural)]
pub enum MediaFormat {
    /// All of it.
    File,
    /// A thumbnail of this size.
    Thumbnail { width: u64, height: u64 },
}

/// A media to be fetched.
pub struct MediaRequest {
    pub source: MediaSource,
    pub format: MediaFormat,
}

impl MediaRequest {
    /// A media to be fetched as a whole.
    pub fn file(source: MediaSource) -> (r: MediaRequest)
        ensures
            r == (MediaRequest { source, format: MediaFormat::File }),
    {
        MediaRequest { source, format: MediaFormat::File }
    }

    /// A thumbnail to be fetched. Its sizes have to be safe integers.
    pub fn thumbnail(source: MediaSource, width: u64, height: u64) -> (r: MediaRequest)
        requires
            is_safe_int(width as int),
            is_safe_int(height as int),
        ensures
            r == (MediaRequest { source, format: MediaFormat::Thumbnail { width, height } }),
    {
        MediaRequest {
            source,
            format: MediaFormat::Thumbnail {
                width: safe_uint(width).unwrap(),
                height: safe_uint(height).unwrap(),
            },
        }
    }
}

/// How much of a transmission is done.
#[derive(Clone, Copy, Debug, PartialEq, Eq, Structural)]
pub struct TransmissionProgress {
    pub current: u64,
    pub total: u64,
}

impl TransmissionProgress {
    /// How much of a transmission is done.
    pub fn from(current: usize, total: usize) -> (r: TransmissionProgress)
        ensures
            r.current == current,
            r.total == total,
    {
        TransmissionProgress { current: current as u64, total: total as u64 }
    }
}

/// Told how much of a transmission is done.
pub trait ProgressWatcher {
    fn transmission_progress(&self, progress: TransmissionProgress);
}

/// A media file on disk, until it is persisted. `F` is the file.
pub struct MediaFileHandle<F> {
    pub inner: Option<F>,
}

impl<F> MediaFileHandle<F> {
    /// A handle for a file.
    pub fn new(file: F) -> (r: Self)
        ensures
            r.inner == Some(file),
    {
        MediaFileHandle { inner: Some(file) }
    }

    /// The file, as long as it was not persisted.
    pub fn file(&self) -> (r: Result<&F, ClientError>)
        ensures
            match self.inner {
                Some(file) => r matches Ok(found) && *found == file,
                None => r matches Err(error) && text_error(
                    "MediaFileHandle must not be used after calling persist"@,
                    error,
                ),
            },
    {
        match &self.inner {
            Some(file) => Ok(file),
            None => Err(
                ClientError::from_text("MediaFileHandle must not be used after calling persist"),
            ),
        }
    }

    /// Takes the file in order to persist it.
    pub fn take_for_persist(&mut self) -> (r: Result<F, ClientError>)
        ensures
            final(self).inner is None,
            match old(self).inner {
                Some(file) => r == Ok::<F, ClientError>(file),
                None => r matches Err(error) && text_error(
                    "MediaFileHandle was already persisted"@,
                    error,
                ),
            },
    {
        match self.inner.take() {
            Some(file) => Ok(file),
            None => Err(ClientError::from_text("MediaFileHandle was already persisted")),
        }
    }

    /// Whether the file was persisted. If it was not, it is handed back, and the
    /// handle keeps it.
    pub fn persisted(&mut self, handed_back: Option<F>) -> (r: bool)
        requires
            old(self).inner is None,
        ensures
            final(self).inner == handed_back,
            r == (handed_back is None),
    {
        let done: bool = handed_back.is_none();
        self.inner = handed_back;
        done
    }
}

/// A file that could not be persisted is still in its handle, as before; after one
/// that could be, the handle is of no more use.
pub proof fn failed_persist_changes_nothing<F>(
    before: MediaFileHandle<F>,
    file: F,
    handed_back: Option<F>,
    after: MediaFileHandle<F>,
)
    requires
        before.inner == Some(file),
        after.inner == handed_back,
        handed_back is Some ==> handed_back->0 == file,
    ensures
        handed_back is Some ==> after == before,
        handed_back is None ==> after.inner is None,
{
}

/// Who sees previews of media in a timeline.
#[derive(Clone, Copy, Debug, PartialEq, Eq, Structural)]
pub enum MediaPreviews {
    /// Always shown.
    On,
    /// Shown in private rooms only.
    Private,
    /// Never shown.
    Off,
}

/// Whether the avatars of those who invite are shown.
#[derive(Clone, Copy, Debug, PartialEq, Eq, Structural)]
pub enum InviteAvatars {
    On,
    Off,
}

/// What is shown of media, as far as it was chosen.
#[derive(Clone, Copy, Debug, PartialEq, Eq, Structural)]
pub struct MediaPreviewConfig {
    pub media_previews: Option<MediaPreviews>,
    pub invite_avatars: Option<InviteAvatars>,
}

/// Told of changes of what is shown of media.
pub trait MediaPreviewConfigListener {
    fn on_change(&self, media_preview_config: Option<MediaPreviewConfig>);
}

/// Who sees previews of media, if that was chosen.
pub fn media_preview_display_policy(config: Option<MediaPreviewConfig>) -> (r: Option<
    MediaPreviews,
>)
    ensures
        r == (match config {
            Some(config) => config.media_previews,
            None => None,
        }),
{
    match config {
        Some(config) => config.media_previews,
        None => None,
    }
}

/// Whether the avatars of those who invite are shown, if that was chosen.
pub fn invite_avatars_display_policy(config: Option<MediaPreviewConfig>) -> (r: Option<
    InviteAvatars,
>)
    ensures
        r == (match config {
            Some(config) => config.invite_avatars,
            None => None,
        }),
{
    match config {
        Some(config) => config.invite_avatars,
        None => None,
    }
}

/// How much each store takes on disk, if known.
pub struct StoreSizes {
    pub crypto_store: Option<u64>,
    pub state_store: Option<u64>,
    pub event_cache_store: Option<u64>,
    pub media_store: Option<u64>,
}

/// A size that may not be known.
pub open spec fn is_size(value: Option<usize>, r: Option<u64>) -> bool {
    match value {
        Some(size) => r is Some && r->0 == size,
        None => r is None,
    }
}

/// A size that may not be known.
fn size_of(value: Option<usize>) -> (r: Option<u64>)
    ensures
        is_size(value, r),
{
    match value {
        Some(size) => Some(size as u64),
        None => None,
    }
}

impl StoreSizes {
    /// How much each store takes on disk.
    pub fn from(
        crypto_store: Option<usize>,
        state_store: Option<usize>,
        event_cache_store: Option<usize>,
        media_store: Option<usize>,
    ) -> (r: StoreSizes)
        ensures
            is_size(crypto_store, r.crypto_store),
            is_size(state_store, r.state_store),
            is_size(event_cache_store, r.event_cache_store),
            is_size(media_store, r.media_store),
    {
        StoreSizes {
            crypto_store: size_of(crypto_store),
            state_store: size_of(state_store),
            event_cache_store: size_of(event_cache_store),
            media_store: size_of(media_store),
        }
    }
}

/// What is asked for of a medium is its file or a thumbnail of the given size, of that medium;
/// progress tells what is done and how much there is.
pub proof fn media_are_asked_for_as_given(
    source: MediaSource,
    width: u64,
    height: u64,
    current: usize,
    total: usize,
    file: MediaRequest,
    thumbnail: MediaRequest,
    progress: TransmissionProgress,
)
    requires
        call_ensures(MediaRequest::file, (source,), file),
        call_ensures(MediaRequest::thumbnail, (source, width, height), thumbnail),
        call_ensures(TransmissionProgress::from, (current, total), progress),
    ensures
        file.source == source && file.format is File,
        thumbnail.source == source,
        thumbnail.format == (MediaFormat::Thumbnail { width, height }),
        progress.current == current && progress.total == total,
{
}

/// A medium is uploaded under the type that its text reads as, and refused if it reads as none.
pub proof fn media_types_are_read(
    text: &str,
    sent: Result<String, ClientError>,
    uploaded: Result<String, ClientError>,
)
    requires
        call_ensures(check_mime, (text,), sent),
        call_ensures(check_upload_mime, (text,), uploaded),
    ensures
        sent is Ok <==> mime_reading(text@) is Ok,
        uploaded is Ok <==> sent is Ok,
        sent is Ok ==> sent->Ok_0@ == uploaded->Ok_0@ && sent->Ok_0@ == mime_reading(text@)->Ok_0,
{
}

/// The sizes of the stores are told by their own names, and nothing is told of a store whose
/// size is not known.
pub proof fn store_sizes_are_told(
    crypto: Option<usize>,
    state: Option<usize>,
    events: Option<usize>,
    media: Option<usize>,
    r: StoreSizes,
)
    requires
        call_ensures(StoreSizes::from, (crypto, state, events, media), r),
    ensures
        r.crypto_store is Some <==> crypto is Some,
        r.state_store is Some <==> state is Some,
        r.event_cache_store is Some <==> events is Some,
        r.media_store is Some <==> media is Some,
        crypto is Some ==> r.crypto_store->0 == crypto->0,
        state is Some ==> r.state_store->0 == state->0,
        events is Some ==> r.event_cache_store->0 == events->0,
        media is Some ==> r.media_store->0 == media->0,
{
}

/// What a user set for previews and for avatars of invites is what is told of each.
pub proof fn preview_settings_are_told(
    config: Option<MediaPreviewConfig>,
    previews: Option<MediaPreviews>,
    avatars: Option<InviteAvatars>,
)
    requires
        call_ensures(media_preview_display_policy, (config,), previews),
        call_ensures(invite_avatars_display_policy, (config,), avatars),
    ensures
        config is None ==> previews is None && avatars is None,
        config is Some ==> previews == config->0.media_previews && avatars
            == config->0.invite_avatars,
{
}

/// A file is there until it is taken in order to be persisted; it is taken once, and handed back
/// where it could not be persisted.
pub proof fn files_are_taken_once<F>(
    file: F,
    made: MediaFileHandle<F>,
    handle: &mut MediaFileHandle<F>,
    first: Result<F, ClientError>,
    taken: &mut MediaFileHandle<F>,
    second: Result<F, ClientError>,
    back: Option<F>,
    after: &mut MediaFileHandle<F>,
    done: bool,
)
    requires
        call_ensures(MediaFileHandle::<F>::new, (file,), made),
        mut_ref_current(handle) == made,
        call_ensures(MediaFileHandle::<F>::take_for_persist, (handle,), first),
        mut_ref_current(taken) == mut_ref_future(handle),
        call_ensures(MediaFileHandle::<F>::take_for_persist, (taken,), second),
        mut_ref_current(after) == mut_ref_future(handle),
        call_ensures(MediaFileHandle::<F>::persisted, (after, back), done),
    ensures
        made.inner == Some(file),
        first == Ok::<F, ClientError>(file),
        second is Err,
        done <==> back is None,
        mut_ref_future(after).inner == back,
{
}

} // verus!
