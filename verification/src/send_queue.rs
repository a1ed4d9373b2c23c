//! What becomes of messages that are yet to be sent.

use vstd::prelude::*;

use crate::composer_draft::MediaSource;
use crate::error::{ClientError, QueueWedgeError};

verus! {

/// How much of something is done.
#[derive(Clone, Copy, Debug, PartialEq, Eq, Structural)]
pub struct AbstractProgress {
    pub current: u64,
    pub total: u64,
}

/// Told of updates of the send queue of a room.
pub trait SendQueueListener {
    fn on_update(&self, update: RoomSendQueueUpdate);
}

/// An update of the send queue of a room. A transaction ID tells events apart that
/// have no event ID yet.
pub enum RoomSendQueueUpdate {
    /// An event is about to be sent.
    NewLocalEvent { transaction_id: String },
    /// An event will not be sent after all.
    CancelledLocalEvent { transaction_id: String },
    /// An event will be sent with another content.
    ReplacedLocalEvent { transaction_id: String },
    /// An event could not be sent, and stays in the queue.
    SendError {
        transaction_id: String,
        error: QueueWedgeError,
        /// Whether sending may succeed later. If so, the queue is disabled; if not,
        /// the event is parked until it is cancelled.
        is_recoverable: bool,
    },
    /// An event that could not be sent is sent again.
    RetryEvent { transaction_id: String },
    /// An event was sent.
    SentEvent { transaction_id: String, event_id: String },
    /// More of a media was uploaded.
    MediaUpload {
        /// The event that the media is for.
        related_to: String,
        /// Where the media is found, once all of it was uploaded.
        file: Option<MediaSource>,
        /// The place of the media among those of the event.
        index: u64,
        progress: AbstractProgress,
    },
}

/// An update of the send queue of a room, as the SDK has it.
pub enum SdkRoomSendQueueUpdate {
    NewLocalEvent { transaction_id: String },
    CancelledLocalEvent { transaction_id: String },
    ReplacedLocalEvent { transaction_id: String },
    SendError { transaction_id: String, error: QueueWedgeError, is_recoverable: bool },
    RetryEvent { transaction_id: String },
    SentEvent { transaction_id: String, event_id: String },
    MediaUpload {
        related_to: String,
        /// Where the media is found, or why that cannot be said.
        file: Option<Result<MediaSource, ClientError>>,
        index: u64,
        progress: AbstractProgress,
    },
}

/// What an update of the SDK becomes: the same update, unless it cannot be said
/// where a media is found.
pub open spec fn queue_update_of(value: SdkRoomSendQueueUpdate) -> Result<
    RoomSendQueueUpdate,
    ClientError,
> {
    match value {
        SdkRoomSendQueueUpdate::NewLocalEvent { transaction_id } => Ok(
            RoomSendQueueUpdate::NewLocalEvent { transaction_id },
        ),
        SdkRoomSendQueueUpdate::CancelledLocalEvent { transaction_id } => Ok(
            RoomSendQueueUpdate::CancelledLocalEvent { transaction_id },
        ),
        SdkRoomSendQueueUpdate::ReplacedLocalEvent { transaction_id } => Ok(
            RoomSendQueueUpdate::ReplacedLocalEvent { transaction_id },
        ),
        SdkRoomSendQueueUpdate::SendError { transaction_id, error, is_recoverable } => Ok(
            RoomSendQueueUpdate::SendError { transaction_id, error, is_recoverable },
        ),
        SdkRoomSendQueueUpdate::RetryEvent { transaction_id } => Ok(
            RoomSendQueueUpdate::RetryEvent { transaction_id },
        ),
        SdkRoomSendQueueUpdate::SentEvent { transaction_id, event_id } => Ok(
            RoomSendQueueUpdate::SentEvent { transaction_id, event_id },
        ),
        SdkRoomSendQueueUpdate::MediaUpload { related_to, file, index, progress } => match file {
            None => Ok(
                RoomSendQueueUpdate::MediaUpload { related_to, file: None, index, progress },
            ),
            Some(Ok(source)) => Ok(
                RoomSendQueueUpdate::MediaUpload {
                    related_to,
                    file: Some(source),
                    index,
                    progress,
                },
            ),
            Some(Err(error)) => Err(error),
        },
    }
}

impl RoomSendQueueUpdate {
    /// What an update of the SDK becomes.
    pub fn try_from(value: SdkRoomSendQueueUpdate) -> (r: Result<RoomSendQueueUpdate, ClientError>)
        ensures
            r == queue_update_of(value),
    {
        match value {
            SdkRoomSendQueueUpdate::NewLocalEvent { transaction_id } => Ok(
                RoomSendQueueUpdate::NewLocalEvent { transaction_id },
            ),
            SdkRoomSendQueueUpdate::CancelledLocalEvent { transaction_id } => Ok(
                RoomSendQueueUpdate::CancelledLocalEvent { transaction_id },
            ),
            SdkRoomSendQueueUpdate::ReplacedLocalEvent { transaction_id } => Ok(
                RoomSendQueueUpdate::ReplacedLocalEvent { transaction_id },
            ),
            SdkRoomSendQueueUpdate::SendError { transaction_id, error, is_recoverable } => Ok(
                RoomSendQueueUpdate::SendError { transaction_id, error, is_recoverable },
            ),
            SdkRoomSendQueueUpdate::RetryEvent { transaction_id } => Ok(
                RoomSendQueueUpdate::RetryEvent { transaction_id },
            ),
            SdkRoomSendQueueUpdate::SentEvent { transaction_id, event_id } => Ok(
                RoomSendQueueUpdate::SentEvent { transaction_id, event_id },
            ),
            SdkRoomSendQueueUpdate::MediaUpload { related_to, file, index, progress } => {
                let file: Option<MediaSource> = match file {
                    None => None,
                    Some(Ok(source)) => Some(source),
                    Some(Err(error)) => return Err(error),
                };
                Ok(RoomSendQueueUpdate::MediaUpload { related_to, file, index, progress })
            },
        }
    }
}

/// What becomes of a message is told as what it is, of that message: nothing of an update is
/// lost but the error of a file, which is the error.
pub proof fn queue_updates_are_told(
    value: SdkRoomSendQueueUpdate,
    r: Result<RoomSendQueueUpdate, ClientError>,
)
    requires
        call_ensures(RoomSendQueueUpdate::try_from, (value,), r),
    ensures
        r is Err <==> (value matches SdkRoomSendQueueUpdate::MediaUpload { file: Some(file), .. }
            && file is Err),
        r matches Ok(update) ==> match update {
            RoomSendQueueUpdate::NewLocalEvent { transaction_id } => value
                == SdkRoomSendQueueUpdate::NewLocalEvent { transaction_id },
            RoomSendQueueUpdate::CancelledLocalEvent { transaction_id } => value
                == SdkRoomSendQueueUpdate::CancelledLocalEvent { transaction_id },
            RoomSendQueueUpdate::ReplacedLocalEvent { transaction_id } => value
                == SdkRoomSendQueueUpdate::ReplacedLocalEvent { transaction_id },
            RoomSendQueueUpdate::SendError { transaction_id, error, is_recoverable } => value
                == SdkRoomSendQueueUpdate::SendError { transaction_id, error, is_recoverable },
            RoomSendQueueUpdate::RetryEvent { transaction_id } => value
                == SdkRoomSendQueueUpdate::RetryEvent { transaction_id },
            RoomSendQueueUpdate::SentEvent { transaction_id, event_id } => value
                == SdkRoomSendQueueUpdate::SentEvent { transaction_id, event_id },
            RoomSendQueueUpdate::MediaUpload { related_to, file, index, progress } => value
                == SdkRoomSendQueueUpdate::MediaUpload {
                related_to,
                file: match file {
                    Some(source) => Some(Ok::<MediaSource, ClientError>(source)),
                    None => None,
                },
                index,
                progress,
            },
        },
{
}

} // verus!
