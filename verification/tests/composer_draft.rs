use matrix_sdk_ffi::composer_draft::{
    AudioInfo, ComposerDraft, ComposerDraftType, DraftAttachment, DraftAttachmentContent,
    DraftThumbnail, FileData, FileInfo, ImageInfo, MediaSource, StoredAttachment, StoredDraft,
    ThumbnailInfo, UploadError, UploadSource,
};
use matrix_sdk_ffi::duration::Duration;
use matrix_sdk_ffi::error::{ClientError, MediaInfoError, QueueWedgeError};
use matrix_sdk_ffi::send_queue::{AbstractProgress, RoomSendQueueUpdate, SdkRoomSendQueueUpdate};

fn stored_image() -> StoredAttachment {
    StoredAttachment {
        filename: "cat.png".to_owned(),
        content: DraftAttachmentContent::Image {
            data: vec![1, 2, 3],
            mimetype: Some("image/png".to_owned()),
            size: Some(3),
            width: Some(4),
            height: Some(5),
            blurhash: Some("b".to_owned()),
            thumbnail: Some(DraftThumbnail {
                filename: "t.png".to_owned(),
                data: vec![9],
                mimetype: Some("image/png".to_owned()),
                width: Some(1),
                height: Some(2),
                size: Some(1),
            }),
        },
    }
}

fn read(source: &UploadSource) -> FileData {
    match source {
        UploadSource::Data { bytes, filename } => {
            FileData { bytes: bytes.clone(), filename: filename.clone() }
        }
        UploadSource::File { .. } => panic!(),
    }
}

#[test]
fn kept_images_come_back() {
    let attachment = DraftAttachment::from(stored_image());
    assert!(attachment.has_thumbnail());
    let (file, thumbnail) = match &attachment {
        DraftAttachment::Image { image_info, source, thumbnail_source } => {
            assert_eq!(image_info.width, Some(4));
            assert_eq!(image_info.height, Some(5));
            (read(source), read(thumbnail_source.as_ref().unwrap()))
        }
        _ => panic!(),
    };
    assert_eq!(file.filename, "cat.png");
    assert_eq!(thumbnail.bytes, [9]);
    let stored = attachment.into_stored(Ok(file), Some(Ok(thumbnail))).ok().unwrap();
    assert_eq!(stored.filename, "cat.png");
    match stored.content {
        DraftAttachmentContent::Image {
            data, mimetype, size, width, height, blurhash, thumbnail,
        } => {
            assert_eq!(data, [1, 2, 3]);
            assert_eq!(mimetype.as_deref(), Some("image/png"));
            assert_eq!((size, width, height), (Some(3), Some(4), Some(5)));
            assert_eq!(blurhash.as_deref(), Some("b"));
            let thumbnail = thumbnail.unwrap();
            assert_eq!(thumbnail.filename, "t.png");
            assert_eq!(thumbnail.data, [9]);
            assert_eq!((thumbnail.width, thumbnail.height, thumbnail.size), (Some(1), Some(2), Some(1)));
        }
        _ => panic!(),
    }
}

#[test]
fn unreadable_files_are_errors() {
    let audio = || DraftAttachment::Audio {
        audio_info: AudioInfo {
            duration: Some(Duration::from_millis(5)),
            size: None,
            mimetype: None,
        },
        source: UploadSource::File { filename: "a".to_owned() },
    };
    assert!(!audio().has_thumbnail());
    assert!(audio().into_stored(Err(UploadError::NoName), None).is_err());
    assert!(audio().into_stored(Err(UploadError::Unreadable), None).is_err());
    let file = FileData { bytes: vec![], filename: "a".to_owned() };
    assert!(matches!(
        audio().into_stored(Ok(file), None),
        Ok(StoredAttachment { content: DraftAttachmentContent::Audio { duration: Some(_), .. }, .. })
    ));
}

#[test]
fn drafts_are_kept() {
    let draft = StoredDraft::new(
        "text".to_owned(),
        Some("<b>text</b>".to_owned()),
        ComposerDraftType::Reply { event_id: "$e:b.c".to_owned() },
        vec![stored_image()],
    );
    let draft = ComposerDraft::from(draft.ok().unwrap());
    assert_eq!(draft.plain_text, "text");
    assert_eq!(draft.html_text.as_deref(), Some("<b>text</b>"));
    assert!(matches!(draft.draft_type, ComposerDraftType::Reply { ref event_id } if event_id == "$e:b.c"));
    assert_eq!(draft.attachments.len(), 1);

    let odd = StoredDraft::new(
        "text".to_owned(),
        None,
        ComposerDraftType::Edit { event_id: "odd".to_owned() },
        vec![],
    );
    assert!(odd.is_err());
    assert!(ComposerDraftType::NewMessage.checked().is_ok());
}

fn image_info(thumbnail_source: Option<MediaSource>) -> ImageInfo {
    ImageInfo {
        height: Some(1),
        width: Some(2),
        mimetype: Some("image/png".to_owned()),
        size: Some(3),
        thumbnail_info: Some(ThumbnailInfo { height: None, width: None, mimetype: None, size: None }),
        thumbnail_source,
        blurhash: None,
        is_animated: None,
    }
}

#[test]
fn avatars_have_plain_thumbnails() {
    let plain = MediaSource::Plain { url: "mxc://a/b".to_owned() };
    assert!(matches!(
        image_info(Some(plain)).avatar_thumbnail_url(),
        Ok(Some(ref url)) if url == "mxc://a/b"
    ));
    assert!(matches!(image_info(None).avatar_thumbnail_url(), Ok(None)));
    let encrypted = MediaSource::Encrypted { json: "{}".to_owned() };
    assert!(matches!(
        image_info(Some(encrypted)).avatar_thumbnail_url(),
        Err(MediaInfoError::InvalidField)
    ));
}

#[test]
fn files_have_no_thumbnail_of_their_own() {
    let file = DraftAttachment::File {
        file_info: FileInfo { mimetype: None, size: None, thumbnail_info: None, thumbnail_source: None },
        source: UploadSource::File { filename: "a".to_owned() },
    };
    assert!(!file.has_thumbnail());
}

#[test]
fn queues_are_followed() {
    let text = || "t".to_owned();
    assert!(matches!(
        RoomSendQueueUpdate::try_from(SdkRoomSendQueueUpdate::SentEvent {
            transaction_id: text(),
            event_id: "$e".to_owned()
        }),
        Ok(RoomSendQueueUpdate::SentEvent { ref event_id, .. }) if event_id == "$e"
    ));
    assert!(matches!(
        RoomSendQueueUpdate::try_from(SdkRoomSendQueueUpdate::SendError {
            transaction_id: text(),
            error: QueueWedgeError::MissingMediaContent,
            is_recoverable: false
        }),
        Ok(RoomSendQueueUpdate::SendError { is_recoverable: false, .. })
    ));
    let upload = |file| SdkRoomSendQueueUpdate::MediaUpload {
        related_to: text(),
        file,
        index: 1,
        progress: AbstractProgress { current: 2, total: 3 },
    };
    assert!(matches!(
        RoomSendQueueUpdate::try_from(upload(None)),
        Ok(RoomSendQueueUpdate::MediaUpload { file: None, index: 1, .. })
    ));
    let source = MediaSource::Plain { url: "mxc://a/b".to_owned() };
    assert!(matches!(
        RoomSendQueueUpdate::try_from(upload(Some(Ok(source)))),
        Ok(RoomSendQueueUpdate::MediaUpload { file: Some(_), .. })
    ));
    let error = ClientError::Generic { msg: "m".to_owned(), details: None };
    assert!(RoomSendQueueUpdate::try_from(upload(Some(Err(error)))).is_err());
}
