use matrix_sdk_ffi::composer_draft::MediaSource;
use matrix_sdk_ffi::error::ClientError;
use matrix_sdk_ffi::media::{
    check_mime, check_upload_mime, invite_avatars_display_policy, media_preview_display_policy,
    InviteAvatars, MediaFileHandle, MediaFormat, MediaPreviewConfig, MediaPreviews, MediaRequest,
    StoreSizes, TransmissionProgress,
};
use mime::Mime;

fn generic(error: ClientError) -> (String, Option<String>) {
    match error {
        ClientError::Generic { msg, details } => (msg, details),
        ClientError::MatrixApi { .. } => panic!("the error is not from the API"),
    }
}

#[test]
fn mime_types_are_read_by_the_mime_crate() {
    for text in ["image/png", "Text/HTML; charset=utf-8", "image/svg+xml", "a", "", "a/b/c", "a/"] {
        match text.parse::<Mime>() {
            Ok(mime) => {
                assert_eq!(check_mime(text).ok().unwrap(), mime.to_string());
                assert_eq!(check_upload_mime(text).ok().unwrap(), mime.to_string());
            }
            Err(error) => {
                assert_eq!(
                    generic(check_mime(text).err().unwrap()),
                    (error.to_string(), Some(format!("{error:?}")))
                );
                let (msg, _) = generic(check_upload_mime(text).err().unwrap());
                assert_eq!(msg, format!("Parsing mime type: {error}"));
            }
        }
    }
    assert_eq!(check_mime("Image/PNG").ok().unwrap(), "image/png");
}

#[test]
fn file_is_persisted_once() {
    let mut handle = MediaFileHandle::new("file");
    assert_eq!(handle.file().ok(), Some(&"file"));
    assert_eq!(handle.take_for_persist().ok(), Some("file"));
    assert!(!handle.persisted(Some("file")));
    assert_eq!(handle.file().ok(), Some(&"file"));
    assert_eq!(handle.take_for_persist().ok(), Some("file"));
    assert!(handle.persisted(None));
    assert_eq!(
        generic(handle.file().err().unwrap()).0,
        "MediaFileHandle must not be used after calling persist"
    );
    assert_eq!(
        generic(handle.take_for_persist().err().unwrap()).0,
        "MediaFileHandle was already persisted"
    );
}

#[test]
fn policies_are_those_of_the_configuration() {
    let config = || MediaPreviewConfig {
        media_previews: Some(MediaPreviews::Private),
        invite_avatars: Some(InviteAvatars::Off),
    };
    assert!(matches!(media_preview_display_policy(Some(config())), Some(MediaPreviews::Private)));
    assert!(matches!(invite_avatars_display_policy(Some(config())), Some(InviteAvatars::Off)));
    assert!(media_preview_display_policy(None).is_none());
    assert!(invite_avatars_display_policy(None).is_none());
}

#[test]
fn counts_keep_their_values() {
    let progress = TransmissionProgress::from(3, 10);
    assert_eq!((progress.current, progress.total), (3, 10));
    let sizes = StoreSizes::from(Some(1), None, Some(3), None);
    assert_eq!(
        (sizes.crypto_store, sizes.state_store, sizes.event_cache_store, sizes.media_store),
        (Some(1), None, Some(3), None)
    );
}

#[test]
fn media_is_asked_for_in_its_format() {
    let source = || MediaSource::Plain { url: "mxc://example.org/a".to_owned() };
    let request = MediaRequest::file(source());
    assert!(matches!(request.format, MediaFormat::File));
    assert!(matches!(request.source, MediaSource::Plain { url } if url == "mxc://example.org/a"));
    let request = MediaRequest::thumbnail(source(), 320, 240);
    assert!(matches!(request.format, MediaFormat::Thumbnail { width: 320, height: 240 }));
}
