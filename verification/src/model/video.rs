//! The uploads of a synthesis request and their validation.

use vstd::prelude::*;

verus! {

/// The kind of an uploaded file, as its content type declares it.
#[derive(Clone, Copy, Debug, PartialEq, Eq, Structural)]
pub enum Media {
    Mp4,
    Mov,
    Png,
    Jpeg,
    Other,
}

/// Why an upload is refused.
#[derive(Clone, Copy, Debug, PartialEq, Eq, Structural)]
pub enum UploadError {
    /// The video is neither MP4 nor MOV.
    VideoType,
    /// The avatar is neither PNG nor JPEG.
    AvatarType,
}

impl UploadError {
    /// The HTTP status that stands for a refused upload: the request cannot
    /// be processed.
    pub fn http_status(&self) -> (status: u16)
        ensures
            status == 422,
    {
        422
    }
}

/// Accepts the two uploads of a request exactly if each is of its kind; the
/// video is judged first.
pub fn validate_uploads(video: Option<Media>, avatar: Option<Media>) -> (checked: Result<
    (),
    UploadError,
>)
    ensures
        checked == (if !(video == Some(Media::Mp4) || video == Some(Media::Mov)) {
            Err::<(), UploadError>(UploadError::VideoType)
        } else if !(avatar == Some(Media::Png) || avatar == Some(Media::Jpeg)) {
            Err::<(), UploadError>(UploadError::AvatarType)
        } else {
            Ok::<(), UploadError>(())
        }),
{
    match validate_video(video) {
        Err(e) => Err(e),
        Ok(()) => validate_avatar(avatar),
    }
}

/// Accepts a source video exactly if it is declared as MP4 or MOV. An
/// upload that declares no content type is refused.
pub fn validate_video(media: Option<Media>) -> (checked: Result<(), UploadError>)
    ensures
        checked == (if media == Some(Media::Mp4) || media == Some(Media::Mov) {
            Ok::<(), UploadError>(())
        } else {
            Err::<(), UploadError>(UploadError::VideoType)
        }),
{
    match media {
        Some(Media::Mp4) => Ok(()),
        Some(Media::Mov) => Ok(()),
        _ => Err(UploadError::VideoType),
    }
}

/// Accepts an avatar image exactly if it is declared as PNG or JPEG. An
/// upload that declares no content type is refused.
pub fn validate_avatar(media: Option<Media>) -> (checked: Result<(), UploadError>)
    ensures
        checked == (if media == Some(Media::Png) || media == Some(Media::Jpeg) {
            Ok::<(), UploadError>(())
        } else {
            Err::<(), UploadError>(UploadError::AvatarType)
        }),
{
    match media {
        Some(Media::Png) => Ok(()),
        Some(Media::Jpeg) => Ok(()),
        _ => Err(UploadError::AvatarType),
    }
}

} // verus!
