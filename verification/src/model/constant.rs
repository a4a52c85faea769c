//! Names of the entries of a job's working directory.

use vstd::prelude::*;

verus! {

/// The uploaded source video.
pub const VIDEO_FILE: &'static str = "video.mp4";

/// The uploaded avatar image.
pub const AVATAR_FILE: &'static str = "avatar.jpg";

/// The audio track extracted from the source video.
pub const AUDIO_FILE: &'static str = "audio.wav";

/// The directory that receives the synthesis chunks.
pub const GEN_DIR: &'static str = "gen";

/// The avatar clip merged from the chunks.
pub const AVATAR_VIDEO_FILE: &'static str = "avatar_video.mp4";

/// The deliverable without captions.
pub const RESULT_FILE: &'static str = "result.mp4";

/// The caption file, drafted by transcription and replaced on review.
pub const SUBS_FILE: &'static str = "captions.srt";

/// The deliverable with captions burnt in.
pub const RESULT_WITH_SUBS_FILE: &'static str = "result_with_captions.mp4";

} // verus!
