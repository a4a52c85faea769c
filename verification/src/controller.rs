//! The calls to the step executor: for each step, the operation to invoke
//! and the named paths to hand it, all derived from the job's code.

use vstd::prelude::*;
use vstd::string::*;

use crate::model::constant::{
    AUDIO_FILE, AVATAR_FILE, AVATAR_VIDEO_FILE, GEN_DIR, RESULT_FILE, RESULT_WITH_SUBS_FILE,
    SUBS_FILE, VIDEO_FILE,
};
use crate::model::worker::GenVideoRequest;
use crate::utils::{file_path, get_file_path};
use crate::worker::Step;

verus! {

/// What an argument of a call is, and so what has to be done before the
/// call is made.
#[derive(Clone, Copy, Debug, PartialEq, Eq, Structural)]
pub enum Role {
    /// The path of an entry that must exist; the step fails where it does
    /// not.
    Existing,
    /// The path of a file to create for the step to write.
    NewFile,
    /// The path of a directory to create for the step to fill.
    NewDir,
    /// A plain value.
    Value,
}

/// One named argument of a call.
#[derive(Debug)]
pub struct Argument {
    pub key: String,
    pub value: String,
    pub role: Role,
}

/// One named argument as plain values.
pub struct ArgumentView {
    pub key: Seq<char>,
    pub value: Seq<char>,
    pub role: Role,
}

impl View for Argument {
    type V = ArgumentView;

    open spec fn view(&self) -> ArgumentView {
        ArgumentView { key: self.key@, value: self.value@, role: self.role }
    }
}

/// A call to the step executor.
#[derive(Debug)]
pub struct Call {
    pub endpoint: String,
    pub arguments: Vec<Argument>,
}

/// A call as plain values.
pub struct CallView {
    pub endpoint: Seq<char>,
    pub arguments: Seq<ArgumentView>,
}

impl View for Call {
    type V = CallView;

    open spec fn view(&self) -> CallView {
        CallView {
            endpoint: self.endpoint@,
            arguments: self.arguments@.map_values(|argument: Argument| argument@),
        }
    }
}

/// The argument `key` that names the entry `name` of the job's working
/// directory.
pub open spec fn path_argument(
    key: Seq<char>,
    root: Seq<char>,
    code: Seq<char>,
    name: Seq<char>,
    role: Role,
) -> ArgumentView {
    ArgumentView { key, value: file_path(root, code, name), role }
}

/// The call that removes the background of the avatar image.
pub open spec fn remove_background_call(root: Seq<char>, code: Seq<char>) -> CallView {
    CallView {
        endpoint: "/remove_background"@,
        arguments: seq![path_argument("image_path"@, root, code, AVATAR_FILE@, Role::Existing)],
    }
}

/// The call that extracts the audio track of the source video.
pub open spec fn mp4_to_wav_call(root: Seq<char>, code: Seq<char>) -> CallView {
    CallView {
        endpoint: "/convert_mp4_to_wav"@,
        arguments: seq![
            path_argument("mp4_path"@, root, code, VIDEO_FILE@, Role::Existing),
            path_argument("wav_path"@, root, code, AUDIO_FILE@, Role::NewFile),
        ],
    }
}

/// The call that drafts captions from the audio track.
pub open spec fn gen_subtitle_call(root: Seq<char>, code: Seq<char>) -> CallView {
    CallView {
        endpoint: "/gen_subtitle"@,
        arguments: seq![
            path_argument("file_path"@, root, code, AUDIO_FILE@, Role::Existing),
            path_argument("save_path"@, root, code, SUBS_FILE@, Role::NewFile),
        ],
    }
}

/// The call that synthesizes the talking head, chunk by chunk.
pub open spec fn run_gen_video_python_call(root: Seq<char>, code: Seq<char>) -> CallView {
    CallView {
        endpoint: "/gen"@,
        arguments: seq![
            path_argument("audio_path"@, root, code, AUDIO_FILE@, Role::Existing),
            path_argument("image_path"@, root, code, AVATAR_FILE@, Role::Existing),
            path_argument("result_dir"@, root, code, GEN_DIR@, Role::NewDir),
        ],
    }
}

/// The call that merges the chunks into one avatar clip.
pub open spec fn merge_avatar_video_chunks_call(root: Seq<char>, code: Seq<char>) -> CallView {
    CallView {
        endpoint: "/merge_avatar_video_chunks"@,
        arguments: seq![
            path_argument("chunks_dir"@, root, code, GEN_DIR@, Role::Existing),
            path_argument("output_path"@, root, code, AVATAR_VIDEO_FILE@, Role::NewFile),
        ],
    }
}

/// The call that composites the avatar clip onto the source video.
pub open spec fn merge_video_and_avatar_video_call(
    root: Seq<char>,
    code: Seq<char>,
    position: Seq<char>,
    shape: Seq<char>,
) -> CallView {
    CallView {
        endpoint: "/merge_video_and_avatar_video"@,
        arguments: seq![
            path_argument("main_video_path"@, root, code, VIDEO_FILE@, Role::Existing),
            path_argument("avatar_video_path"@, root, code, AVATAR_VIDEO_FILE@, Role::Existing),
            path_argument("output_path"@, root, code, RESULT_FILE@, Role::NewFile),
            ArgumentView { key: "position"@, value: position, role: Role::Value },
            ArgumentView { key: "avatar_shape"@, value: shape, role: Role::Value },
        ],
    }
}

/// The call that burns the captions into the result.
pub open spec fn merge_video_and_subtitle_call(root: Seq<char>, code: Seq<char>) -> CallView {
    CallView {
        endpoint: "/merge_video_and_subtitle"@,
        arguments: seq![
            path_argument("video_path"@, root, code, RESULT_FILE@, Role::Existing),
            path_argument("subtitle_path"@, root, code, SUBS_FILE@, Role::Existing),
            path_argument("output_path"@, root, code, RESULT_WITH_SUBS_FILE@, Role::NewFile),
        ],
    }
}

/// The call for a step of the job of `request`.
pub open spec fn call_of(
    step: Step,
    root: Seq<char>,
    code: Seq<char>,
    position: Seq<char>,
    shape: Seq<char>,
) -> CallView {
    match step {
        Step::RemoveBackground => remove_background_call(root, code),
        Step::ExtractAudio => mp4_to_wav_call(root, code),
        Step::TranscribeAudio => gen_subtitle_call(root, code),
        Step::SynthesizeHead => run_gen_video_python_call(root, code),
        Step::MergeChunks => merge_avatar_video_chunks_call(root, code),
        Step::CompositeAvatar => merge_video_and_avatar_video_call(root, code, position, shape),
        Step::BurnCaptions => merge_video_and_subtitle_call(root, code),
    }
}

/// Builds the argument `key` for the entry `name` of the job's directory.
fn path_of(key: &str, root: &str, code: &str, name: &str, role: Role) -> (argument: Argument)
    ensures
        argument@ == path_argument(key@, root@, code@, name@, role),
{
    Argument { key: String::from_str(key), value: get_file_path(root, code, name), role }
}

/// Builds the call that removes the background of the avatar image.
pub fn remove_background(root: &str, code: &str) -> (call: Call)
    ensures
        call@ == remove_background_call(root@, code@),
{
    let mut arguments: Vec<Argument> = Vec::new();
    arguments.push(path_of("image_path", root, code, AVATAR_FILE, Role::Existing));
    let call = Call { endpoint: String::from_str("/remove_background"), arguments };
    assert(call@.arguments =~= remove_background_call(root@, code@).arguments);
    call
}

/// Builds the call that extracts the audio track of the source video.
pub fn mp4_to_wav(root: &str, code: &str) -> (call: Call)
    ensures
        call@ == mp4_to_wav_call(root@, code@),
{
    let mut arguments: Vec<Argument> = Vec::new();
    arguments.push(path_of("mp4_path", root, code, VIDEO_FILE, Role::Existing));
    arguments.push(path_of("wav_path", root, code, AUDIO_FILE, Role::NewFile));
    let call = Call { endpoint: String::from_str("/convert_mp4_to_wav"), arguments };
    assert(call@.arguments =~= mp4_to_wav_call(root@, code@).arguments);
    call
}

/// Builds the call that drafts captions from the audio track.
pub fn gen_subtitle(root: &str, code: &str) -> (call: Call)
    ensures
        call@ == gen_subtitle_call(root@, code@),
{
    let mut arguments: Vec<Argument> = Vec::new();
    arguments.push(path_of("file_path", root, code, AUDIO_FILE, Role::Existing));
    arguments.push(path_of("save_path", root, code, SUBS_FILE, Role::NewFile));
    let call = Call { endpoint: String::from_str("/gen_subtitle"), arguments };
    assert(call@.arguments =~= gen_subtitle_call(root@, code@).arguments);
    call
}

/// Builds the call that synthesizes the talking head.
pub fn run_gen_video_python(root: &str, code: &str) -> (call: Call)
    ensures
        call@ == run_gen_video_python_call(root@, code@),
{
    let mut arguments: Vec<Argument> = Vec::new();
    arguments.push(path_of("audio_path", root, code, AUDIO_FILE, Role::Existing));
    arguments.push(path_of("image_path", root, code, AVATAR_FILE, Role::Existing));
    arguments.push(path_of("result_dir", root, code, GEN_DIR, Role::NewDir));
    let call = Call { endpoint: String::from_str("/gen"), arguments };
    assert(call@.arguments =~= run_gen_video_python_call(root@, code@).arguments);
    call
}

/// Builds the call that merges the chunks into one avatar clip.
pub fn merge_avatar_video_chunks(root: &str, code: &str) -> (call: Call)
    ensures
        call@ == merge_avatar_video_chunks_call(root@, code@),
{
    let mut arguments: Vec<Argument> = Vec::new();
    arguments.push(path_of("chunks_dir", root, code, GEN_DIR, Role::Existing));
    arguments.push(path_of("output_path", root, code, AVATAR_VIDEO_FILE, Role::NewFile));
    let call = Call { endpoint: String::from_str("/merge_avatar_video_chunks"), arguments };
    assert(call@.arguments =~= merge_avatar_video_chunks_call(root@, code@).arguments);
    call
}

/// Builds the call that composites the avatar clip onto the source video at
/// `position`, under the mask `shape`.
pub fn merge_video_and_avatar_video(
    root: &str,
    code: &str,
    position: &str,
    shape: &str,
) -> (call: Call)
    ensures
        call@ == merge_video_and_avatar_video_call(root@, code@, position@, shape@),
{
    let mut arguments: Vec<Argument> = Vec::new();
    arguments.push(path_of("main_video_path", root, code, VIDEO_FILE, Role::Existing));
    arguments.push(path_of("avatar_video_path", root, code, AVATAR_VIDEO_FILE, Role::Existing));
    arguments.push(path_of("output_path", root, code, RESULT_FILE, Role::NewFile));
    arguments.push(
        Argument {
            key: String::from_str("position"),
            value: String::from_str(position),
            role: Role::Value,
        },
    );
    arguments.push(
        Argument {
            key: String::from_str("avatar_shape"),
            value: String::from_str(shape),
            role: Role::Value,
        },
    );
    let call = Call { endpoint: String::from_str("/merge_video_and_avatar_video"), arguments };
    assert(call@.arguments =~= merge_video_and_avatar_video_call(
        root@,
        code@,
        position@,
        shape@,
    ).arguments);
    call
}

/// Builds the call that burns the captions into the result.
pub fn merge_video_and_subtitle(root: &str, code: &str) -> (call: Call)
    ensures
        call@ == merge_video_and_subtitle_call(root@, code@),
{
    let mut arguments: Vec<Argument> = Vec::new();
    arguments.push(path_of("video_path", root, code, RESULT_FILE, Role::Existing));
    arguments.push(path_of("subtitle_path", root, code, SUBS_FILE, Role::Existing));
    arguments.push(path_of("output_path", root, code, RESULT_WITH_SUBS_FILE, Role::NewFile));
    let call = Call { endpoint: String::from_str("/merge_video_and_subtitle"), arguments };
    assert(call@.arguments =~= merge_video_and_subtitle_call(root@, code@).arguments);
    call
}

/// Builds the call for a step of the job of `request`, whose working
/// directory lies under `root`.
pub fn step_call(step: Step, root: &str, request: &GenVideoRequest) -> (call: Call)
    ensures
        call@ == call_of(step, root@, request.code@, request.position@, request.shape@),
{
    let code = request.code.as_str();
    match step {
        Step::RemoveBackground => remove_background(root, code),
        Step::ExtractAudio => mp4_to_wav(root, code),
        Step::TranscribeAudio => gen_subtitle(root, code),
        Step::SynthesizeHead => run_gen_video_python(root, code),
        Step::MergeChunks => merge_avatar_video_chunks(root, code),
        Step::CompositeAvatar => merge_video_and_avatar_video(
            root,
            code,
            request.position.as_str(),
            request.shape.as_str(),
        ),
        Step::BurnCaptions => merge_video_and_subtitle(root, code),
    }
}

} // verus!
