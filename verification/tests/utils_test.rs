use slidetalker::controller::{
    gen_subtitle, merge_avatar_video_chunks, merge_video_and_avatar_video,
    merge_video_and_subtitle, mp4_to_wav, remove_background, run_gen_video_python, step_call,
    Call, Role,
};
use slidetalker::model::worker::GenVideoRequest;
use slidetalker::text::str_eq;
use slidetalker::utils::{delete_file_in_dir, get_code_dir, get_file_path, keeps};
use slidetalker::worker::Step;

fn names(list: &[&str]) -> Vec<String> {
    list.iter().map(|n| n.to_string()).collect()
}

fn plain(call: &Call) -> (String, Vec<(String, String, Role)>) {
    (
        call.endpoint.clone(),
        call.arguments.iter().map(|a| (a.key.clone(), a.value.clone(), a.role)).collect(),
    )
}

fn arg(key: &str, value: &str, role: Role) -> (String, String, Role) {
    (key.to_string(), value.to_string(), role)
}

#[test]
fn paths_are_derived_from_the_code() {
    assert_eq!(get_code_dir("/srv/app", "abc12"), "/srv/app/tmp/abc12");
    assert_eq!(get_file_path("/srv/app", "abc12", "audio.wav"), "/srv/app/tmp/abc12/audio.wav");
    assert_eq!(get_file_path("", "", ""), "/tmp//");
    assert_eq!(get_file_path("/r", "c", ""), "/r/tmp/c/");
}

#[test]
fn cleanup_removes_everything_but_the_deliverables() {
    assert!(keeps("result.mp4"));
    assert!(keeps("result_with_captions.mp4"));
    assert!(!keeps("gen"));
    assert!(!keeps("Result.mp4"));
    assert!(!keeps("result.mp4 "));
    assert!(!keeps(""));
    assert_eq!(
        delete_file_in_dir(&names(&["gen", "result.mp4", "audio.wav", "result.mp4", "x"])),
        names(&["gen", "audio.wav", "x"])
    );
    assert!(delete_file_in_dir(&names(&["result.mp4", "result_with_captions.mp4"])).is_empty());
    assert!(delete_file_in_dir(&vec![]).is_empty());
}

#[test]
fn strings_are_equal_if_their_characters_are() {
    assert!(str_eq("", ""));
    assert!(str_eq("日本", "日本"));
    assert!(!str_eq("abc", "abd"));
    assert!(!str_eq("abc", "ab"));
    assert!(!str_eq("é", "e"));
}

#[test]
fn every_step_names_its_operation_and_its_paths() {
    let r = "/srv";
    let c = "abc12";
    assert_eq!(
        plain(&mp4_to_wav(r, c)),
        (
            "/convert_mp4_to_wav".to_string(),
            vec![
                arg("mp4_path", "/srv/tmp/abc12/video.mp4", Role::Existing),
                arg("wav_path", "/srv/tmp/abc12/audio.wav", Role::NewFile),
            ]
        )
    );
    assert_eq!(
        plain(&run_gen_video_python(r, c)),
        (
            "/gen".to_string(),
            vec![
                arg("audio_path", "/srv/tmp/abc12/audio.wav", Role::Existing),
                arg("image_path", "/srv/tmp/abc12/avatar.jpg", Role::Existing),
                arg("result_dir", "/srv/tmp/abc12/gen", Role::NewDir),
            ]
        )
    );
    assert_eq!(
        plain(&merge_avatar_video_chunks(r, c)),
        (
            "/merge_avatar_video_chunks".to_string(),
            vec![
                arg("chunks_dir", "/srv/tmp/abc12/gen", Role::Existing),
                arg("output_path", "/srv/tmp/abc12/avatar_video.mp4", Role::NewFile),
            ]
        )
    );
    assert_eq!(
        plain(&merge_video_and_avatar_video(r, c, "(0.5,0.25)", "circle")),
        (
            "/merge_video_and_avatar_video".to_string(),
            vec![
                arg("main_video_path", "/srv/tmp/abc12/video.mp4", Role::Existing),
                arg("avatar_video_path", "/srv/tmp/abc12/avatar_video.mp4", Role::Existing),
                arg("output_path", "/srv/tmp/abc12/result.mp4", Role::NewFile),
                arg("position", "(0.5,0.25)", Role::Value),
                arg("avatar_shape", "circle", Role::Value),
            ]
        )
    );
    assert_eq!(
        plain(&gen_subtitle(r, c)),
        (
            "/gen_subtitle".to_string(),
            vec![
                arg("file_path", "/srv/tmp/abc12/audio.wav", Role::Existing),
                arg("save_path", "/srv/tmp/abc12/captions.srt", Role::NewFile),
            ]
        )
    );
    assert_eq!(
        plain(&merge_video_and_subtitle(r, c)),
        (
            "/merge_video_and_subtitle".to_string(),
            vec![
                arg("video_path", "/srv/tmp/abc12/result.mp4", Role::Existing),
                arg("subtitle_path", "/srv/tmp/abc12/captions.srt", Role::Existing),
                arg("output_path", "/srv/tmp/abc12/result_with_captions.mp4", Role::NewFile),
            ]
        )
    );
    assert_eq!(
        plain(&remove_background(r, c)),
        (
            "/remove_background".to_string(),
            vec![arg("image_path", "/srv/tmp/abc12/avatar.jpg", Role::Existing)]
        )
    );
}

#[test]
fn the_call_of_a_step_is_the_call_of_its_operation() {
    let request = GenVideoRequest {
        code: "abc12".to_string(),
        position: "(0,1)".to_string(),
        shape: "rectangle".to_string(),
        remove_bg: true,
        subtitle: true,
    };
    let r = "/srv";
    let c = "abc12";
    let pairs = [
        (Step::RemoveBackground, remove_background(r, c)),
        (Step::ExtractAudio, mp4_to_wav(r, c)),
        (Step::TranscribeAudio, gen_subtitle(r, c)),
        (Step::SynthesizeHead, run_gen_video_python(r, c)),
        (Step::MergeChunks, merge_avatar_video_chunks(r, c)),
        (Step::CompositeAvatar, merge_video_and_avatar_video(r, c, "(0,1)", "rectangle")),
        (Step::BurnCaptions, merge_video_and_subtitle(r, c)),
    ];
    for (step, expected) in pairs.iter() {
        assert_eq!(plain(&step_call(*step, r, &request)), plain(expected));
    }
}
