use slidetalker::database::{
    get_task_info, insert_task, update_subtitles_status, update_task_email, update_video_status,
    TaskTable,
};
use slidetalker::date::Date;
use slidetalker::model::task::Status;
use slidetalker::model::worker::{GenVideoRequest, MergeSubsRequest};
use slidetalker::worker::{
    finalize_status, merge_subs_decision, merge_subs_outcome, process_gen_video,
    process_merge_subs, result, start_merge_subs, FinalizeAction, Finalizer, GenVideoAction,
    GenVideoJob, MergeSubsAction, Step,
};

fn request(code: &str, remove_bg: bool, subtitle: bool) -> GenVideoRequest {
    GenVideoRequest {
        code: code.to_string(),
        position: "(0.5,0.5)".to_string(),
        shape: "circle".to_string(),
        remove_bg,
        subtitle,
    }
}

fn names(list: &[&str]) -> Vec<String> {
    list.iter().map(|n| n.to_string()).collect()
}

fn run(job: &mut GenVideoJob, outcomes: &[bool]) -> Vec<GenVideoAction> {
    let mut trace = vec![job.action()];
    for ok in outcomes {
        trace.push(job.record(*ok));
    }
    trace
}

#[test]
fn a_plain_job_runs_four_steps_marks_the_video_and_succeeds() {
    let mut job = GenVideoJob::new(&request("c", false, false));
    assert_eq!(
        run(&mut job, &[true; 5]),
        vec![
            GenVideoAction::Execute(Step::ExtractAudio),
            GenVideoAction::Execute(Step::SynthesizeHead),
            GenVideoAction::Execute(Step::MergeChunks),
            GenVideoAction::Execute(Step::CompositeAvatar),
            GenVideoAction::MarkVideoFinished,
            GenVideoAction::Finalize(true),
        ]
    );
}

#[test]
fn the_full_job_runs_every_step_in_order() {
    let mut job = GenVideoJob::new(&request("c", true, true));
    assert_eq!(
        run(&mut job, &[true; 8]),
        vec![
            GenVideoAction::Execute(Step::RemoveBackground),
            GenVideoAction::Execute(Step::ExtractAudio),
            GenVideoAction::Execute(Step::TranscribeAudio),
            GenVideoAction::Execute(Step::SynthesizeHead),
            GenVideoAction::Execute(Step::MergeChunks),
            GenVideoAction::Execute(Step::CompositeAvatar),
            GenVideoAction::MarkVideoFinished,
            GenVideoAction::Execute(Step::BurnCaptions),
            GenVideoAction::Finalize(true),
        ]
    );
}

#[test]
fn a_failure_ends_the_steps_at_once() {
    for fail_at in 0..8 {
        let mut job = GenVideoJob::new(&request("c", true, true));
        let mut outcomes = vec![true; fail_at];
        outcomes.push(false);
        let trace = run(&mut job, &outcomes);
        assert_eq!(trace.len(), fail_at + 2);
        assert_eq!(trace[fail_at + 1], GenVideoAction::Finalize(false));
        assert!(trace[..=fail_at].iter().all(|a| !matches!(a, GenVideoAction::Finalize(_))));
    }
}

#[test]
fn a_finished_job_takes_no_more_reports() {
    let mut job = GenVideoJob::new(&request("c", false, false));
    run(&mut job, &[true, false]);
    assert_eq!(job.record(true), GenVideoAction::Finalize(false));
    assert_eq!(job.record(false), GenVideoAction::Finalize(false));
    let mut done = GenVideoJob::new(&request("c", false, false));
    run(&mut done, &[true; 5]);
    assert_eq!(done.record(false), GenVideoAction::Finalize(true));
    assert_eq!(done.action(), GenVideoAction::Finalize(true));
}

#[test]
fn job_without_captions_finishes_after_the_first_stage() {
    let mut table = TaskTable::new();
    insert_task(&mut table, "plain", false, Date { days: 1 }).unwrap();
    {
        let row = get_task_info(&table, "plain").unwrap();
        assert_eq!(row.subs_status, Status::Finish);
        assert_eq!(row.video_status, Status::Processing);
        assert_eq!(row.status, Status::Processing);
    }
    let done = process_gen_video(
        &mut table,
        &request("plain", false, false),
        &vec![true, true, true, true],
        &names(&["video.mp4", "avatar.jpg", "audio.wav", "gen", "avatar_video.mp4", "result.mp4"]),
    );
    assert_eq!(done.status, Status::Finish);
    assert!(done.notice.is_none());
    assert_eq!(
        done.doomed,
        names(&["video.mp4", "avatar.jpg", "audio.wav", "gen", "avatar_video.mp4"])
    );
    let row = get_task_info(&table, "plain").unwrap();
    assert_eq!(row.video_status, Status::Finish);
    assert_eq!(row.status, Status::Finish);
    assert_eq!(row.subs_status, Status::Finish);
}

#[test]
fn a_failed_caption_burn_fails_the_job_but_not_the_video() {
    let mut table = TaskTable::new();
    insert_task(&mut table, "capt", true, Date { days: 1 }).unwrap();
    update_task_email(&mut table, "capt", "someone@example.com");
    let done = process_gen_video(
        &mut table,
        &request("capt", false, true),
        &vec![true, true, true, true, true, false],
        &names(&["result.mp4", "captions.srt"]),
    );
    assert_eq!(done.status, Status::Fail);
    let notice = done.notice.unwrap();
    assert_eq!(notice.to, "someone@example.com");
    assert_eq!(notice.body, "Video generation failed.");
    assert_eq!(done.doomed, names(&["captions.srt"]));
    let row = get_task_info(&table, "capt").unwrap();
    assert_eq!(row.status, Status::Fail);
    assert_eq!(row.video_status, Status::Finish);
    assert_eq!(row.subs_status, Status::Processing);
}

#[test]
fn a_failed_synthesis_step_leaves_the_video_in_progress() {
    let mut table = TaskTable::new();
    insert_task(&mut table, "early", true, Date { days: 1 }).unwrap();
    let done = process_gen_video(
        &mut table,
        &request("early", true, true),
        &vec![true, true, false, true, true, true, true],
        &vec![],
    );
    assert_eq!(done.status, Status::Fail);
    let row = get_task_info(&table, "early").unwrap();
    assert_eq!(row.status, Status::Fail);
    assert_eq!(row.video_status, Status::Processing);
}

#[test]
fn an_executor_that_stops_answering_fails_the_job() {
    let mut table = TaskTable::new();
    insert_task(&mut table, "short", false, Date { days: 1 }).unwrap();
    let done = process_gen_video(&mut table, &request("short", false, false), &vec![true, true], &vec![]);
    assert_eq!(done.status, Status::Fail);
    assert_eq!(get_task_info(&table, "short").unwrap().video_status, Status::Processing);
}

#[test]
fn a_job_with_captions_burns_them_and_succeeds() {
    let mut table = TaskTable::new();
    insert_task(&mut table, "all", true, Date { days: 1 }).unwrap();
    update_task_email(&mut table, "all", "someone@example.com");
    let done = process_gen_video(
        &mut table,
        &request("all", true, true),
        &vec![true; 7],
        &names(&["result.mp4", "result_with_captions.mp4", "captions.srt", "gen"]),
    );
    assert_eq!(done.status, Status::Finish);
    assert_eq!(
        done.notice.unwrap().body,
        "Hi, your video is ready, please download it from: http://localhost:3000/all"
    );
    assert_eq!(done.doomed, names(&["captions.srt", "gen"]));
    let row = get_task_info(&table, "all").unwrap();
    assert_eq!(row.status, Status::Finish);
    assert_eq!(row.video_status, Status::Finish);
}

#[test]
fn reviewed_captions_are_merged_once_both_sub_pipelines_have_finished() {
    let mut table = TaskTable::new();
    insert_task(&mut table, "inter", true, Date { days: 1 }).unwrap();
    update_video_status(&mut table, "inter", Status::Finish);
    update_subtitles_status(&mut table, "inter", Status::Finish);
    let merge = MergeSubsRequest { code: "inter".to_string() };
    assert_eq!(start_merge_subs(&table, &merge), MergeSubsAction::Merge);
    let done = process_merge_subs(
        &mut table,
        &merge,
        true,
        &names(&["result.mp4", "captions.srt", "result_with_captions.mp4"]),
    )
    .unwrap();
    assert_eq!(done.status, Status::Finish);
    assert_eq!(done.doomed, names(&["captions.srt"]));
    assert_eq!(get_task_info(&table, "inter").unwrap().status, Status::Finish);
}

#[test]
fn the_sub_statuses_finish_in_either_order() {
    let mut a = TaskTable::new();
    insert_task(&mut a, "x", true, Date { days: 1 }).unwrap();
    update_video_status(&mut a, "x", Status::Finish);
    assert_eq!(get_task_info(&a, "x").unwrap().subs_status, Status::Processing);
    update_subtitles_status(&mut a, "x", Status::Finish);
    let mut b = TaskTable::new();
    insert_task(&mut b, "x", true, Date { days: 1 }).unwrap();
    update_subtitles_status(&mut b, "x", Status::Finish);
    assert_eq!(get_task_info(&b, "x").unwrap().video_status, Status::Processing);
    update_video_status(&mut b, "x", Status::Finish);
    for table in [&a, &b] {
        let row = get_task_info(table, "x").unwrap();
        assert_eq!(row.video_status, Status::Finish);
        assert_eq!(row.subs_status, Status::Finish);
        assert_eq!(row.status, Status::Processing);
        assert!(row.is_joined());
    }
}

#[test]
fn a_merge_request_ahead_of_the_synthesis_is_dropped() {
    let mut table = TaskTable::new();
    insert_task(&mut table, "race", true, Date { days: 1 }).unwrap();
    update_subtitles_status(&mut table, "race", Status::Finish);
    let merge = MergeSubsRequest { code: "race".to_string() };
    assert_eq!(start_merge_subs(&table, &merge), MergeSubsAction::Drop);
    assert!(process_merge_subs(&mut table, &merge, true, &vec![]).is_none());
    let row = get_task_info(&table, "race").unwrap();
    assert_eq!(row.status, Status::Processing);
    assert_eq!(row.video_status, Status::Processing);
    assert_eq!(row.subs_status, Status::Finish);
}

#[test]
fn a_merge_request_for_an_unknown_job_is_finalized_as_failed() {
    let mut table = TaskTable::new();
    let merge = MergeSubsRequest { code: "ghost".to_string() };
    assert_eq!(start_merge_subs(&table, &merge), MergeSubsAction::Finalize(false));
    let done = process_merge_subs(&mut table, &merge, true, &names(&["x"])).unwrap();
    assert_eq!(done.status, Status::Fail);
    assert!(done.notice.is_none());
    assert_eq!(done.doomed, names(&["x"]));
    assert_eq!(table.len(), 0);
}

#[test]
fn the_merge_decision_follows_the_join() {
    assert_eq!(merge_subs_decision(None), MergeSubsAction::Finalize(false));
    assert_eq!(merge_subs_outcome(true), MergeSubsAction::Finalize(true));
    assert_eq!(merge_subs_outcome(false), MergeSubsAction::Finalize(false));
    let mut table = TaskTable::new();
    insert_task(&mut table, "j", false, Date { days: 1 }).unwrap();
    assert_eq!(
        merge_subs_decision(get_task_info(&table, "j").ok()),
        MergeSubsAction::Drop
    );
    update_video_status(&mut table, "j", Status::Finish);
    assert_eq!(
        merge_subs_decision(get_task_info(&table, "j").ok()),
        MergeSubsAction::Merge
    );
    insert_task(&mut table, "k", false, Date { days: 1 }).unwrap();
    update_video_status(&mut table, "k", Status::Fail);
    update_video_status(&mut table, "k", Status::Finish);
    assert_eq!(
        merge_subs_decision(get_task_info(&table, "k").ok()),
        MergeSubsAction::Drop
    );
}

#[test]
fn a_second_finalization_leaves_the_first_status() {
    for (first, second) in [(true, false), (false, true), (true, true), (false, false)] {
        let mut table = TaskTable::new();
        insert_task(&mut table, "twice", true, Date { days: 1 }).unwrap();
        let one = result(&mut table, "twice", first, &vec![]);
        assert_eq!(one.status, finalize_status(first));
        assert_eq!(get_task_info(&table, "twice").unwrap().status, finalize_status(first));
        result(&mut table, "twice", second, &vec![]);
        assert_eq!(get_task_info(&table, "twice").unwrap().status, finalize_status(first));
    }
}

#[test]
fn a_merge_after_a_failed_job_does_not_turn_it_into_a_finished_one() {
    let mut table = TaskTable::new();
    insert_task(&mut table, "late", true, Date { days: 1 }).unwrap();
    let done = process_gen_video(
        &mut table,
        &request("late", false, true),
        &vec![true, true, true, true, true, false],
        &vec![],
    );
    assert_eq!(done.status, Status::Fail);
    update_subtitles_status(&mut table, "late", Status::Finish);
    let merge = MergeSubsRequest { code: "late".to_string() };
    assert_eq!(start_merge_subs(&table, &merge), MergeSubsAction::Merge);
    assert!(process_merge_subs(&mut table, &merge, true, &vec![]).is_some());
    let row = get_task_info(&table, "late").unwrap();
    assert_eq!(row.status, Status::Fail);
    assert_eq!(row.video_status, Status::Finish);
    assert_eq!(row.subs_status, Status::Finish);
}

#[test]
fn a_failed_burn_of_reviewed_captions_fails_the_job() {
    let mut table = TaskTable::new();
    insert_task(&mut table, "m", false, Date { days: 1 }).unwrap();
    update_video_status(&mut table, "m", Status::Finish);
    let merge = MergeSubsRequest { code: "m".to_string() };
    let done = process_merge_subs(&mut table, &merge, false, &vec![]).unwrap();
    assert_eq!(done.status, Status::Fail);
    assert_eq!(get_task_info(&table, "m").unwrap().status, Status::Fail);
}

#[test]
fn finalization_writes_the_status_first_and_keeps_only_deliverables() {
    assert_eq!(finalize_status(true), Status::Finish);
    assert_eq!(finalize_status(false), Status::Fail);
    let mut table = TaskTable::new();
    insert_task(&mut table, "fin", true, Date { days: 1 }).unwrap();
    update_task_email(&mut table, "fin", "Some One <someone@example.com>");
    let entries = names(&[
        "video.mp4",
        "result.mp4",
        "gen",
        "result_with_captions.mp4",
        "audio.wav",
        "captions.srt",
        "avatar_video.mp4",
        "avatar.jpg",
    ]);
    let done = result(&mut table, "fin", true, &entries);
    assert_eq!(done.status, Status::Finish);
    assert_eq!(
        done.doomed,
        names(&["video.mp4", "gen", "audio.wav", "captions.srt", "avatar_video.mp4", "avatar.jpg"])
    );
    let left: Vec<&String> = entries.iter().filter(|e| !done.doomed.contains(e)).collect();
    assert_eq!(left, vec!["result.mp4", "result_with_captions.mp4"]);
    let notice = done.notice.unwrap();
    assert_eq!(notice.to, "Some One <someone@example.com>");
    assert_eq!(notice.subject, "Gen video done!");
    let row = get_task_info(&table, "fin").unwrap();
    assert_eq!(row.status, Status::Finish);
    assert_eq!(row.video_status, Status::Processing);
}

#[test]
fn the_finalizer_stops_after_a_failed_status_write_and_at_nothing_else() {
    let mut stopped = Finalizer::new(true);
    assert_eq!(stopped.action(), FinalizeAction::WriteStatus(Status::Finish));
    assert_eq!(stopped.record(false), FinalizeAction::Done(false));
    assert_eq!(stopped.record(true), FinalizeAction::Done(false));

    for (notified, cleaned) in [(true, true), (false, true), (true, false), (false, false)] {
        let mut finalizer = Finalizer::new(false);
        assert_eq!(finalizer.action(), FinalizeAction::WriteStatus(Status::Fail));
        assert_eq!(finalizer.record(true), FinalizeAction::Notify);
        assert_eq!(finalizer.record(notified), FinalizeAction::Cleanup);
        assert_eq!(finalizer.record(cleaned), FinalizeAction::Done(true));
        assert_eq!(finalizer.record(false), FinalizeAction::Done(true));
        assert_eq!(finalizer.action(), FinalizeAction::Done(true));
    }
}
