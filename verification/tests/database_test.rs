use slidetalker::database::{
    check_code_exists, copy_subtitles, delete_task_by_code, get_subtitles, get_task_email,
    get_task_info, get_task_status, insert_task, search_task_by_date, update_status_field,
    update_subtitles_status, update_task_email, update_task_status, update_task_subtitles,
    update_video_status, StatusField, StoreError, TaskTable,
};
use slidetalker::date::Date;
use slidetalker::model::subtitle::Subtitle;
use slidetalker::model::task::Status;

fn cue(text: &str) -> Subtitle {
    Subtitle::new(text.to_string(), "00:00:00,000".to_string(), "00:00:00,500".to_string())
}

#[test]
fn a_code_gets_one_row_and_no_second() {
    let mut table = TaskTable::new();
    assert_eq!(table.len(), 0);
    assert!(!check_code_exists(&table, "abc"));
    assert_eq!(insert_task(&mut table, "abc", true, Date { days: 3 }), Ok(()));
    assert!(check_code_exists(&table, "abc"));
    assert_eq!(
        insert_task(&mut table, "abc", false, Date { days: 4 }),
        Err(StoreError::DuplicateCode)
    );
    assert_eq!(table.len(), 1);
    let row = get_task_info(&table, "abc").unwrap();
    assert_eq!(row.code, "abc");
    assert_eq!(row.date, Date { days: 3 });
    assert_eq!(row.subs_status, Status::Processing);
    assert_eq!(insert_task(&mut table, "abd", false, Date { days: 4 }), Ok(()));
    assert_eq!(table.len(), 2);
    assert!(!check_code_exists(&table, "ab"));
    assert!(!check_code_exists(&table, "abcd"));
}

#[test]
fn a_missing_row_is_reported_by_the_reads_and_passed_over_by_the_writes() {
    let mut table = TaskTable::new();
    insert_task(&mut table, "here", false, Date { days: 1 }).unwrap();
    assert!(matches!(get_task_info(&table, "gone"), Err(StoreError::NoTaskFound)));
    assert_eq!(get_task_status(&table, "gone"), Err(StoreError::NoTaskFound));
    assert_eq!(get_task_email(&table, "gone"), Err(StoreError::NoTaskFound));
    assert!(matches!(get_subtitles(&table, "gone"), Err(StoreError::NoTaskFound)));
    update_task_status(&mut table, "gone", Status::Fail);
    update_task_email(&mut table, "gone", "someone@example.com");
    delete_task_by_code(&mut table, "gone");
    assert_eq!(table.len(), 1);
    let row = get_task_info(&table, "here").unwrap();
    assert_eq!(row.status, Status::Processing);
    assert_eq!(row.email, None);
}

#[test]
fn each_write_touches_one_field_of_one_row() {
    let mut table = TaskTable::new();
    insert_task(&mut table, "a", true, Date { days: 1 }).unwrap();
    insert_task(&mut table, "b", true, Date { days: 2 }).unwrap();
    update_task_status(&mut table, "a", Status::Finish);
    update_video_status(&mut table, "b", Status::Fail);
    update_subtitles_status(&mut table, "a", Status::Fail);
    update_task_email(&mut table, "b", "b@example.com");
    update_task_subtitles(&mut table, "a", &vec![cue("one"), cue("two")]);
    let a = get_task_info(&table, "a").unwrap();
    assert_eq!(
        (a.status, a.video_status, a.subs_status),
        (Status::Finish, Status::Processing, Status::Fail)
    );
    assert_eq!(a.email, None);
    assert_eq!(a.date, Date { days: 1 });
    let b = get_task_info(&table, "b").unwrap();
    assert_eq!(
        (b.status, b.video_status, b.subs_status),
        (Status::Processing, Status::Fail, Status::Processing)
    );
    assert_eq!(b.email, Some("b@example.com".to_string()));
    assert!(b.subtitles.is_none());
    assert_eq!(get_task_status(&table, "a"), Ok(Status::Finish));
    assert_eq!(get_task_email(&table, "b"), Ok(Some(&"b@example.com".to_string())));
    assert_eq!(get_task_email(&table, "a"), Ok(None));
    let stored = get_subtitles(&table, "a").unwrap();
    assert_eq!(stored.len(), 2);
    assert_eq!(stored[0].text, "one");
    assert_eq!(stored[1].text, "two");
    assert_eq!(stored[1].fontsize, 32);
    assert!(matches!(get_subtitles(&table, "b"), Err(StoreError::NoSubtitles)));
}

#[test]
fn the_three_statuses_are_written_through_one_door() {
    let mut table = TaskTable::new();
    insert_task(&mut table, "a", true, Date { days: 1 }).unwrap();
    update_status_field(&mut table, "a", StatusField::Task, Status::Fail);
    update_status_field(&mut table, "a", StatusField::Video, Status::Finish);
    let a = get_task_info(&table, "a").unwrap();
    assert_eq!(
        (a.status, a.video_status, a.subs_status),
        (Status::Fail, Status::Finish, Status::Processing)
    );
    update_status_field(&mut table, "a", StatusField::Subtitles, Status::Finish);
    assert_eq!(get_task_info(&table, "a").unwrap().subs_status, Status::Finish);
}

#[test]
fn a_terminal_status_outlives_every_write() {
    let mut table = TaskTable::new();
    insert_task(&mut table, "t", true, Date { days: 1 }).unwrap();
    update_task_status(&mut table, "t", Status::Fail);
    update_video_status(&mut table, "t", Status::Finish);
    update_subtitles_status(&mut table, "t", Status::Finish);
    update_task_email(&mut table, "t", "t@example.com");
    update_task_subtitles(&mut table, "t", &vec![cue("x")]);
    insert_task(&mut table, "u", false, Date { days: 1 }).unwrap();
    update_task_status(&mut table, "u", Status::Finish);
    delete_task_by_code(&mut table, "u");
    assert_eq!(insert_task(&mut table, "t", false, Date { days: 9 }), Err(StoreError::DuplicateCode));
    for status in [Status::Finish, Status::Processing, Status::Fail] {
        update_task_status(&mut table, "t", status);
        assert_eq!(get_task_status(&table, "t"), Ok(Status::Fail));
    }
    for status in [Status::Fail, Status::Processing, Status::Finish] {
        update_video_status(&mut table, "t", status);
        update_subtitles_status(&mut table, "t", status);
        update_status_field(&mut table, "t", StatusField::Video, status);
        let row = get_task_info(&table, "t").unwrap();
        assert_eq!(row.video_status, Status::Finish);
        assert_eq!(row.subs_status, Status::Finish);
        assert_eq!(row.status, Status::Fail);
    }
}

#[test]
fn a_status_in_progress_takes_what_is_written() {
    for status in [Status::Fail, Status::Processing, Status::Finish] {
        let mut table = TaskTable::new();
        insert_task(&mut table, "p", true, Date { days: 1 }).unwrap();
        update_task_status(&mut table, "p", status);
        update_video_status(&mut table, "p", status);
        update_subtitles_status(&mut table, "p", status);
        let row = get_task_info(&table, "p").unwrap();
        assert_eq!((row.status, row.video_status, row.subs_status), (status, status, status));
        assert_eq!(Status::Processing.advance(status), status);
        assert_eq!(Status::Fail.advance(status), Status::Fail);
        assert_eq!(Status::Finish.advance(status), Status::Finish);
    }
}

#[test]
fn deletion_removes_the_row_and_no_other() {
    let mut table = TaskTable::new();
    for (i, code) in ["a", "b", "c"].iter().enumerate() {
        insert_task(&mut table, code, false, Date { days: i as i32 }).unwrap();
    }
    delete_task_by_code(&mut table, "b");
    assert_eq!(table.len(), 2);
    assert!(check_code_exists(&table, "a"));
    assert!(!check_code_exists(&table, "b"));
    assert!(check_code_exists(&table, "c"));
    assert_eq!(insert_task(&mut table, "b", false, Date { days: 7 }), Ok(()));
    assert_eq!(
        search_task_by_date(&table, Date { days: 100 }),
        vec!["a".to_string(), "c".to_string(), "b".to_string()]
    );
}

#[test]
fn the_search_by_date_includes_the_cutoff_day() {
    let mut table = TaskTable::new();
    insert_task(&mut table, "old", false, Date { days: 10 }).unwrap();
    insert_task(&mut table, "new", false, Date { days: 12 }).unwrap();
    insert_task(&mut table, "edge", false, Date { days: 11 }).unwrap();
    assert_eq!(
        search_task_by_date(&table, Date { days: 11 }),
        vec!["old".to_string(), "edge".to_string()]
    );
    assert!(search_task_by_date(&table, Date { days: 9 }).is_empty());
    assert_eq!(table.len(), 3);
}

#[test]
fn a_copy_of_cues_holds_the_same_values() {
    let list = vec![cue("one"), cue("two")];
    let copy = copy_subtitles(&list);
    assert_eq!(copy.len(), 2);
    for (a, b) in list.iter().zip(copy.iter()) {
        assert_eq!(a.text, b.text);
        assert_eq!(a.fontsize, b.fontsize);
        assert_eq!(a.color, b.color);
        assert_eq!(a.font, b.font);
        assert_eq!(a.start_time, b.start_time);
        assert_eq!(a.end_time, b.end_time);
    }
}
