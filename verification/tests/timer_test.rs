use chrono::NaiveDate;
use slidetalker::database::{check_code_exists, insert_task, TaskTable};
use slidetalker::date::{
    date_from_string, expired, get_date, get_datetime, get_last_week, last_week, local_time_at,
    until_midnight, Date, DateTime, CLOCK_LIMIT,
};
use slidetalker::timer::{delete_data, delete_logfile, logfile_stem, logfile_verdict};

fn today() -> Date {
    get_date().expect("Failed to read the clock")
}

fn a_week_ago() -> Date {
    get_last_week().expect("Failed to read the clock")
}

fn logfile_name(date: Date) -> String {
    let day = NaiveDate::from_num_days_from_ce_opt(date.days).unwrap();
    format!("{}.txt", day.format("%Y-%m-%d"))
}

#[test]
fn test_delete_data() {
    let tasks_to_delete = vec![
        ("task1", a_week_ago()),
        ("task2", a_week_ago()),
        ("task3", today()),
    ];
    let mut table = TaskTable::new();
    let mut dirs: Vec<String> = Vec::new();
    for (code, date) in tasks_to_delete {
        dirs.push(code.to_string());
        insert_task(&mut table, code, false, date).unwrap();
    }
    let swept = delete_data(&mut table, today());
    dirs.retain(|dir| !swept.contains(dir));
    assert_eq!(swept.len(), 2, "Failed to delete data");
    assert_eq!(check_code_exists(&table, "task1"), false);
    assert_eq!(check_code_exists(&table, "task3"), true);
    assert_eq!(dirs.contains(&"task1".to_string()), false);
    assert_eq!(dirs.contains(&"task3".to_string()), true);
}

#[test]
fn test_delete_logfile() {
    let mut logfiles = vec![logfile_name(a_week_ago())];
    let doomed = delete_logfile(&logfiles, today());
    assert_eq!(doomed.len(), 1, "Failed to delete data");
    logfiles.retain(|name| !doomed.contains(name));
    assert_eq!(logfiles.contains(&logfile_name(a_week_ago())), false);
}

#[test]
fn sweep_removes_exactly_the_jobs_a_week_old_or_older() {
    let today = Date { days: 738_000 };
    let mut table = TaskTable::new();
    insert_task(&mut table, "fresh", false, today).unwrap();
    insert_task(&mut table, "cutoff", true, Date { days: today.days - 7 }).unwrap();
    insert_task(&mut table, "inside", true, Date { days: today.days - 6 }).unwrap();
    insert_task(&mut table, "older", false, Date { days: today.days - 8 }).unwrap();
    let swept = delete_data(&mut table, today);
    assert_eq!(swept, vec!["cutoff".to_string(), "older".to_string()]);
    assert_eq!(table.len(), 2);
    assert!(check_code_exists(&table, "fresh"));
    assert!(check_code_exists(&table, "inside"));
    assert!(!check_code_exists(&table, "cutoff"));
    assert!(!check_code_exists(&table, "older"));
}

#[test]
fn sweep_at_the_cutoff_is_inclusive() {
    let today = Date { days: 100 };
    assert!(expired(Date { days: 93 }, today));
    assert!(!expired(Date { days: 94 }, today));
    assert!(expired(Date { days: i32::MIN }, today));
    assert!(!expired(Date { days: 0 }, Date { days: i32::MIN }));
    assert_eq!(last_week(today), Date { days: 93 });
}

#[test]
fn sweep_of_an_empty_store_removes_nothing() {
    let mut table = TaskTable::new();
    assert!(delete_data(&mut table, Date { days: 5 }).is_empty());
    assert_eq!(table.len(), 0);
}

#[test]
fn log_files_are_judged_by_the_date_in_their_stem() {
    let today = Date { days: date_from_string("2024-03-15").unwrap().days };
    let names: Vec<String> = [
        "2024-03-08.txt",
        "2024-03-09.txt",
        "2024-03-01.log.gz",
        "notes.txt",
        "2024-03-07",
        ".hidden",
        "2024-13-01.txt",
    ]
    .iter()
    .map(|n| n.to_string())
    .collect();
    let doomed = delete_logfile(&names, today);
    assert_eq!(
        doomed,
        vec![
            "2024-03-08.txt".to_string(),
            "2024-03-01.log.gz".to_string(),
            "2024-03-07".to_string()
        ]
    );
}

#[test]
fn stem_is_what_stands_before_the_first_full_stop() {
    assert_eq!(logfile_stem("2024-03-08.txt"), "2024-03-08");
    assert_eq!(logfile_stem("a.b.c"), "a");
    assert_eq!(logfile_stem("plain"), "plain");
    assert_eq!(logfile_stem(".hidden"), "");
    assert_eq!(logfile_stem(""), "");
    assert_eq!(logfile_stem("é日.x"), "é日");
}

#[test]
fn verdict_on_a_log_file_without_a_date_is_to_keep_it() {
    let today = Date { days: 50 };
    assert!(!logfile_verdict(None, today));
    assert!(logfile_verdict(Some(Date { days: 43 }), today));
    assert!(!logfile_verdict(Some(Date { days: 44 }), today));
}

#[test]
fn dates_are_read_as_day_numbers() {
    assert_eq!(date_from_string("1970-01-01"), Some(Date { days: 719_163 }));
    assert_eq!(date_from_string("0001-01-01"), Some(Date { days: 1 }));
    assert_eq!(date_from_string("2015-09-31"), None);
    assert_eq!(date_from_string("20150901"), None);
    assert_eq!(date_from_string(""), None);
}

#[test]
fn the_wait_until_midnight_is_what_is_left_of_the_day() {
    let at = |secs: u32, nanos: u32| DateTime { date: Date { days: 1 }, secs, nanos };
    assert_eq!(until_midnight(&at(0, 0)), (86_400, 0));
    assert_eq!(until_midnight(&at(86_399, 0)), (1, 0));
    assert_eq!(until_midnight(&at(86_399, 999_999_999)), (0, 1));
    assert_eq!(until_midnight(&at(3_600, 250_000_000)), (82_799, 750_000_000));
    assert_eq!(until_midnight(&at(86_399, 1_500_000_000)), (0, 0));
    assert_eq!(until_midnight(&at(u32::MAX, u32::MAX)), (0, 0));
}

#[test]
fn the_clock_gives_a_day_a_week_after_its_cutoff() {
    let today = today();
    let cutoff = a_week_ago();
    assert!(today.days - cutoff.days == 7 || today.days - cutoff.days == 8);
    assert!(today.days > 730_000);
    let now = get_datetime().expect("Failed to read the clock");
    assert!(now.secs < 86_400 && now.nanos < 2_000_000_000);
    assert!(now.date.days - today.days == 0 || now.date.days - today.days == 1);
}

#[test]
fn a_time_since_the_epoch_is_read_as_local_time() {
    let start = local_time_at(0).unwrap();
    assert!(start.date.days == 719_162 || start.date.days == 719_163);
    assert!(start.secs < 86_400);
    assert_eq!(start.nanos, 0);
    let later = local_time_at(86_400 * 1_000_000_000 + 5).unwrap();
    assert_eq!(later.date.days, start.date.days + 1);
    assert_eq!(later.secs, start.secs);
    assert_eq!(later.nanos, 5);
    assert!(local_time_at((CLOCK_LIMIT as u128) * 1_000_000_000 + 999_999_999).is_some());
    assert!(local_time_at((CLOCK_LIMIT as u128 + 1) * 1_000_000_000).is_none());
    assert!(local_time_at(u128::MAX).is_none());
}
