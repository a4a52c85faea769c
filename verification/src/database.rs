//! The task store as a table in memory: one row per job, read and written
//! field by field.

use vstd::prelude::*;
use vstd::string::*;

use crate::date::{expired, is_expired, Date};
use crate::model::subtitle::{cues, Subtitle, SubtitleView};
use crate::model::task::{Status, Task, TaskView};
use crate::text::{str_eq, texts};

verus! {

/// Why the store refuses an operation.
#[derive(Clone, Copy, Debug, PartialEq, Eq, Structural)]
pub enum StoreError {
    /// No row has the code.
    NoTaskFound,
    /// A row already has the code.
    DuplicateCode,
    /// The row has no captions.
    NoSubtitles,
}

/// One write to the store. Each write but the first and the last touches one
/// field of the rows that have the code, and no other field.
pub enum StoreOp {
    Insert { code: Seq<char>, subs: bool, date: Date },
    SetStatus { code: Seq<char>, status: Status },
    SetVideoStatus { code: Seq<char>, status: Status },
    SetSubsStatus { code: Seq<char>, status: Status },
    SetEmail { code: Seq<char>, email: Seq<char> },
    SetSubtitles { code: Seq<char>, subtitles: Seq<SubtitleView> },
    Delete { code: Seq<char> },
}

/// Whether some row has the code.
pub open spec fn has_code(rows: Seq<TaskView>, code: Seq<char>) -> bool {
    exists|i: int| 0 <= i < rows.len() && (#[trigger] rows[i]).code == code
}

/// Whether no two rows share a code.
pub open spec fn distinct_codes(rows: Seq<TaskView>) -> bool {
    forall|i: int, j: int|
        0 <= i < j < rows.len() ==> (#[trigger] rows[i]).code != (#[trigger] rows[j]).code
}

/// Whether `row` is the first row with the code (the only one, where codes
/// are distinct).
pub open spec fn is_row_of(rows: Seq<TaskView>, code: Seq<char>, row: TaskView) -> bool {
    exists|i: int|
        0 <= i < rows.len() && #[trigger] rows[i] == row && row.code == code && forall|k: int|
            0 <= k < i ==> (#[trigger] rows[k]).code != code
}

/// The row of a job: the first row with the code, if there is one.
pub open spec fn row_of(rows: Seq<TaskView>, code: Seq<char>) -> Option<TaskView> {
    if has_code(rows, code) {
        Some(choose|row: TaskView| is_row_of(rows, code, row))
    } else {
        None
    }
}

/// The first row with a code is the row of the job.
pub proof fn lemma_row_of(rows: Seq<TaskView>, code: Seq<char>, row: TaskView)
    requires
        is_row_of(rows, code, row),
    ensures
        row_of(rows, code) == Some(row),
        has_code(rows, code),
{
    let i = choose|i: int|
        0 <= i < rows.len() && #[trigger] rows[i] == row && row.code == code && forall|k: int|
            0 <= k < i ==> (#[trigger] rows[k]).code != code;
    assert(rows[i].code == code);
    let other = choose|other: TaskView| is_row_of(rows, code, other);
    let j = choose|j: int|
        0 <= j < rows.len() && #[trigger] rows[j] == other && other.code == code && forall|k: int|
            0 <= k < j ==> (#[trigger] rows[k]).code != code;
    if i < j {
        assert(rows[i].code != code);
    }
    if j < i {
        assert(rows[j].code != code);
    }
}

proof fn lemma_first_row_exists(rows: Seq<TaskView>, code: Seq<char>, upto: int)
    requires
        0 <= upto < rows.len(),
        rows[upto].code == code,
    ensures
        exists|row: TaskView| is_row_of(rows, code, row),
    decreases upto,
{
    if forall|k: int| 0 <= k < upto ==> (#[trigger] rows[k]).code != code {
        assert(is_row_of(rows, code, rows[upto]));
    } else {
        let k = choose|k: int| 0 <= k < upto && (#[trigger] rows[k]).code == code;
        lemma_first_row_exists(rows, code, k);
    }
}

/// Where a code has a row, the row of the job is its first.
pub proof fn lemma_row_of_is_first(rows: Seq<TaskView>, code: Seq<char>)
    requires
        has_code(rows, code),
    ensures
        row_of(rows, code) matches Some(row) && is_row_of(rows, code, row),
{
    let i = choose|i: int| 0 <= i < rows.len() && (#[trigger] rows[i]).code == code;
    lemma_first_row_exists(rows, code, i);
}

/// The rows that do not have the code.
pub open spec fn other_than(code: Seq<char>) -> spec_fn(TaskView) -> bool {
    |row: TaskView| row.code != code
}

/// The rows dated on or before the cutoff.
pub open spec fn dated_by(cutoff: Date) -> spec_fn(TaskView) -> bool {
    |row: TaskView| row.date.days <= cutoff.days
}

/// The rows that have left the retention window on `today`.
pub open spec fn expired_on(today: Date) -> spec_fn(TaskView) -> bool {
    |row: TaskView| is_expired(row.date, today)
}

/// The rows that are still within the retention window on `today`.
pub open spec fn kept_on(today: Date) -> spec_fn(TaskView) -> bool {
    |row: TaskView| !is_expired(row.date, today)
}

/// The codes of rows.
pub open spec fn codes_of(rows: Seq<TaskView>) -> Seq<Seq<char>> {
    rows.map_values(|row: TaskView| row.code)
}

/// The row after a write of one field, where it has the code; else the row
/// itself. A write of a status takes effect only on a status that is still
/// in progress: one that is `Finish` or `Fail` is never written over.
pub open spec fn written(row: TaskView, op: StoreOp) -> TaskView {
    match op {
        StoreOp::SetStatus { code, status } => if row.code == code {
            TaskView { status: row.status.advanced(status), ..row }
        } else {
            row
        },
        StoreOp::SetVideoStatus { code, status } => if row.code == code {
            TaskView { video_status: row.video_status.advanced(status), ..row }
        } else {
            row
        },
        StoreOp::SetSubsStatus { code, status } => if row.code == code {
            TaskView { subs_status: row.subs_status.advanced(status), ..row }
        } else {
            row
        },
        StoreOp::SetEmail { code, email } => if row.code == code {
            TaskView { email: Some(email), ..row }
        } else {
            row
        },
        StoreOp::SetSubtitles { code, subtitles } => if row.code == code {
            TaskView { subtitles: Some(subtitles), ..row }
        } else {
            row
        },
        _ => row,
    }
}

/// The rows after a write.
pub open spec fn apply(rows: Seq<TaskView>, op: StoreOp) -> Seq<TaskView> {
    match op {
        StoreOp::Insert { code, subs, date } => if has_code(rows, code) {
            rows
        } else {
            rows.push(TaskView::fresh(code, subs, date))
        },
        StoreOp::Delete { code } => rows.filter(other_than(code)),
        _ => Seq::new(rows.len(), |i: int| written(rows[i], op)),
    }
}

/// The rows of a list as plain values.
pub open spec fn views(rows: Seq<Task>) -> Seq<TaskView> {
    rows.map_values(|task: Task| task@)
}

/// The task store: the rows of all live jobs, in the order of admission. No
/// two rows of a store share a code.
pub struct TaskTable {
    rows: Vec<Task>,
}

impl View for TaskTable {
    type V = Seq<TaskView>;

    closed spec fn view(&self) -> Seq<TaskView> {
        views(self.rows@)
    }
}

/// The index of the first row with the code.
fn find(rows: &Vec<Task>, code: &str) -> (at: Option<usize>)
    ensures
        match at {
            Some(i) => {
                &&& i < rows@.len()
                &&& views(rows@)[i as int].code == code@
                &&& has_code(views(rows@), code@)
                &&& row_of(views(rows@), code@) == Some(views(rows@)[i as int])
            },
            None => !has_code(views(rows@), code@),
        },
{
    let mut i: usize = 0;
    while i < rows.len()
        invariant
            i <= rows@.len(),
            forall|k: int| 0 <= k < i ==> (#[trigger] views(rows@)[k]).code != code@,
        decreases rows.len() - i,
    {
        if str_eq(rows[i].code.as_str(), code) {
            proof {
                assert(is_row_of(views(rows@), code@, views(rows@)[i as int]));
                lemma_row_of(views(rows@), code@, views(rows@)[i as int]);
            }
            return Some(i);
        }
        i += 1;
    }
    None
}

/// One field-scoped write, with what it writes.
enum FieldWrite<'a> {
    Status(StatusField, Status),
    Email(&'a str),
    Subtitles(&'a Vec<Subtitle>),
}

impl<'a> FieldWrite<'a> {
    /// The write as an operation on the store.
    spec fn op(self, code: Seq<char>) -> StoreOp {
        match self {
            FieldWrite::Status(field, status) => status_write(field, code, status),
            FieldWrite::Email(email) => StoreOp::SetEmail { code, email: email@ },
            FieldWrite::Subtitles(list) => StoreOp::SetSubtitles { code, subtitles: cues(list@) },
        }
    }
}

impl TaskTable {
    #[verifier::type_invariant]
    spec fn codes_distinct(self) -> bool {
        distinct_codes(views(self.rows@))
    }

    /// A store without rows.
    pub fn new() -> (table: TaskTable)
        ensures
            table@ == Seq::<TaskView>::empty(),
            distinct_codes(table@),
    {
        let rows: Vec<Task> = Vec::new();
        assert(views(rows@) =~= Seq::<TaskView>::empty());
        TaskTable { rows }
    }

    /// How many rows the store holds; no two of them share a code.
    pub fn len(&self) -> (n: usize)
        ensures
            n == self@.len(),
            distinct_codes(self@),
    {
        proof {
            use_type_invariant(self);
        }
        self.rows.len()
    }

    /// Takes the rows out to work on them; the store is empty meanwhile.
    fn take(&mut self) -> (rows: Vec<Task>)
        ensures
            views(rows@) == old(self)@,
            distinct_codes(views(rows@)),
    {
        proof {
            use_type_invariant(&*self);
        }
        let mut rows: Vec<Task> = Vec::new();
        assert(views(rows@) =~= Seq::<TaskView>::empty());
        core::mem::swap(&mut self.rows, &mut rows);
        rows
    }

    /// Puts rows with distinct codes into the store.
    fn put(&mut self, rows: Vec<Task>)
        requires
            distinct_codes(views(rows@)),
        ensures
            final(self)@ == views(rows@),
    {
        let mut rows = rows;
        core::mem::swap(&mut self.rows, &mut rows);
    }

    /// Carries out one field-scoped write on the row of the code, if it has
    /// one.
    fn write(&mut self, code: &str, write: FieldWrite)
        ensures
            final(self)@ == apply(old(self)@, write.op(code@)),
            distinct_codes(final(self)@),
    {
        let ghost op = write.op(code@);
        let mut rows = self.take();
        let ghost before = views(rows@);
        match find(&rows, code) {
            Some(i) => {
                match write {
                    FieldWrite::Status(StatusField::Task, status) => {
                        rows[i].status = rows[i].status.advance(status);
                    },
                    FieldWrite::Status(StatusField::Video, status) => {
                        rows[i].video_status = rows[i].video_status.advance(status);
                    },
                    FieldWrite::Status(StatusField::Subtitles, status) => {
                        rows[i].subs_status = rows[i].subs_status.advance(status);
                    },
                    FieldWrite::Email(email) => {
                        rows[i].email = Some(String::from_str(email));
                    },
                    FieldWrite::Subtitles(list) => {
                        rows[i].subtitles = Some(copy_subtitles(list));
                    },
                }
                proof {
                    assert forall|k: int| 0 <= k < before.len() implies #[trigger] views(rows@)[k]
                        == written(before[k], op) by {
                        if k != i {
                            assert(before[k].code != before[i as int].code);
                        }
                    }
                }
            },
            None => {
                proof {
                    assert forall|k: int| 0 <= k < before.len() implies #[trigger] views(rows@)[k]
                        == written(before[k], op) by {
                        assert(before[k].code != code@);
                    }
                }
            },
        }
        proof {
            assert(views(rows@) =~= apply(before, op));
            lemma_codes_stay_distinct(before, op);
        }
        self.put(rows);
    }

    /// Removes the rows that have left the retention window on `today` and
    /// returns their codes.
    pub fn remove_expired(&mut self, today: Date) -> (swept: Vec<String>)
        ensures
            final(self)@ == old(self)@.filter(kept_on(today)),
            texts(swept@) == codes_of(old(self)@.filter(expired_on(today))),
            distinct_codes(final(self)@),
            texts(swept@).no_duplicates(),
    {
        let ghost keep = kept_on(today);
        let ghost gone = expired_on(today);
        let ghost mut seen: int = 0;
        let mut swept: Vec<String> = Vec::new();
        let mut rows = self.take();
        let ghost old_rows = views(rows@);
        let mut i: usize = 0;
        proof {
            reveal(Seq::filter);
            assert(views(rows@).take(0) =~= old_rows.take(0).filter(keep));
            assert(views(rows@).skip(0) =~= old_rows.skip(0));
            assert(texts(swept@) =~= codes_of(old_rows.take(0).filter(gone)));
        }
        while i < rows.len()
            invariant
                i <= rows@.len(),
                0 <= seen <= old_rows.len(),
                keep == kept_on(today),
                gone == expired_on(today),
                views(rows@).take(i as int) == old_rows.take(seen).filter(keep),
                views(rows@).skip(i as int) == old_rows.skip(seen),
                texts(swept@) == codes_of(old_rows.take(seen).filter(gone)),
            decreases rows.len() - i,
        {
            let ghost before = views(rows@);
            proof {
                assert(before.skip(i as int).len() == old_rows.skip(seen).len());
                assert(before[i as int] == before.skip(i as int)[0]);
                assert(old_rows[seen] == old_rows.skip(seen)[0]);
                assert(old_rows.take(seen + 1) =~= old_rows.take(seen).push(old_rows[seen]));
                old_rows.take(seen).lemma_filter_push(old_rows[seen], keep);
                old_rows.take(seen).lemma_filter_push(old_rows[seen], gone);
            }
            if expired(rows[i].date, today) {
                let ghost earlier = swept@;
                let row = rows.remove(i);
                swept.push(row.code);
                proof {
                    assert(views(rows@) =~= before.remove(i as int));
                    assert(views(rows@).take(i as int) =~= before.take(i as int));
                    assert(views(rows@).skip(i as int) =~= before.skip(i as int).skip(1));
                    assert(old_rows.skip(seen + 1) =~= old_rows.skip(seen).skip(1));
                    assert(texts(swept@) =~= texts(earlier).push(old_rows[seen].code));
                    assert(codes_of(old_rows.take(seen).filter(gone).push(old_rows[seen]))
                        =~= codes_of(old_rows.take(seen).filter(gone)).push(old_rows[seen].code));
                }
            } else {
                i += 1;
                proof {
                    assert(views(rows@).take(i as int) =~= before.take(i - 1).push(before[i - 1]));
                    assert(views(rows@).skip(i as int) =~= before.skip(i - 1).skip(1));
                    assert(old_rows.skip(seen + 1) =~= old_rows.skip(seen).skip(1));
                }
            }
            proof {
                seen = seen + 1;
            }
        }
        proof {
            assert(views(rows@).take(i as int) =~= views(rows@));
            assert(old_rows.skip(seen).len() == 0);
            assert(old_rows.take(seen) =~= old_rows);
            lemma_filter_is_subsequence(old_rows, keep);
            lemma_filter_is_subsequence(old_rows, gone);
            lemma_codes_have_no_duplicates(old_rows.filter(gone));
        }
        self.put(rows);
        swept
    }
}

/// The codes of rows with distinct codes hold no code twice.
pub proof fn lemma_codes_have_no_duplicates(rows: Seq<TaskView>)
    requires
        distinct_codes(rows),
    ensures
        codes_of(rows).no_duplicates(),
{
    assert forall|i: int, j: int|
        0 <= i < codes_of(rows).len() && 0 <= j < codes_of(rows).len() && i != j implies codes_of(
        rows,
    )[i] != codes_of(rows)[j] by {
        if i < j {
            assert(rows[i].code != rows[j].code);
        } else {
            assert(rows[j].code != rows[i].code);
        }
    }
}

/// Creates the row of a job admitted on `date`, in progress; `subs` says
/// whether captions were asked for. A code that a row already has is
/// refused, and the store stays as it is.
pub fn insert_task(
    table: &mut TaskTable,
    code: &str,
    subs: bool,
    date: Date,
) -> (done: Result<(), StoreError>)
    ensures
        final(table)@ == apply(old(table)@, StoreOp::Insert { code: code@, subs, date }),
        done == (if has_code(old(table)@, code@) {
            Err::<(), StoreError>(StoreError::DuplicateCode)
        } else {
            Ok::<(), StoreError>(())
        }),
        distinct_codes(final(table)@),
{
    let mut rows = table.take();
    let ghost before = views(rows@);
    let found = find(&rows, code);
    let done = match found {
        Some(_) => Err(StoreError::DuplicateCode),
        None => {
            rows.push(Task::new(String::from_str(code), subs, date));
            assert(views(rows@) =~= before.push(TaskView::fresh(code@, subs, date)));
            Ok(())
        },
    };
    proof {
        lemma_codes_stay_distinct(before, StoreOp::Insert { code: code@, subs, date });
    }
    table.put(rows);
    done
}

/// Whether a row has the code.
pub fn check_code_exists(table: &TaskTable, code: &str) -> (exists: bool)
    ensures
        exists == has_code(table@, code@),
        distinct_codes(table@),
{
    proof {
        use_type_invariant(table);
    }
    find(&table.rows, code).is_some()
}

/// The row of a job: the one row with its code.
pub fn get_task_info<'a>(table: &'a TaskTable, code: &str) -> (found: Result<&'a Task, StoreError>)
    ensures
        row_of(table@, code@) == (match found {
            Ok(task) => Some(task@),
            Err(_) => None,
        }),
        found is Err ==> found == Err::<&Task, StoreError>(StoreError::NoTaskFound),
        distinct_codes(table@),
{
    proof {
        use_type_invariant(table);
    }
    match find(&table.rows, code) {
        Some(i) => {
            Ok(&table.rows[i])
        },
        None => Err(StoreError::NoTaskFound),
    }
}

/// The overall status of a job.
pub fn get_task_status(table: &TaskTable, code: &str) -> (found: Result<Status, StoreError>)
    ensures
        found == (match row_of(table@, code@) {
            Some(row) => Ok::<Status, StoreError>(row.status),
            None => Err::<Status, StoreError>(StoreError::NoTaskFound),
        }),
{
    match get_task_info(table, code) {
        Ok(task) => Ok(task.status),
        Err(e) => Err(e),
    }
}

/// The address on the record of a job, if it has one.
pub fn get_task_email<'a>(
    table: &'a TaskTable,
    code: &str,
) -> (found: Result<Option<&'a String>, StoreError>)
    ensures
        match row_of(table@, code@) {
            Some(row) => found matches Ok(email) && row.email == (match email {
                Some(text) => Some(text@),
                None => None,
            }),
            None => found == Err::<Option<&String>, StoreError>(StoreError::NoTaskFound),
        },
{
    match get_task_info(table, code) {
        Ok(task) => Ok(task.email.as_ref()),
        Err(e) => Err(e),
    }
}

/// The captions on the record of a job.
pub fn get_subtitles<'a>(
    table: &'a TaskTable,
    code: &str,
) -> (found: Result<&'a Vec<Subtitle>, StoreError>)
    ensures
        match row_of(table@, code@) {
            Some(row) => match row.subtitles {
                Some(list) => found matches Ok(stored) && cues(stored@) == list,
                None => found == Err::<&Vec<Subtitle>, StoreError>(StoreError::NoSubtitles),
            },
            None => found == Err::<&Vec<Subtitle>, StoreError>(StoreError::NoTaskFound),
        },
{
    match get_task_info(table, code) {
        Ok(task) => match &task.subtitles {
            Some(list) => Ok(list),
            None => Err(StoreError::NoSubtitles),
        },
        Err(e) => Err(e),
    }
}

/// Which of the three statuses of a row a write is for.
#[derive(Clone, Copy, Debug, PartialEq, Eq, Structural)]
pub enum StatusField {
    Task,
    Video,
    Subtitles,
}

/// The write of a status to one of the three status fields.
pub open spec fn status_write(field: StatusField, code: Seq<char>, status: Status) -> StoreOp {
    match field {
        StatusField::Task => StoreOp::SetStatus { code, status },
        StatusField::Video => StoreOp::SetVideoStatus { code, status },
        StatusField::Subtitles => StoreOp::SetSubsStatus { code, status },
    }
}

/// Writes one status field of the row of the code, if that status is still
/// in progress: a status that is `Finish` or `Fail` stays what it is. A code
/// without a row leaves the store as it is.
pub fn update_status_field(table: &mut TaskTable, code: &str, field: StatusField, status: Status)
    ensures
        final(table)@ == apply(old(table)@, status_write(field, code@, status)),
        distinct_codes(final(table)@),
{
    table.write(code, FieldWrite::Status(field, status))
}

/// Writes the overall status of a job, unless it is terminal already.
pub fn update_task_status(table: &mut TaskTable, code: &str, status: Status)
    ensures
        final(table)@ == apply(old(table)@, StoreOp::SetStatus { code: code@, status }),
        distinct_codes(final(table)@),
{
    update_status_field(table, code, StatusField::Task, status)
}

/// Writes the status of the captioning sub-pipeline of a job, unless it is
/// terminal already.
pub fn update_subtitles_status(table: &mut TaskTable, code: &str, status: Status)
    ensures
        final(table)@ == apply(old(table)@, StoreOp::SetSubsStatus { code: code@, status }),
        distinct_codes(final(table)@),
{
    update_status_field(table, code, StatusField::Subtitles, status)
}

/// Writes the status of the synthesis sub-pipeline of a job, unless it is
/// terminal already.
pub fn update_video_status(table: &mut TaskTable, code: &str, status: Status)
    ensures
        final(table)@ == apply(old(table)@, StoreOp::SetVideoStatus { code: code@, status }),
        distinct_codes(final(table)@),
{
    update_status_field(table, code, StatusField::Video, status)
}

/// Writes the notification address of a job.
pub fn update_task_email(table: &mut TaskTable, code: &str, email: &str)
    ensures
        final(table)@ == apply(old(table)@, StoreOp::SetEmail { code: code@, email: email@ }),
        distinct_codes(final(table)@),
{
    table.write(code, FieldWrite::Email(email))
}

/// A copy of a cue.
pub fn copy_subtitle(cue: &Subtitle) -> (copy: Subtitle)
    ensures
        copy@ == cue@,
{
    Subtitle {
        text: cue.text.clone(),
        fontsize: cue.fontsize,
        color: cue.color.clone(),
        font: cue.font.clone(),
        start_time: cue.start_time.clone(),
        end_time: cue.end_time.clone(),
    }
}

/// A copy of a list of cues.
pub fn copy_subtitles(list: &Vec<Subtitle>) -> (copy: Vec<Subtitle>)
    ensures
        cues(copy@) == cues(list@),
{
    let mut copy: Vec<Subtitle> = Vec::new();
    let mut i: usize = 0;
    while i < list.len()
        invariant
            i <= list.len(),
            copy@.len() == i,
            forall|k: int| 0 <= k < i ==> (#[trigger] copy@[k])@ == list@[k]@,
        decreases list.len() - i,
    {
        copy.push(copy_subtitle(&list[i]));
        i += 1;
    }
    assert(cues(copy@) =~= cues(list@));
    copy
}

/// Writes the reviewed captions of a job.
pub fn update_task_subtitles(table: &mut TaskTable, code: &str, subs: &Vec<Subtitle>)
    ensures
        final(table)@ == apply(
            old(table)@,
            StoreOp::SetSubtitles { code: code@, subtitles: cues(subs@) },
        ),
        distinct_codes(final(table)@),
{
    table.write(code, FieldWrite::Subtitles(subs))
}

proof fn lemma_filter_keeps_all(rows: Seq<TaskView>, keep: spec_fn(TaskView) -> bool)
    requires
        forall|k: int| 0 <= k < rows.len() ==> keep(#[trigger] rows[k]),
    ensures
        rows.filter(keep) == rows,
    decreases rows.len(),
{
    reveal(Seq::filter);
    if rows.len() > 0 {
        let head = rows.drop_last();
        assert forall|k: int| 0 <= k < head.len() implies keep(#[trigger] head[k]) by {
            assert(head[k] == rows[k]);
        }
        lemma_filter_keeps_all(head, keep);
        assert(head.push(rows.last()) =~= rows);
    }
}

/// Among rows with distinct codes, taking out the one row of a code leaves
/// the rows that do not have the code.
proof fn lemma_remove_is_filter(rows: Seq<TaskView>, i: int, code: Seq<char>)
    requires
        distinct_codes(rows),
        0 <= i < rows.len(),
        rows[i].code == code,
    ensures
        rows.remove(i) == rows.filter(other_than(code)),
{
    let keep = other_than(code);
    let head = rows.take(i);
    let one = seq![rows[i]];
    let tail = rows.skip(i + 1);
    assert(rows =~= head + one + tail);
    Seq::filter_distributes_over_add(head + one, tail, keep);
    Seq::filter_distributes_over_add(head, one, keep);
    assert forall|k: int| 0 <= k < head.len() implies keep(#[trigger] head[k]) by {
        assert(rows[k].code != rows[i].code);
    }
    assert forall|k: int| 0 <= k < tail.len() implies keep(#[trigger] tail[k]) by {
        assert(rows[i].code != rows[i + 1 + k].code);
    }
    lemma_filter_keeps_all(head, keep);
    lemma_filter_keeps_all(tail, keep);
    assert(one.filter(keep) =~= Seq::<TaskView>::empty()) by {
        reveal_with_fuel(Seq::filter, 2);
        assert(one.drop_last() =~= Seq::<TaskView>::empty());
    }
    assert(rows.remove(i) =~= head + tail);
}

/// Removes the row of the code, if it has one.
pub fn delete_task_by_code(table: &mut TaskTable, code: &str)
    ensures
        final(table)@ == apply(old(table)@, StoreOp::Delete { code: code@ }),
        distinct_codes(final(table)@),
{
    let mut rows = table.take();
    let ghost before = views(rows@);
    match find(&rows, code) {
        Some(i) => {
            rows.remove(i);
            proof {
                assert(views(rows@) =~= before.remove(i as int));
                lemma_remove_is_filter(before, i as int, code@);
            }
        },
        None => {
            proof {
                assert forall|k: int| 0 <= k < before.len() implies other_than(code@)(
                    #[trigger] before[k],
                ) by {
                    assert(before[k].code != code@);
                }
                lemma_filter_keeps_all(before, other_than(code@));
            }
        },
    }
    proof {
        lemma_codes_stay_distinct(before, StoreOp::Delete { code: code@ });
    }
    table.put(rows);
}

/// The codes of the rows dated on or before the cutoff, in the order of the
/// rows: each code once, none of a younger row, and none that is due
/// missing. The store is only read.
pub fn search_task_by_date(table: &TaskTable, cutoff: Date) -> (codes: Vec<String>)
    ensures
        texts(codes@) == codes_of(table@.filter(dated_by(cutoff))),
        texts(codes@).no_duplicates(),
        distinct_codes(table@),
{
    let ghost hit = dated_by(cutoff);
    let mut codes: Vec<String> = Vec::new();
    let mut i: usize = 0;
    proof {
        use_type_invariant(table);
        reveal(Seq::filter);
        assert(texts(codes@) =~= codes_of(table@.take(0).filter(hit)));
    }
    while i < table.rows.len()
        invariant
            i <= table.rows@.len(),
            table@ == views(table.rows@),
            hit == dated_by(cutoff),
            texts(codes@) == codes_of(table@.take(i as int).filter(hit)),
        decreases table.rows.len() - i,
    {
        let ghost head = table@.take(i as int);
        proof {
            assert(table@.take(i + 1) =~= head.push(table@[i as int]));
            head.lemma_filter_push(table@[i as int], hit);
        }
        if table.rows[i].date.days <= cutoff.days {
            let ghost earlier = codes@;
            codes.push(table.rows[i].code.clone());
            proof {
                assert(texts(codes@) =~= texts(earlier).push(table@[i as int].code));
                assert(codes_of(head.filter(hit).push(table@[i as int])) =~= codes_of(
                    head.filter(hit),
                ).push(table@[i as int].code));
            }
        }
        i += 1;
    }
    proof {
        assert(table@.take(i as int) =~= table@);
        lemma_filter_is_subsequence(table@, hit);
        lemma_codes_have_no_duplicates(table@.filter(hit));
    }
    codes
}

/// Whether a write removes the row of the code: the one write that ends
/// what the status laws speak of.
pub open spec fn removes(op: StoreOp, code: Seq<char>) -> bool {
    op matches StoreOp::Delete { code: c } && c == code
}

/// Whether a row keeps every status that was terminal in an earlier state of
/// it: a status moves from `Processing` to `Finish` or `Fail` and never back
/// or across.
pub open spec fn keeps_terminal(before: TaskView, after: TaskView) -> bool {
    &&& before.status.terminal() ==> after.status == before.status
    &&& before.video_status.terminal() ==> after.video_status == before.video_status
    &&& before.subs_status.terminal() ==> after.subs_status == before.subs_status
}

/// Whether a write is one of the field-scoped writes.
pub open spec fn is_field_write(op: StoreOp) -> bool {
    !(op is Insert) && !(op is Delete)
}

proof fn lemma_filter_keeps_row(rows: Seq<TaskView>, keep: spec_fn(TaskView) -> bool, i: int)
    requires
        0 <= i < rows.len(),
        keep(rows[i]),
    ensures
        ({
            let at = rows.take(i).filter(keep).len() as int;
            &&& at < rows.filter(keep).len()
            &&& rows.filter(keep)[at] == rows[i]
            &&& forall|k: int|
                0 <= k < at ==> rows.take(i).contains(#[trigger] rows.filter(keep)[k])
        }),
{
    broadcast use vstd::seq_lib::group_filter_ensures;

    let head = rows.take(i);
    let tail = rows.skip(i);
    assert(rows =~= head + tail);
    Seq::filter_distributes_over_add(head, tail, keep);
    assert(tail =~= seq![rows[i]] + tail.skip(1));
    Seq::filter_distributes_over_add(seq![rows[i]], tail.skip(1), keep);
    assert(seq![rows[i]].filter(keep) =~= seq![rows[i]]) by {
        reveal_with_fuel(Seq::filter, 2);
        assert(seq![rows[i]].drop_last() =~= Seq::<TaskView>::empty());
    }
    let at = head.filter(keep).len() as int;
    assert forall|k: int| 0 <= k < at implies head.contains(#[trigger] rows.filter(keep)[k]) by {
        assert(rows.filter(keep)[k] == head.filter(keep)[k]);
        assert(head.filter(keep).contains(head.filter(keep)[k]));
        head.lemma_filter_contains_rev(keep, head.filter(keep)[k]);
    }
}

/// Every write keeps the codes of the store distinct: no write makes a
/// second row for a code, and an insertion is refused where the code has a
/// row.
pub proof fn lemma_codes_stay_distinct(rows: Seq<TaskView>, op: StoreOp)
    requires
        distinct_codes(rows),
    ensures
        distinct_codes(apply(rows, op)),
{
    let after = apply(rows, op);
    match op {
        StoreOp::Insert { code, subs, date } => {
            if !has_code(rows, code) {
                assert forall|i: int, j: int| 0 <= i < j < after.len() implies (#[trigger] after[i]).code
                    != (#[trigger] after[j]).code by {
                    if j == rows.len() {
                        assert(rows[i].code != code);
                    }
                }
            }
        },
        StoreOp::Delete { code } => {
            lemma_filter_is_subsequence(rows, other_than(code));
        },
        _ => {},
    }
}

/// The rows that a filter keeps stand in their old order.
proof fn lemma_filter_is_subsequence(rows: Seq<TaskView>, keep: spec_fn(TaskView) -> bool)
    requires
        distinct_codes(rows),
    ensures
        distinct_codes(rows.filter(keep)),
        forall|k: int|
            0 <= k < rows.filter(keep).len() ==> rows.contains(#[trigger] rows.filter(keep)[k]),
    decreases rows.len(),
{
    broadcast use vstd::seq_lib::group_filter_ensures;

    reveal(Seq::filter);
    if rows.len() > 0 {
        let head = rows.drop_last();
        lemma_filter_is_subsequence(head, keep);
        let kept = rows.filter(keep);
        assert forall|i: int, j: int| 0 <= i < j < kept.len() implies (#[trigger] kept[i]).code
            != (#[trigger] kept[j]).code by {
            if j == head.filter(keep).len() {
                assert(head.filter(keep).contains(head.filter(keep)[i]));
                head.lemma_filter_contains_rev(keep, head.filter(keep)[i]);
                assert(head.contains(head.filter(keep)[i]));
                let at = choose|at: int| 0 <= at < head.len() && head[at] == head.filter(keep)[i];
                assert(rows[at].code != rows[rows.len() - 1].code);
            }
        }
    }
}

/// A code that was admitted is refused to every later admission, so two
/// admissions that both succeed have different codes: a write that is no
/// removal keeps every code that has a row.
pub proof fn lemma_admitted_code_is_taken(rows: Seq<TaskView>, code: Seq<char>, op: StoreOp)
    requires
        has_code(rows, code),
        !(op matches StoreOp::Delete { code: c } && c == code),
    ensures
        has_code(apply(rows, op), code),
{
    let i = choose|i: int| 0 <= i < rows.len() && (#[trigger] rows[i]).code == code;
    let after = apply(rows, op);
    match op {
        StoreOp::Insert { code: c, subs, date } => {
            assert(after[i].code == code);
        },
        StoreOp::Delete { code: c } => {
            lemma_filter_keeps_row(rows, other_than(c), i);
            let at = rows.take(i).filter(other_than(c)).len() as int;
            assert(after[at].code == code);
        },
        _ => {
            assert(after[i].code == code);
        },
    }
}

/// An admission gives the code a row, and the code had none before.
pub proof fn lemma_insert_admits(rows: Seq<TaskView>, code: Seq<char>, subs: bool, date: Date)
    requires
        !has_code(rows, code),
    ensures
        ({
            let after = apply(rows, StoreOp::Insert { code, subs, date });
            &&& has_code(after, code)
            &&& row_of(after, code) == Some(TaskView::fresh(code, subs, date))
            &&& forall|other: Seq<char>| has_code(rows, other) ==> other != code
        }),
{
    let after = apply(rows, StoreOp::Insert { code, subs, date });
    assert(after[rows.len() as int] == TaskView::fresh(code, subs, date));
    assert forall|k: int| 0 <= k < rows.len() implies (#[trigger] after[k]).code != code by {
        assert(rows[k].code != code);
    }
    assert(is_row_of(after, code, TaskView::fresh(code, subs, date)));
    lemma_row_of(after, code, TaskView::fresh(code, subs, date));
}

/// Once a status of a job is `Finish` or `Fail`, no write changes it: after
/// any write that does not remove the row of the job, the job has its row
/// and each of its three statuses that was terminal is what it was.
pub proof fn lemma_terminal_status_is_kept(
    rows: Seq<TaskView>,
    code: Seq<char>,
    row: TaskView,
    op: StoreOp,
)
    requires
        row_of(rows, code) == Some(row),
        !removes(op, code),
    ensures
        row_of(apply(rows, op), code) matches Some(after) && keeps_terminal(row, after),
{
    lemma_row_of_is_first(rows, code);
    let i = choose|i: int|
        0 <= i < rows.len() && #[trigger] rows[i] == row && row.code == code && forall|k: int|
            0 <= k < i ==> (#[trigger] rows[k]).code != code;
    let next = apply(rows, op);
    match op {
        StoreOp::Insert { code: c, subs, date } => {
            assert(next[i] == row);
            assert(is_row_of(next, code, row));
            lemma_row_of(next, code, row);
        },
        StoreOp::Delete { code: c } => {
            lemma_filter_keeps_row(rows, other_than(c), i);
            let at = rows.take(i).filter(other_than(c)).len() as int;
            assert forall|k: int| 0 <= k < at implies (#[trigger] next[k]).code != code by {
                assert(rows.take(i).contains(next[k]));
                let j = choose|j: int| 0 <= j < rows.take(i).len() && rows.take(i)[j] == next[k];
                assert(rows[j].code != code);
            }
            assert(next[at] == row);
            assert(is_row_of(next, code, row));
            lemma_row_of(next, code, row);
        },
        _ => {
            let after = written(row, op);
            assert(next[i] == after);
            assert forall|k: int| 0 <= k < i implies (#[trigger] next[k]).code != code by {
                assert(rows[k].code != code);
            }
            assert(is_row_of(next, code, after));
            lemma_row_of(next, code, after);
        },
    }
}

/// The two sub-statuses are independent: a write of one leaves the other,
/// and the overall status, as they were in every row, and the two writes
/// give the same store in either order, in which each sub-status that was in
/// progress has the status written to it.
pub proof fn lemma_sub_statuses_independent(
    rows: Seq<TaskView>,
    code: Seq<char>,
    video: Status,
    subs: Status,
)
    ensures
        ({
            let set_video = StoreOp::SetVideoStatus { code, status: video };
            let set_subs = StoreOp::SetSubsStatus { code, status: subs };
            &&& apply(apply(rows, set_video), set_subs) == apply(apply(rows, set_subs), set_video)
            &&& forall|i: int|
                0 <= i < rows.len() ==> {
                    &&& (#[trigger] apply(rows, set_video)[i]).subs_status == rows[i].subs_status
                    &&& apply(rows, set_video)[i].status == rows[i].status
                }
            &&& forall|i: int|
                0 <= i < rows.len() ==> {
                    &&& (#[trigger] apply(rows, set_subs)[i]).video_status == rows[i].video_status
                    &&& apply(rows, set_subs)[i].status == rows[i].status
                }
            &&& forall|i: int|
                0 <= i < rows.len() && rows[i].code == code ==> {
                    &&& (#[trigger] apply(apply(rows, set_video), set_subs)[i]).video_status
                        == rows[i].video_status.advanced(video)
                    &&& apply(apply(rows, set_video), set_subs)[i].subs_status
                        == rows[i].subs_status.advanced(subs)
                }
        }),
{
    let set_video = StoreOp::SetVideoStatus { code, status: video };
    let set_subs = StoreOp::SetSubsStatus { code, status: subs };
    assert(apply(apply(rows, set_video), set_subs) =~= apply(apply(rows, set_subs), set_video));
}

/// A field-scoped write changes, in the rows that have its code, the one
/// field it names, and nothing in any other row.
pub proof fn lemma_field_write_is_scoped(rows: Seq<TaskView>, op: StoreOp, i: int)
    requires
        is_field_write(op),
        0 <= i < rows.len(),
    ensures
        apply(rows, op).len() == rows.len(),
        apply(rows, op)[i] == written(rows[i], op),
        apply(rows, op)[i].code == rows[i].code,
        apply(rows, op)[i].date == rows[i].date,
        !(op is SetStatus) ==> apply(rows, op)[i].status == rows[i].status,
        !(op is SetVideoStatus) ==> apply(rows, op)[i].video_status == rows[i].video_status,
        !(op is SetSubsStatus) ==> apply(rows, op)[i].subs_status == rows[i].subs_status,
        !(op is SetEmail) ==> apply(rows, op)[i].email == rows[i].email,
        !(op is SetSubtitles) ==> apply(rows, op)[i].subtitles == rows[i].subtitles,
{
}

/// The rows after a run of writes, in order.
pub open spec fn apply_all(rows: Seq<TaskView>, ops: Seq<StoreOp>) -> Seq<TaskView>
    decreases ops.len(),
{
    if ops.len() == 0 {
        rows
    } else {
        apply_all(apply(rows, ops[0]), ops.drop_first())
    }
}

/// Whatever is written, in whatever order, the codes of the store stay
/// distinct.
pub proof fn lemma_codes_distinct_for_ever(rows: Seq<TaskView>, ops: Seq<StoreOp>)
    requires
        distinct_codes(rows),
    ensures
        distinct_codes(apply_all(rows, ops)),
    decreases ops.len(),
{
    if ops.len() > 0 {
        lemma_codes_stay_distinct(rows, ops[0]);
        lemma_codes_distinct_for_ever(apply(rows, ops[0]), ops.drop_first());
    }
}

/// Two admissions that both succeed have different codes, whatever is
/// written between them, as long as the row of the first is not removed
/// before the second: the first code is then taken when the second is
/// asked for.
pub proof fn lemma_admitted_codes_differ(
    rows: Seq<TaskView>,
    first: Seq<char>,
    between: Seq<StoreOp>,
    second: Seq<char>,
    subs: bool,
    date: Date,
)
    requires
        forall|i: int|
            0 <= i < between.len() ==> !(#[trigger] between[i] matches StoreOp::Delete { code }
                && code == first),
        !has_code(
            apply_all(apply(rows, StoreOp::Insert { code: first, subs, date }), between),
            second,
        ),
    ensures
        first != second,
{
    let admitted = apply(rows, StoreOp::Insert { code: first, subs, date });
    if has_code(rows, first) {
    } else {
        lemma_insert_admits(rows, first, subs, date);
    }
    lemma_code_stays_taken(admitted, first, between);
}

proof fn lemma_code_stays_taken(rows: Seq<TaskView>, code: Seq<char>, ops: Seq<StoreOp>)
    requires
        has_code(rows, code),
        forall|i: int|
            0 <= i < ops.len() ==> !(#[trigger] ops[i] matches StoreOp::Delete { code: c } && c
                == code),
    ensures
        has_code(apply_all(rows, ops), code),
    decreases ops.len(),
{
    if ops.len() > 0 {
        lemma_admitted_code_is_taken(rows, code, ops[0]);
        let rest = ops.drop_first();
        assert forall|i: int| 0 <= i < rest.len() implies !(#[trigger] rest[i] matches StoreOp::Delete {
            code: c,
        } && c == code) by {
            assert(rest[i] == ops[i + 1]);
        }
        lemma_code_stays_taken(apply(rows, ops[0]), code, rest);
    }
}

/// Once a status of a job is `Finish` or `Fail`, it is the same after any
/// run of writes that does not remove the row of the job.
pub proof fn lemma_terminal_status_for_ever(
    rows: Seq<TaskView>,
    code: Seq<char>,
    row: TaskView,
    ops: Seq<StoreOp>,
)
    requires
        row_of(rows, code) == Some(row),
        forall|i: int| 0 <= i < ops.len() ==> !removes(#[trigger] ops[i], code),
    ensures
        row_of(apply_all(rows, ops), code) matches Some(after) && keeps_terminal(row, after),
    decreases ops.len(),
{
    if ops.len() > 0 {
        lemma_terminal_status_is_kept(rows, code, row, ops[0]);
        let next = apply(rows, ops[0]);
        let after = row_of(next, code)->0;
        let rest = ops.drop_first();
        assert forall|i: int| 0 <= i < rest.len() implies !removes(#[trigger] rest[i], code) by {
            assert(rest[i] == ops[i + 1]);
        }
        lemma_terminal_status_for_ever(next, code, after, rest);
    }
}

} // verus!
