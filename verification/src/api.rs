//! What the request layer decides: admission of jobs, answers to status
//! queries, submission of reviewed captions, and which file a download
//! serves.

use vstd::prelude::*;
use vstd::string::*;

use crate::code::{code_shaped, generate_rand_code};
use crate::database::{
    apply, check_code_exists, distinct_codes, get_task_status, has_code, insert_task,
    row_of,
    update_subtitles_status, update_task_email, update_task_subtitles, StoreOp, TaskTable,
};
use crate::date::Date;
use crate::model::constant::{RESULT_FILE, RESULT_WITH_SUBS_FILE};
use crate::model::subtitle::{cue_valid, cues, validate_subtitles, Subtitle};
use crate::model::task::{Status, TaskView};
use crate::model::worker::{try_send, Enqueued, GenVideoRequest, MergeSubsRequest, StageSenders};
use crate::text::{str_eq, texts};

verus! {

/// How an attempt to hand work to a stage ended, as the caller is told.
#[derive(Clone, Copy, Debug, PartialEq, Eq, Structural)]
pub enum Outcome {
    /// The work is queued.
    Accepted,
    /// The queue is full for now: retry later.
    RetryLater,
    /// The pipeline is closed, or the store refused: an internal error.
    InternalError,
}

/// The HTTP status that stands for an outcome.
pub open spec fn outcome_status(outcome: Outcome) -> u16 {
    match outcome {
        Outcome::Accepted => 200,
        Outcome::RetryLater => 503,
        Outcome::InternalError => 500,
    }
}

impl Outcome {
    /// The HTTP status that stands for the outcome.
    pub fn http_status(&self) -> (status: u16)
        ensures
            status == outcome_status(*self),
    {
        match self {
            Outcome::Accepted => 200,
            Outcome::RetryLater => 503,
            Outcome::InternalError => 500,
        }
    }
}

/// A message that a queue did not take, with what the caller is told.
pub struct Refused<T> {
    pub outcome: Outcome,
    pub message: T,
}

/// How an attempt to enqueue is settled: a message that was sent is in the
/// queue; one that was not is handed back with what the caller is told,
/// "retry later" for a full queue and an internal error for a closed one.
pub open spec fn settled_as<T>(sent: Enqueued<T>) -> Result<(), Refused<T>> {
    match sent {
        Enqueued::Sent => Ok(()),
        Enqueued::Full(message) => Err(Refused { outcome: Outcome::RetryLater, message }),
        Enqueued::Closed(message) => Err(Refused { outcome: Outcome::InternalError, message }),
    }
}

/// What the caller is told of a settled offer.
pub open spec fn told_of<T>(settled: Result<(), Refused<T>>) -> Outcome {
    match settled {
        Ok(_) => Outcome::Accepted,
        Err(refused) => refused.outcome,
    }
}

/// Sorts out how an attempt to enqueue ended.
pub fn settle<T>(sent: Enqueued<T>) -> (settled: Result<(), Refused<T>>)
    ensures
        settled == settled_as(sent),
{
    match sent {
        Enqueued::Sent => Ok(()),
        Enqueued::Full(message) => Err(Refused { outcome: Outcome::RetryLater, message }),
        Enqueued::Closed(message) => Err(Refused { outcome: Outcome::InternalError, message }),
    }
}

/// What the caller is told of an offer.
pub fn told<T>(settled: &Result<(), Refused<T>>) -> (outcome: Outcome)
    ensures
        outcome == told_of(*settled),
{
    match settled {
        Ok(_) => Outcome::Accepted,
        Err(refused) => refused.outcome,
    }
}

/// Offers a synthesis request to the first stage without waiting. Whether
/// the queue takes it is for the queue to say; a request that it does not
/// take is not enqueued: it comes back unchanged, and the caller is never
/// told that it was accepted.
pub fn send_gen_video(
    sender: &StageSenders,
    request: GenVideoRequest,
) -> (settled: Result<(), Refused<GenVideoRequest>>)
    ensures
        settled matches Err(refused) ==> refused.message == request && refused.outcome
            != Outcome::Accepted,
{
    settle(try_send(&sender.gen_sender, request))
}

/// Offers a merge request to the second stage without waiting, as
/// `send_gen_video` does for the first.
pub fn send_merge_subs(
    sender: &StageSenders,
    request: MergeSubsRequest,
) -> (settled: Result<(), Refused<MergeSubsRequest>>)
    ensures
        settled matches Err(refused) ==> refused.message == request && refused.outcome
            != Outcome::Accepted,
{
    settle(try_send(&sender.merge_sender, request))
}

/// Whether a freshly drawn code has to be drawn again, given what the store
/// said of it (`None` where the store could not be asked): only a code that
/// the store has seen is a collision.
pub fn code_taken(exists: Option<bool>) -> (taken: bool)
    ensures
        taken == (exists == Some(true)),
{
    match exists {
        Some(true) => true,
        _ => false,
    }
}

/// What the store said of a drawn code.
#[derive(Clone, Copy, Debug, PartialEq, Eq, Structural)]
pub enum CodeCheck {
    /// No row has the code: it can be used.
    Free,
    /// A row has the code: draw again.
    Taken,
    /// The store could not be asked: the failure is the caller's to
    /// surface, and the code is not to be used unchecked.
    StoreFailed,
}

/// Judges a drawn code by what the store said of it (`None` where the store
/// could not be asked).
pub fn check_code(exists: Option<bool>) -> (check: CodeCheck)
    ensures
        check == (match exists {
            Some(false) => CodeCheck::Free,
            Some(true) => CodeCheck::Taken,
            None => CodeCheck::StoreFailed,
        }),
{
    match exists {
        Some(false) => CodeCheck::Free,
        Some(true) => CodeCheck::Taken,
        None => CodeCheck::StoreFailed,
    }
}

/// Draws codes until one has no row in the store, at most `attempts` times.
/// A code that is returned is free and has the shape of a code. What is drawn
/// is for the generator to say, so a code is owed only where no draw can
/// collide: with at least one attempt, against a store none of whose rows has
/// a code of the shape that codes are drawn in (an empty store among them).
/// Elsewhere `None` means that every draw collided.
pub fn allocate_code(table: &TaskTable, attempts: usize) -> (code: Option<String>)
    ensures
        code matches Some(fresh) ==> !has_code(table@, fresh@) && code_shaped(fresh@),
        attempts == 0 ==> code is None,
        attempts > 0 && !holds_drawn_code(table@) ==> code is Some,
{
    let mut left = attempts;
    while left > 0
        invariant
            left <= attempts,
            !holds_drawn_code(table@) ==> left == attempts,
        decreases left,
    {
        let drawn = generate_rand_code();
        match accept_code(table, drawn) {
            Some(fresh) => {
                return Some(fresh);
            },
            None => {
                left -= 1;
            },
        }
    }
    None
}

/// Whether some row of the store has a code of the shape that codes are
/// drawn in: only such a row can collide with a draw.
pub open spec fn holds_drawn_code(rows: Seq<TaskView>) -> bool {
    exists|i: int| 0 <= i < rows.len() && code_shaped((#[trigger] rows[i]).code)
}

/// Judges one drawn code against the store: it is handed on exactly if no
/// row has it, and then as it was drawn.
pub fn accept_code(table: &TaskTable, drawn: String) -> (accepted: Option<String>)
    ensures
        accepted is Some <==> !has_code(table@, drawn@),
        accepted matches Some(fresh) ==> fresh@ == drawn@,
        code_shaped(drawn@) && !holds_drawn_code(table@) ==> accepted is Some,
{
    let exists = check_code_exists(table, drawn.as_str());
    proof {
        if exists && code_shaped(drawn@) {
            let i = choose|i: int| 0 <= i < table@.len() && (#[trigger] table@[i]).code == drawn@;
            assert(code_shaped(table@[i].code));
        }
    }
    if code_taken(Some(exists)) {
        None
    } else {
        Some(drawn)
    }
}

/// The synthesis request of a job, field by field as given.
pub fn gen_request(
    code: String,
    position: String,
    shape: String,
    remove_bg: bool,
    subtitle: bool,
) -> (request: GenVideoRequest)
    ensures
        request.code@ == code@,
        request.position@ == position@,
        request.shape@ == shape@,
        request.remove_bg == remove_bg,
        request.subtitle == subtitle,
{
    GenVideoRequest { code, position, shape, remove_bg, subtitle }
}

/// The merge request of a job.
pub fn merge_request(code: &str) -> (request: MergeSubsRequest)
    ensures
        request.code@ == code@,
{
    MergeSubsRequest { code: String::from_str(code) }
}

/// Admits the job of `request` on `today`: creates its row, in progress,
/// then offers the request to the first stage. A code that already has a row
/// is refused as an internal error and nothing changes. Where the queue does
/// not take the request the row stays, and the caller is told to retry (queue
/// full) or of an internal error (queue closed).
pub fn submit(
    table: &mut TaskTable,
    sender: &StageSenders,
    request: GenVideoRequest,
    today: Date,
) -> (outcome: Outcome)
    ensures
        final(table)@ == apply(
            old(table)@,
            StoreOp::Insert { code: request.code@, subs: request.subtitle, date: today },
        ),
        has_code(old(table)@, request.code@) ==> outcome == Outcome::InternalError,
        distinct_codes(final(table)@),
{
    match insert_task(table, request.code.as_str(), request.subtitle, today) {
        Err(_) => Outcome::InternalError,
        Ok(()) => {
            let settled = send_gen_video(sender, request);
            told(&settled)
        },
    }
}

/// What a caller gets for a job that was admitted: its code.
#[derive(Debug)]
pub struct GenVideoRespone {
    pub code: String,
}

/// The answer to an admission under `code`, given what the caller is to be
/// told of the offer to the queue: the code exactly if the request was
/// accepted, else that outcome.
pub open spec fn admission_reply(code: Seq<char>, outcome: Outcome) -> Result<
    Seq<char>,
    Outcome,
> {
    match outcome {
        Outcome::Accepted => Ok(code),
        _ => Err(outcome),
    }
}

/// Answers an admission under `code`.
pub fn reply_to_admission(code: String, outcome: Outcome) -> (admitted: Result<
    GenVideoRespone,
    Outcome,
>)
    ensures
        admission_reply(code@, outcome) == (match admitted {
            Ok(response) => Ok::<Seq<char>, Outcome>(response.code@),
            Err(refused) => Err::<Seq<char>, Outcome>(refused),
        }),
{
    match outcome {
        Outcome::Accepted => Ok(GenVideoRespone { code }),
        refused => Err(refused),
    }
}

/// A full queue is answered with "retry later", whatever was offered: the
/// message comes back as it was given, the caller of an admission gets no
/// code, and the HTTP status is 503. A closed queue is an internal error in
/// the same way, and only a message that was sent yields the code.
pub proof fn lemma_backpressure<T>(message: T, code: Seq<char>)
    ensures
        settled_as(Enqueued::Full(message)) == Err::<(), Refused<T>>(
            Refused { outcome: Outcome::RetryLater, message },
        ),
        settled_as(Enqueued::Closed(message)) == Err::<(), Refused<T>>(
            Refused { outcome: Outcome::InternalError, message },
        ),
        admission_reply(code, told_of(settled_as(Enqueued::Full(message)))) == Err::<
            Seq<char>,
            Outcome,
        >(Outcome::RetryLater),
        admission_reply(code, told_of(settled_as(Enqueued::Closed(message)))) == Err::<
            Seq<char>,
            Outcome,
        >(Outcome::InternalError),
        admission_reply(code, told_of(settled_as(Enqueued::<T>::Sent))) == Ok::<Seq<char>, Outcome>(
            code,
        ),
        outcome_status(Outcome::RetryLater) == 503,
        outcome_status(Outcome::InternalError) == 500,
{
}

/// Admits a new job on `today`: draws a code that has no row (at most
/// `attempts` times), creates the row and offers the request, made of the
/// code and the four values given, to the first stage. The caller gets the
/// code exactly if the request was queued. Whether a code is drawn and
/// whether the queue takes the request is not for this function to say; what
/// it owes: without attempts nothing happens; with attempts, against a store
/// that no draw can hit, the row of the job is created under a fresh code,
/// whatever the queue then says; a job that is answered with an error is
/// never answered as accepted, and its row, if it has one, stays.
pub fn gen_video(
    table: &mut TaskTable,
    sender: &StageSenders,
    position: String,
    shape: String,
    remove_bg: bool,
    subtitle: bool,
    today: Date,
    attempts: usize,
) -> (admitted: Result<GenVideoRespone, Outcome>)
    ensures
        admitted matches Ok(response) ==> {
            &&& code_shaped(response.code@)
            &&& !has_code(old(table)@, response.code@)
            &&& final(table)@ == old(table)@.push(
                TaskView::fresh(response.code@, subtitle, today),
            )
        },
        admitted matches Err(outcome) ==> {
            &&& outcome != Outcome::Accepted
            &&& (final(table)@ == old(table)@ || exists|code: Seq<char>|
                code_shaped(code) && !has_code(old(table)@, code) && final(table)@ == old(
                    table,
                )@.push(TaskView::fresh(code, subtitle, today)))
        },
        attempts == 0 ==> admitted == Err::<GenVideoRespone, Outcome>(Outcome::InternalError),
        attempts == 0 ==> final(table)@ == old(table)@,
        attempts > 0 && !holds_drawn_code(old(table)@) ==> exists|code: Seq<char>|
            code_shaped(code) && !has_code(old(table)@, code) && final(table)@ == old(
                table,
            )@.push(TaskView::fresh(code, subtitle, today)),
{
    match allocate_code(table, attempts) {
        None => Err(Outcome::InternalError),
        Some(code) => {
            let request = gen_request(code.clone(), position, shape, remove_bg, subtitle);
            let outcome = submit(table, sender, request, today);
            reply_to_admission(code, outcome)
        },
    }
}

/// What a status query is answered with.
#[derive(Clone, Copy, Debug, PartialEq, Eq, Structural)]
pub enum StatusReply {
    Finished,
    Failed,
    Processing,
    /// The query named no code.
    Undefined,
    /// The store has no record to answer from.
    Unavailable,
}

/// The answer to a status query for `code`, given the overall status read
/// from the store, if one was read.
pub open spec fn status_reply(code: Seq<char>, found: Option<Status>) -> StatusReply {
    if code == "undefined"@ {
        StatusReply::Undefined
    } else {
        match found {
            None => StatusReply::Unavailable,
            Some(Status::Fail) => StatusReply::Failed,
            Some(Status::Finish) => StatusReply::Finished,
            Some(Status::Processing) => StatusReply::Processing,
        }
    }
}

/// The HTTP status that stands for an answer.
pub open spec fn reply_status(reply: StatusReply) -> u16 {
    match reply {
        StatusReply::Finished => 200,
        StatusReply::Failed => 500,
        StatusReply::Processing => 499,
        StatusReply::Undefined => 498,
        StatusReply::Unavailable => 500,
    }
}

impl StatusReply {
    /// The HTTP status that stands for the answer.
    pub fn http_status(&self) -> (status: u16)
        ensures
            status == reply_status(*self),
    {
        match self {
            StatusReply::Finished => 200,
            StatusReply::Failed => 500,
            StatusReply::Processing => 499,
            StatusReply::Undefined => 498,
            StatusReply::Unavailable => 500,
        }
    }
}

/// Answers a status query from what the store gave.
pub fn reply_to_status_query(code: &str, found: Option<Status>) -> (reply: StatusReply)
    ensures
        reply == status_reply(code@, found),
{
    if str_eq(code, "undefined") {
        StatusReply::Undefined
    } else {
        match found {
            None => StatusReply::Unavailable,
            Some(Status::Fail) => StatusReply::Failed,
            Some(Status::Finish) => StatusReply::Finished,
            Some(Status::Processing) => StatusReply::Processing,
        }
    }
}

/// Answers a status query against the store.
pub fn check_task_status(table: &TaskTable, code: &str) -> (reply: StatusReply)
    ensures
        reply == status_reply(
            code@,
            match row_of(table@, code@) {
                Some(row) => Some(row.status),
                None => None,
            },
        ),
{
    match get_task_status(table, code) {
        Ok(status) => reply_to_status_query(code, Some(status)),
        Err(_) => reply_to_status_query(code, None),
    }
}

/// Records the notification address of a job as it is given. Whether it
/// reads as a mailbox is judged where the address comes in, by
/// `validate_email`, and again when a notice is drawn up.
pub fn set_email(table: &mut TaskTable, code: &str, email: &str) -> (reply: Outcome)
    ensures
        reply == Outcome::Accepted,
        final(table)@ == apply(old(table)@, StoreOp::SetEmail { code: code@, email: email@ }),
        distinct_codes(final(table)@),
{
    update_task_email(table, code, email);
    Outcome::Accepted
}

/// How a submission of reviewed captions ended.
#[derive(Clone, Copy, Debug, PartialEq, Eq, Structural)]
pub enum Submission {
    /// A cue is not valid; nothing was written.
    Invalid,
    /// The captions are written; the flag says what became of the merge
    /// request.
    Written(Outcome),
}

/// The HTTP status that stands for the end of a submission.
pub open spec fn submission_status(done: Submission) -> u16 {
    match done {
        Submission::Invalid => 422,
        Submission::Written(outcome) => outcome_status(outcome),
    }
}

impl Submission {
    /// The HTTP status that stands for the end of the submission.
    pub fn http_status(&self) -> (status: u16)
        ensures
            status == submission_status(*self),
    {
        match self {
            Submission::Invalid => 422,
            Submission::Written(outcome) => outcome.http_status(),
        }
    }
}

/// The store after a submission of reviewed captions: the captions are on
/// the record and the captioning sub-pipeline has finished.
pub open spec fn captions_submitted(
    rows: Seq<TaskView>,
    code: Seq<char>,
    subs: Seq<Subtitle>,
) -> Seq<TaskView> {
    apply(
        apply(rows, StoreOp::SetSubtitles { code, subtitles: cues(subs) }),
        StoreOp::SetSubsStatus { code, status: Status::Finish },
    )
}

/// A submission puts the captions on the record of the job and marks its
/// captioning as finished, unless that had failed before, so that a job
/// whose captioning finished this way has captions; it touches neither the
/// synthesis status nor the overall status, and no other job.
pub proof fn lemma_submission_records_captions(
    rows: Seq<TaskView>,
    code: Seq<char>,
    subs: Seq<Subtitle>,
)
    ensures
        captions_submitted(rows, code, subs).len() == rows.len(),
        forall|i: int|
            0 <= i < rows.len() ==> {
                let after = #[trigger] captions_submitted(rows, code, subs)[i];
                &&& rows[i].code == code ==> after.subs_status == rows[i].subs_status.advanced(
                    Status::Finish,
                ) && after.subtitles == Some(cues(subs))
                &&& rows[i].code != code ==> after == rows[i]
                &&& after.code == rows[i].code
                &&& after.video_status == rows[i].video_status
                &&& after.status == rows[i].status
            },
{
}

/// Takes reviewed captions for a job: checks every cue, writes the captions,
/// marks the captioning sub-pipeline as finished, and only then offers the
/// merge request to the second stage.
pub fn set_subtitle(
    table: &mut TaskTable,
    sender: &StageSenders,
    code: &str,
    subs: &Vec<Subtitle>,
) -> (done: Submission)
    ensures
        done is Invalid <==> !(forall|i: int|
            0 <= i < subs@.len() ==> cue_valid(#[trigger] subs@[i]@)),
        done is Invalid ==> final(table)@ == old(table)@,
        done is Written ==> final(table)@ == captions_submitted(old(table)@, code@, subs@),
{
    if !validate_subtitles(subs) {
        return Submission::Invalid;
    }
    update_task_subtitles(table, code, subs);
    update_subtitles_status(table, code, Status::Finish);
    let request = merge_request(code);
    let settled = send_merge_subs(sender, request);
    Submission::Written(told(&settled))
}

/// The file that a download serves, given the names in the working
/// directory: the result with captions where there is one, else the plain
/// result, else none.
pub open spec fn download_choice(entries: Seq<Seq<char>>) -> Option<Seq<char>> {
    if entries.contains(RESULT_WITH_SUBS_FILE@) {
        Some(RESULT_WITH_SUBS_FILE@)
    } else if entries.contains(RESULT_FILE@) {
        Some(RESULT_FILE@)
    } else {
        None
    }
}

/// Whether a list of names holds `name`.
pub fn has_entry(entries: &Vec<String>, name: &str) -> (found: bool)
    ensures
        found == texts(entries@).contains(name@),
{
    let mut i: usize = 0;
    while i < entries.len()
        invariant
            i <= entries.len(),
            forall|k: int| 0 <= k < i ==> texts(entries@)[k] != name@,
        decreases entries.len() - i,
    {
        if str_eq(entries[i].as_str(), name) {
            assert(texts(entries@)[i as int] == name@);
            return true;
        }
        i += 1;
    }
    false
}

/// Picks the file that a download serves.
pub fn download(entries: &Vec<String>) -> (file: Option<&'static str>)
    ensures
        download_choice(texts(entries@)) == (match file {
            Some(name) => Some(name@),
            None => None,
        }),
{
    if has_entry(entries, RESULT_WITH_SUBS_FILE) {
        Some(RESULT_WITH_SUBS_FILE)
    } else if has_entry(entries, RESULT_FILE) {
        Some(RESULT_FILE)
    } else {
        None
    }
}

} // verus!
