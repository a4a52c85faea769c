//! The two stage workers as state machines: each tells its driver what to do
//! next and is told how that went.

use vstd::prelude::*;

use crate::database::{
    apply, get_task_email, get_task_info, row_of, update_task_status, update_video_status, StoreOp,
    TaskTable,
};
use crate::model::email::{mailbox_parses, notice_body, send_email, Notice, NOTICE_SUBJECT};
use crate::model::task::{Status, Task, TaskView};
use crate::model::worker::{GenVideoRequest, MergeSubsRequest};
use crate::text::texts;
use crate::utils::{delete_file_in_dir, is_scratch};

verus! {

/// One operation of the external step executor.
#[derive(Clone, Copy, Debug, PartialEq, Eq, Structural)]
pub enum Step {
    RemoveBackground,
    ExtractAudio,
    TranscribeAudio,
    SynthesizeHead,
    MergeChunks,
    CompositeAvatar,
    BurnCaptions,
}

/// What the driver of a synthesis job has to do next.
#[derive(Clone, Copy, Debug, PartialEq, Eq, Structural)]
pub enum GenVideoAction {
    /// Have the step executor perform this step.
    Execute(Step),
    /// Write `video_status = Finish` to the task store.
    MarkVideoFinished,
    /// Hand the job to the finalizer with this outcome; the job is over.
    Finalize(bool),
}

/// The ordered work of one synthesis job, before finalization.
pub open spec fn gen_video_plan(remove_bg: bool, subtitle: bool) -> Seq<GenVideoAction> {
    (if remove_bg {
        seq![GenVideoAction::Execute(Step::RemoveBackground)]
    } else {
        Seq::<GenVideoAction>::empty()
    }) + seq![GenVideoAction::Execute(Step::ExtractAudio)] + (if subtitle {
        seq![GenVideoAction::Execute(Step::TranscribeAudio)]
    } else {
        Seq::<GenVideoAction>::empty()
    }) + seq![
        GenVideoAction::Execute(Step::SynthesizeHead),
        GenVideoAction::Execute(Step::MergeChunks),
        GenVideoAction::Execute(Step::CompositeAvatar),
        GenVideoAction::MarkVideoFinished,
    ] + (if subtitle {
        seq![GenVideoAction::Execute(Step::BurnCaptions)]
    } else {
        Seq::<GenVideoAction>::empty()
    })
}

/// Where a synthesis job stands: how many actions of its plan have
/// succeeded, and whether one has failed.
pub struct GenVideoState {
    pub remove_bg: bool,
    pub subtitle: bool,
    pub done: nat,
    pub failed: bool,
}

impl GenVideoState {
    /// A job that has done nothing yet.
    pub open spec fn start(remove_bg: bool, subtitle: bool) -> GenVideoState {
        GenVideoState { remove_bg, subtitle, done: 0, failed: false }
    }

    /// The plan of the job.
    pub open spec fn plan(self) -> Seq<GenVideoAction> {
        gen_video_plan(self.remove_bg, self.subtitle)
    }

    /// The action that is due in this state.
    pub open spec fn action(self) -> GenVideoAction {
        if self.failed {
            GenVideoAction::Finalize(false)
        } else if self.done < self.plan().len() {
            self.plan()[self.done as int]
        } else {
            GenVideoAction::Finalize(true)
        }
    }

    /// The job is over once finalization is due.
    pub open spec fn finished(self) -> bool {
        self.action() is Finalize
    }

    /// The state after the due action went well (`ok`) or not.
    pub open spec fn record(self, ok: bool) -> GenVideoState {
        if self.finished() {
            self
        } else if ok {
            GenVideoState { done: self.done + 1, ..self }
        } else {
            GenVideoState { failed: true, ..self }
        }
    }

    /// The state after a run of outcomes, fed in order.
    pub open spec fn run(self, outcomes: Seq<bool>) -> GenVideoState
        decreases outcomes.len(),
    {
        if outcomes.len() == 0 {
            self
        } else {
            self.record(outcomes[0]).run(outcomes.drop_first())
        }
    }
}

/// How many outcomes at the head of `outcomes` are successes.
pub open spec fn leading_successes(outcomes: Seq<bool>) -> nat
    decreases outcomes.len(),
{
    if outcomes.len() == 0 || !outcomes[0] {
        0
    } else {
        1 + leading_successes(outcomes.drop_first())
    }
}

proof fn lemma_run_from(state: GenVideoState, outcomes: Seq<bool>)
    requires
        state.done <= state.plan().len(),
    ensures
        ({
            let end = state.run(outcomes);
            let ahead = leading_successes(outcomes);
            let left = state.plan().len() - state.done;
            &&& end.remove_bg == state.remove_bg
            &&& end.subtitle == state.subtitle
            &&& state.failed ==> end == state
            &&& !state.failed ==> end.done == state.done + (if ahead <= left {
                ahead as int
            } else {
                left
            })
            &&& !state.failed ==> end.failed == (ahead < outcomes.len() && ahead < left)
        }),
    decreases outcomes.len(),
{
    lemma_plan_has_no_finalize(state.remove_bg, state.subtitle);
    if outcomes.len() > 0 {
        let next = state.record(outcomes[0]);
        lemma_run_from(next, outcomes.drop_first());
    }
}

/// The plan of a job holds steps and the one store write, never a
/// finalization: that is issued only when the plan is done or has failed.
pub proof fn lemma_plan_has_no_finalize(remove_bg: bool, subtitle: bool)
    ensures
        forall|i: int|
            0 <= i < gen_video_plan(remove_bg, subtitle).len() ==> !(#[trigger] gen_video_plan(
                remove_bg,
                subtitle,
            )[i] is Finalize),
{
}

/// Steps run strictly in plan order with short-circuit on failure: after any
/// run of outcomes the job has completed the leading successes (at most the
/// whole plan), and has failed exactly if a failure was reported before the
/// plan was done.
pub proof fn lemma_gen_video_run(remove_bg: bool, subtitle: bool, outcomes: Seq<bool>)
    ensures
        ({
            let plan = gen_video_plan(remove_bg, subtitle);
            let end = GenVideoState::start(remove_bg, subtitle).run(outcomes);
            let ahead = leading_successes(outcomes);
            &&& end.plan() == plan
            &&& end.done == (if ahead <= plan.len() {
                ahead
            } else {
                plan.len()
            })
            &&& end.failed == (ahead < outcomes.len() && ahead < plan.len())
            &&& end.action() == (if end.failed {
                GenVideoAction::Finalize(false)
            } else if ahead < plan.len() {
                plan[ahead as int]
            } else {
                GenVideoAction::Finalize(true)
            })
        }),
{
    lemma_run_from(GenVideoState::start(remove_bg, subtitle), outcomes);
}

/// A job is finalized as a success exactly when every action of its plan
/// was reported as a success.
pub proof fn lemma_finalize_success(remove_bg: bool, subtitle: bool, outcomes: Seq<bool>)
    ensures
        GenVideoState::start(remove_bg, subtitle).run(outcomes).action()
            == GenVideoAction::Finalize(true) <==> leading_successes(outcomes) >= gen_video_plan(
            remove_bg,
            subtitle,
        ).len(),
{
    lemma_gen_video_run(remove_bg, subtitle, outcomes);
    lemma_plan_has_no_finalize(remove_bg, subtitle);
}

/// Once a job is over, no further report changes it.
pub proof fn lemma_finished_is_final(state: GenVideoState, outcomes: Seq<bool>)
    requires
        state.finished(),
    ensures
        state.run(outcomes) == state,
    decreases outcomes.len(),
{
    if outcomes.len() > 0 {
        lemma_finished_is_final(state, outcomes.drop_first());
    }
}

/// The store write that marks the video as finished is due only after the
/// synthesis steps before it have all succeeded, and the caption burn, where
/// captions were asked for, is due only after that write.
pub proof fn lemma_video_marked_after_synthesis(remove_bg: bool, subtitle: bool)
    ensures
        ({
            let plan = gen_video_plan(remove_bg, subtitle);
            let mark = plan.len() - (if subtitle {
                2int
            } else {
                1int
            });
            &&& 0 <= mark < plan.len()
            &&& plan[mark] == GenVideoAction::MarkVideoFinished
            &&& plan[mark - 1] == GenVideoAction::Execute(Step::CompositeAvatar)
            &&& forall|i: int|
                0 <= i < plan.len() && i != mark ==> #[trigger] plan[i]
                    != GenVideoAction::MarkVideoFinished
            &&& subtitle ==> plan[mark + 1] == GenVideoAction::Execute(Step::BurnCaptions)
            &&& forall|i: int|
                0 <= i < mark ==> #[trigger] plan[i] != GenVideoAction::Execute(Step::BurnCaptions)
        }),
{
}

/// A synthesis job in progress.
pub struct GenVideoJob {
    remove_bg: bool,
    subtitle: bool,
    plan: Vec<GenVideoAction>,
    done: usize,
    failed: bool,
}

impl View for GenVideoJob {
    type V = GenVideoState;

    closed spec fn view(&self) -> GenVideoState {
        GenVideoState {
            remove_bg: self.remove_bg,
            subtitle: self.subtitle,
            done: self.done as nat,
            failed: self.failed,
        }
    }
}

impl GenVideoJob {
    #[verifier::type_invariant]
    spec fn inv(self) -> bool {
        &&& self.plan@ == gen_video_plan(self.remove_bg, self.subtitle)
        &&& self.done <= self.plan@.len()
    }

    /// Starts the job that `request` asks for.
    pub fn new(request: &GenVideoRequest) -> (job: GenVideoJob)
        ensures
            job@ == GenVideoState::start(request.remove_bg, request.subtitle),
    {
        let mut plan: Vec<GenVideoAction> = Vec::new();
        if request.remove_bg {
            plan.push(GenVideoAction::Execute(Step::RemoveBackground));
        }
        plan.push(GenVideoAction::Execute(Step::ExtractAudio));
        if request.subtitle {
            plan.push(GenVideoAction::Execute(Step::TranscribeAudio));
        }
        plan.push(GenVideoAction::Execute(Step::SynthesizeHead));
        plan.push(GenVideoAction::Execute(Step::MergeChunks));
        plan.push(GenVideoAction::Execute(Step::CompositeAvatar));
        plan.push(GenVideoAction::MarkVideoFinished);
        if request.subtitle {
            plan.push(GenVideoAction::Execute(Step::BurnCaptions));
        }
        assert(plan@ =~= gen_video_plan(request.remove_bg, request.subtitle));
        GenVideoJob {
            remove_bg: request.remove_bg,
            subtitle: request.subtitle,
            plan,
            done: 0,
            failed: false,
        }
    }

    /// The action that is due now.
    pub fn action(&self) -> (due: GenVideoAction)
        ensures
            due == self@.action(),
    {
        proof {
            use_type_invariant(self);
        }
        if self.failed {
            GenVideoAction::Finalize(false)
        } else if self.done < self.plan.len() {
            self.plan[self.done]
        } else {
            GenVideoAction::Finalize(true)
        }
    }

    /// Records how the due action went and returns the action due next.
    /// Once finalization is due the job is over and nothing changes any more.
    pub fn record(&mut self, ok: bool) -> (due: GenVideoAction)
        ensures
            final(self)@ == old(self)@.record(ok),
            due == final(self)@.action(),
    {
        proof {
            use_type_invariant(&*self);
        }
        if !self.failed && self.done < self.plan.len() {
            if ok {
                self.done = self.done + 1;
            } else {
                self.failed = true;
            }
        }
        self.action()
    }
}

/// What the driver of a caption merge has to do.
#[derive(Clone, Copy, Debug, PartialEq, Eq, Structural)]
pub enum MergeSubsAction {
    /// Burn the reviewed captions into the synthesized video.
    Merge,
    /// Let the request go: the join condition does not hold. Nothing is
    /// finalized and nothing is queued again, so a request that arrives
    /// ahead of the synthesis is lost and has to be submitted anew.
    Drop,
    /// Hand the job to the finalizer with this outcome.
    Finalize(bool),
}

/// What a merge request leads to, given the record of its job as read from
/// the store (`None` where it could not be read): a job that cannot be read
/// is finalized as failed, one whose two sub-pipelines have both finished is
/// merged, any other is dropped.
pub open spec fn merge_action(row: Option<TaskView>) -> MergeSubsAction {
    match row {
        None => MergeSubsAction::Finalize(false),
        Some(task) => if task.joined() {
            MergeSubsAction::Merge
        } else {
            MergeSubsAction::Drop
        },
    }
}

/// Decides on a merge request from the record of its job. The decision
/// reads the record and changes nothing.
pub fn merge_subs_decision(found: Option<&Task>) -> (action: MergeSubsAction)
    ensures
        action == merge_action(
            match found {
                Some(task) => Some(task@),
                None => None,
            },
        ),
{
    match found {
        None => MergeSubsAction::Finalize(false),
        Some(task) => if task.is_joined() {
            MergeSubsAction::Merge
        } else {
            MergeSubsAction::Drop
        },
    }
}

/// What follows the caption burn: finalization with its outcome.
pub fn merge_subs_outcome(merged: bool) -> (action: MergeSubsAction)
    ensures
        action == MergeSubsAction::Finalize(merged),
{
    MergeSubsAction::Finalize(merged)
}

/// Takes up a merge request against the store: reads the record of the job
/// and decides.
pub fn start_merge_subs(table: &TaskTable, request: &MergeSubsRequest) -> (action: MergeSubsAction)
    ensures
        action == merge_action(row_of(table@, request.code@)),
{
    match get_task_info(table, request.code.as_str()) {
        Ok(task) => merge_subs_decision(Some(task)),
        Err(_) => merge_subs_decision(None),
    }
}

/// The overall status that finalization writes.
pub open spec fn final_status(success: bool) -> Status {
    if success {
        Status::Finish
    } else {
        Status::Fail
    }
}

/// The overall status that finalization writes.
pub fn finalize_status(success: bool) -> (status: Status)
    ensures
        status == final_status(success),
        status.terminal(),
{
    if success {
        Status::Finish
    } else {
        Status::Fail
    }
}

/// What the driver of a finalization has to do next.
#[derive(Clone, Copy, Debug, PartialEq, Eq, Structural)]
pub enum FinalizeAction {
    /// Write this overall status to the store.
    WriteStatus(Status),
    /// Look up the address of the job and, if it has one, send the notice.
    Notify,
    /// Remove the scratch entries of the working directory.
    Cleanup,
    /// Nothing more; the flag says whether the status was written.
    Done(bool),
}

/// Where a finalization stands: how many of its three actions are behind
/// it, and whether the status write failed.
pub struct FinalizeState {
    pub success: bool,
    pub stage: nat,
    pub aborted: bool,
}

impl FinalizeState {
    /// A finalization that has done nothing yet.
    pub open spec fn start(success: bool) -> FinalizeState {
        FinalizeState { success, stage: 0, aborted: false }
    }

    /// The action that is due in this state.
    pub open spec fn action(self) -> FinalizeAction {
        if self.aborted {
            FinalizeAction::Done(false)
        } else if self.stage == 0 {
            FinalizeAction::WriteStatus(final_status(self.success))
        } else if self.stage == 1 {
            FinalizeAction::Notify
        } else if self.stage == 2 {
            FinalizeAction::Cleanup
        } else {
            FinalizeAction::Done(true)
        }
    }

    /// The state after the due action went well (`ok`) or not: a failed
    /// status write ends the finalization; a failed notice or cleanup is
    /// passed over.
    pub open spec fn record(self, ok: bool) -> FinalizeState {
        if self.action() is Done {
            self
        } else if self.stage == 0 && !ok {
            FinalizeState { aborted: true, ..self }
        } else {
            FinalizeState { stage: self.stage + 1, ..self }
        }
    }
}

/// A finalization in progress.
pub struct Finalizer {
    success: bool,
    stage: u8,
    aborted: bool,
}

impl View for Finalizer {
    type V = FinalizeState;

    closed spec fn view(&self) -> FinalizeState {
        FinalizeState {
            success: self.success,
            stage: if self.stage < 3 {
                self.stage as nat
            } else {
                3
            },
            aborted: self.aborted,
        }
    }
}

impl Finalizer {
    /// Starts the finalization of a job with the given outcome.
    pub fn new(success: bool) -> (finalizer: Finalizer)
        ensures
            finalizer@ == FinalizeState::start(success),
    {
        Finalizer { success, stage: 0, aborted: false }
    }

    /// The action that is due now.
    pub fn action(&self) -> (due: FinalizeAction)
        ensures
            due == self@.action(),
    {
        if self.aborted {
            FinalizeAction::Done(false)
        } else if self.stage == 0 {
            FinalizeAction::WriteStatus(finalize_status(self.success))
        } else if self.stage == 1 {
            FinalizeAction::Notify
        } else if self.stage == 2 {
            FinalizeAction::Cleanup
        } else {
            FinalizeAction::Done(true)
        }
    }

    /// Records how the due action went and returns the action due next.
    pub fn record(&mut self, ok: bool) -> (due: FinalizeAction)
        ensures
            final(self)@ == old(self)@.record(ok),
            due == final(self)@.action(),
    {
        if !self.aborted && self.stage < 3 {
            if self.stage == 0 && !ok {
                self.aborted = true;
            } else {
                self.stage = self.stage + 1;
            }
        }
        self.action()
    }
}

/// The order of a finalization: the status write comes first, with the
/// terminal status that the outcome asks for; if it fails, nothing follows;
/// if it succeeds, the notice and then the cleanup are due, whatever becomes
/// of the notice, and the finalization ends as done whatever becomes of
/// either.
pub proof fn lemma_finalize_order(success: bool, notified: bool, cleaned: bool)
    ensures
        ({
            let start = FinalizeState::start(success);
            &&& start.action() == FinalizeAction::WriteStatus(final_status(success))
            &&& final_status(success).terminal()
            &&& start.record(false).action() == FinalizeAction::Done(false)
            &&& start.record(false).record(notified) == start.record(false)
            &&& start.record(true).action() == FinalizeAction::Notify
            &&& start.record(true).record(notified).action() == FinalizeAction::Cleanup
            &&& start.record(true).record(notified).record(cleaned).action()
                == FinalizeAction::Done(true)
        }),
{
}

/// What a finalization in memory leaves for its caller to carry out.
#[derive(Debug)]
pub struct Finalized {
    /// The overall status that this finalization stands for. It is the
    /// status of the job afterwards unless the job was finalized before:
    /// then the earlier status stays.
    pub status: Status,
    /// The notice to send, if the job has an address that reads as a
    /// mailbox.
    pub notice: Option<Notice>,
    /// The entries of the working directory to remove.
    pub doomed: Vec<String>,
}

/// Finalizes the job `code` against the store: writes the terminal status
/// first (a job that has a terminal status already keeps it), then draws up
/// the notice for the address on the record, if it has
/// one that reads as a mailbox, and picks from `entries`, the names in the
/// working directory, those to remove: all but the deliverables.
pub fn result(
    table: &mut TaskTable,
    code: &str,
    success: bool,
    entries: &Vec<String>,
) -> (done: Finalized)
    ensures
        final(table)@ == apply(
            old(table)@,
            StoreOp::SetStatus { code: code@, status: final_status(success) },
        ),
        done.status == final_status(success),
        done.notice is Some <==> (row_of(final(table)@, code@) matches Some(row)
            && row.email matches Some(email) && mailbox_parses(email)),
        done.notice matches Some(notice) ==> {
            &&& Some(notice.to@) == row_of(final(table)@, code@)->0.email
            &&& notice.subject@ == NOTICE_SUBJECT@
            &&& notice.body@ == notice_body(code@, success)
        },
        texts(done.doomed@) == texts(entries@).filter(is_scratch()),
{
    let status = finalize_status(success);
    update_task_status(table, code, status);
    let notice = match get_task_email(table, code) {
        Ok(email) => send_email(email, code, success),
        Err(_) => None,
    };
    let doomed = delete_file_in_dir(entries);
    Finalized { status, notice, doomed }
}

/// How many executor steps a job runs before its video counts as finished.
pub open spec fn synthesis_steps(remove_bg: bool, subtitle: bool) -> nat {
    (gen_video_plan(remove_bg, subtitle).len() - (if subtitle {
        2int
    } else {
        1int
    })) as nat
}

/// How many executor steps a job runs in all.
pub open spec fn all_steps(remove_bg: bool, subtitle: bool) -> nat {
    (gen_video_plan(remove_bg, subtitle).len() - 1) as nat
}

/// The store after a synthesis job whose executor steps went as `outcomes`
/// say, in order (a step past the end of `outcomes` counts as failed): the
/// write that marks the video as finished is made exactly if every step
/// before the mark succeeded, and the overall status written is `Finish`
/// exactly if every step of the job succeeded, else `Fail`. As every status
/// write, each takes effect only on a status that is still in progress.
pub open spec fn after_gen_video(
    rows: Seq<TaskView>,
    code: Seq<char>,
    remove_bg: bool,
    subtitle: bool,
    outcomes: Seq<bool>,
) -> Seq<TaskView> {
    let ahead = leading_successes(outcomes);
    let marked = if ahead >= synthesis_steps(remove_bg, subtitle) {
        apply(rows, StoreOp::SetVideoStatus { code, status: Status::Finish })
    } else {
        rows
    };
    apply(
        marked,
        StoreOp::SetStatus {
            code,
            status: final_status(ahead >= all_steps(remove_bg, subtitle)),
        },
    )
}

proof fn lemma_leading_successes_at(outcomes: Seq<bool>, n: int)
    requires
        0 <= n <= outcomes.len(),
        forall|i: int| 0 <= i < n ==> outcomes[i],
    ensures
        leading_successes(outcomes) >= n,
        (n == outcomes.len() || !outcomes[n]) ==> leading_successes(outcomes) == n,
    decreases outcomes.len(),
{
    if n > 0 {
        let rest = outcomes.drop_first();
        assert(outcomes[0]);
        assert forall|i: int| 0 <= i < n - 1 implies rest[i] by {
            assert(rest[i] == outcomes[i + 1]);
        }
        lemma_leading_successes_at(rest, n - 1);
    }
}

/// Runs the synthesis job of `request` against the store, with the executor
/// played by `outcomes`: its steps are taken in plan order, the first failure
/// ends them, the video is marked as finished once the synthesis steps are
/// through, and the job is finalized with the aggregate outcome. `entries`
/// are the names in the working directory at finalization.
pub fn process_gen_video(
    table: &mut TaskTable,
    request: &GenVideoRequest,
    outcomes: &Vec<bool>,
    entries: &Vec<String>,
) -> (done: Finalized)
    ensures
        final(table)@ == after_gen_video(
            old(table)@,
            request.code@,
            request.remove_bg,
            request.subtitle,
            outcomes@,
        ),
        done.status == final_status(
            leading_successes(outcomes@) >= all_steps(request.remove_bg, request.subtitle),
        ),
        done.notice is Some <==> (row_of(final(table)@, request.code@) matches Some(row)
            && row.email matches Some(email) && mailbox_parses(email)),
        done.notice matches Some(notice) ==> {
            &&& Some(notice.to@) == row_of(final(table)@, request.code@)->0.email
            &&& notice.subject@ == NOTICE_SUBJECT@
            &&& notice.body@ == notice_body(request.code@, done.status == Status::Finish)
        },
        texts(done.doomed@) == texts(entries@).filter(is_scratch()),
{
    let ghost plan = gen_video_plan(request.remove_bg, request.subtitle);
    let ghost mark = synthesis_steps(request.remove_bg, request.subtitle) as int;
    let ghost marked_rows = apply(
        old(table)@,
        StoreOp::SetVideoStatus { code: request.code@, status: Status::Finish },
    );
    proof {
        lemma_video_marked_after_synthesis(request.remove_bg, request.subtitle);
        lemma_plan_has_no_finalize(request.remove_bg, request.subtitle);
    }
    let mut job = GenVideoJob::new(request);
    let mut used: usize = 0;
    loop
        invariant
            plan == gen_video_plan(request.remove_bg, request.subtitle),
            mark == synthesis_steps(request.remove_bg, request.subtitle),
            0 <= mark < plan.len(),
            plan[mark] == GenVideoAction::MarkVideoFinished,
            forall|i: int| 0 <= i < plan.len() && i != mark ==> #[trigger] plan[i] is Execute,
            marked_rows == apply(
                old(table)@,
                StoreOp::SetVideoStatus { code: request.code@, status: Status::Finish },
            ),
            job@.remove_bg == request.remove_bg,
            job@.subtitle == request.subtitle,
            job@.done <= plan.len(),
            used <= outcomes@.len() + 1,
            !job@.failed ==> used <= outcomes@.len(),
            !job@.failed ==> used == (if job@.done <= mark {
                job@.done as int
            } else {
                job@.done - 1
            }),
            job@.failed ==> job@.done != mark && used - 1 == (if job@.done < mark {
                job@.done as int
            } else {
                job@.done - 1
            }),
            forall|i: int| 0 <= i < used && i < outcomes@.len() && !job@.failed ==> outcomes@[i],
            job@.failed ==> forall|i: int| 0 <= i < used - 1 ==> outcomes@[i],
            job@.failed ==> used - 1 <= outcomes@.len(),
            job@.failed ==> job@.done < plan.len(),
            job@.failed ==> (used - 1 == outcomes@.len() || !outcomes@[used - 1]),
            table@ == (if job@.done > mark {
                marked_rows
            } else {
                old(table)@
            }),
        decreases
                (if job@.failed {
                    0
                } else {
                    plan.len() - job@.done + 1
                }),
    {
        match job.action() {
            GenVideoAction::Execute(_step) => {
                let ok = used < outcomes.len() && outcomes[used];
                used = used + 1;
                job.record(ok);
            },
            GenVideoAction::MarkVideoFinished => {
                update_video_status(table, request.code.as_str(), Status::Finish);
                job.record(true);
            },
            GenVideoAction::Finalize(success) => {
                proof {
                    let ahead = leading_successes(outcomes@);
                    if job@.failed {
                        lemma_leading_successes_at(outcomes@, used - 1);
                        assert(ahead == used - 1);
                        assert(!success);
                    } else {
                        lemma_leading_successes_at(outcomes@, used as int);
                        assert(job@.done == plan.len());
                        assert(success);
                        assert(ahead >= all_steps(request.remove_bg, request.subtitle));
                    }
                    assert(success == (ahead >= all_steps(request.remove_bg, request.subtitle)));
                    assert((job@.done > mark) == (ahead >= mark));
                }
                return result(table, request.code.as_str(), success, entries);
            },
        }
    }
}

/// The store after a merge request was taken up, the caption burn, where it
/// was due, having gone as `merged` says: a request whose job does not
/// satisfy the join leaves the store as it is, and the status written by a
/// finalization takes effect only on a job that was not finalized before.
pub open spec fn after_merge_subs(rows: Seq<TaskView>, code: Seq<char>, merged: bool) -> Seq<
    TaskView,
> {
    match merge_action(row_of(rows, code)) {
        MergeSubsAction::Drop => rows,
        MergeSubsAction::Merge => apply(
            rows,
            StoreOp::SetStatus { code, status: final_status(merged) },
        ),
        MergeSubsAction::Finalize(success) => apply(
            rows,
            StoreOp::SetStatus { code, status: final_status(success) },
        ),
    }
}

/// Takes up a merge request against the store, with the caption burn played
/// by `merged`: the request is dropped without a trace where the join does
/// not hold, else the job is finalized with the outcome of the burn (or as
/// failed, where its record cannot be read).
pub fn process_merge_subs(
    table: &mut TaskTable,
    request: &MergeSubsRequest,
    merged: bool,
    entries: &Vec<String>,
) -> (done: Option<Finalized>)
    ensures
        final(table)@ == after_merge_subs(old(table)@, request.code@, merged),
        done is None <==> merge_action(row_of(old(table)@, request.code@)) == MergeSubsAction::Drop,
        done matches Some(finalized) ==> {
            &&& finalized.status == (match merge_action(row_of(old(table)@, request.code@)) {
                MergeSubsAction::Finalize(success) => final_status(success),
                _ => final_status(merged),
            })
            &&& texts(finalized.doomed@) == texts(entries@).filter(is_scratch())
            &&& finalized.notice is Some <==> (row_of(final(table)@, request.code@) matches Some(
                row,
            ) && row.email matches Some(email) && mailbox_parses(email))
            &&& finalized.notice matches Some(notice) ==> {
                &&& Some(notice.to@) == row_of(final(table)@, request.code@)->0.email
                &&& notice.subject@ == NOTICE_SUBJECT@
                &&& notice.body@ == notice_body(
                    request.code@,
                    finalized.status == Status::Finish,
                )
            }
        },
{
    let code = request.code.as_str();
    match start_merge_subs(table, request) {
        MergeSubsAction::Drop => None,
        MergeSubsAction::Merge => match merge_subs_outcome(merged) {
            MergeSubsAction::Finalize(success) => Some(result(table, code, success, entries)),
            _ => None,
        },
        MergeSubsAction::Finalize(success) => Some(result(table, code, success, entries)),
    }
}

} // verus!
