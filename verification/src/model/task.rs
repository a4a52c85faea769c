//! The record of a job, and the tri-state progress marker that it carries
//! three times: for the job and for each of its two sub-pipelines.

use vstd::prelude::*;
use vstd::string::*;

use crate::date::Date;
use crate::model::subtitle::{cues, Subtitle, SubtitleView};
use crate::text::str_eq;

verus! {

/// Progress of a job, or of one of its sub-pipelines.
#[derive(Clone, Copy, Debug, PartialEq, Eq, Structural)]
pub enum Status {
    Fail,
    Processing,
    Finish,
}

impl Status {
    /// A status is terminal once it has left `Processing`.
    pub open spec fn terminal(self) -> bool {
        self != Status::Processing
    }

    /// Whether the status has left `Processing`.
    pub fn is_terminal(&self) -> (t: bool)
        ensures
            t == self.terminal(),
    {
        match self {
            Status::Processing => false,
            _ => true,
        }
    }

    /// The status that a field holds after a write of `to`: a status that is
    /// terminal stays what it is; only one in progress takes the new one.
    pub open spec fn advanced(self, to: Status) -> Status {
        if self.terminal() {
            self
        } else {
            to
        }
    }

    /// The status that a field holds after a write of `to`.
    pub fn advance(&self, to: Status) -> (next: Status)
        ensures
            next == self.advanced(to),
    {
        match self {
            Status::Processing => to,
            Status::Fail => Status::Fail,
            Status::Finish => Status::Finish,
        }
    }

    /// The name of the status.
    pub open spec fn name(self) -> Seq<char> {
        match self {
            Status::Fail => "Fail"@,
            Status::Processing => "Processing"@,
            Status::Finish => "Finish"@,
        }
    }

    /// Writes the name of the status.
    pub fn to_string(&self) -> (text: String)
        ensures
            text@ == self.name(),
    {
        match self {
            Status::Fail => String::from_str("Fail"),
            Status::Processing => String::from_str("Processing"),
            Status::Finish => String::from_str("Finish"),
        }
    }

    /// The text that stands for the status in a stored record.
    pub open spec fn sql_text(self) -> Seq<char> {
        match self {
            Status::Fail => "fail"@,
            Status::Processing => "Processing"@,
            Status::Finish => "finish"@,
        }
    }

    /// Writes the status as stored.
    pub fn to_sql(&self) -> (text: String)
        ensures
            text@ == self.sql_text(),
    {
        match self {
            Status::Fail => String::from_str("fail"),
            Status::Processing => String::from_str("Processing"),
            Status::Finish => String::from_str("finish"),
        }
    }

    /// The status that a stored text stands for, if it stands for one.
    pub open spec fn from_sql_text(text: Seq<char>) -> Option<Status> {
        if text == "fail"@ {
            Some(Status::Fail)
        } else if text == "Processing"@ {
            Some(Status::Processing)
        } else if text == "finish"@ {
            Some(Status::Finish)
        } else {
            None
        }
    }

    /// Reads a status as stored: the one whose stored text this is, and
    /// `None` where it is the text of none.
    pub fn column_result(text: &str) -> (status: Option<Status>)
        ensures
            status == Status::from_sql_text(text@),
    {
        if str_eq(text, "fail") {
            Some(Status::Fail)
        } else if str_eq(text, "Processing") {
            Some(Status::Processing)
        } else if str_eq(text, "finish") {
            Some(Status::Finish)
        } else {
            None
        }
    }
}

/// Reading back what was stored gives the status that was written, and a
/// text is read as a status only if it is the stored text of that status.
pub proof fn lemma_sql_text_round_trip(status: Status, text: Seq<char>)
    ensures
        Status::from_sql_text(status.sql_text()) == Some(status),
        Status::from_sql_text(text) == Some(status) <==> text == status.sql_text(),
{
    reveal_strlit("fail");
    reveal_strlit("Processing");
    reveal_strlit("finish");
    assert("fail"@.len() == 4 && "Processing"@.len() == 10 && "finish"@.len() == 6);
}

/// The record of one job.
#[derive(Debug)]
pub struct Task {
    pub code: String,
    pub email: Option<String>,
    pub status: Status,
    pub date: Date,
    pub subs_status: Status,
    pub subtitles: Option<Vec<Subtitle>>,
    pub video_status: Status,
}

/// The record of one job as plain values.
pub struct TaskView {
    pub code: Seq<char>,
    pub email: Option<Seq<char>>,
    pub status: Status,
    pub date: Date,
    pub subs_status: Status,
    pub subtitles: Option<Seq<SubtitleView>>,
    pub video_status: Status,
}

impl View for Task {
    type V = TaskView;

    open spec fn view(&self) -> TaskView {
        TaskView {
            code: self.code@,
            email: match self.email {
                Some(email) => Some(email@),
                None => None,
            },
            status: self.status,
            date: self.date,
            subs_status: self.subs_status,
            subtitles: match self.subtitles {
                Some(list) => Some(cues(list@)),
                None => None,
            },
            video_status: self.video_status,
        }
    }
}

impl TaskView {
    /// The record of a job as it is admitted: everything in progress, but
    /// the captions, which count as finished where none were asked for.
    pub open spec fn fresh(code: Seq<char>, subs: bool, date: Date) -> TaskView {
        TaskView {
            code,
            email: None,
            status: Status::Processing,
            date,
            subs_status: if subs {
                Status::Processing
            } else {
                Status::Finish
            },
            subtitles: None,
            video_status: Status::Processing,
        }
    }

    /// The join condition of the caption merge: both sub-pipelines have
    /// finished.
    pub open spec fn joined(self) -> bool {
        self.subs_status == Status::Finish && self.video_status == Status::Finish
    }
}

impl Task {
    /// The record of a job as it is admitted on `date`; `subs` says whether
    /// captions were asked for.
    pub fn new(code: String, subs: bool, date: Date) -> (task: Task)
        ensures
            task@ == TaskView::fresh(code@, subs, date),
    {
        Task {
            code,
            email: None,
            status: Status::Processing,
            date,
            subs_status: if subs {
                Status::Processing
            } else {
                Status::Finish
            },
            subtitles: None,
            video_status: Status::Processing,
        }
    }

    /// Whether both sub-pipelines have finished. Reading it changes nothing.
    pub fn is_joined(&self) -> (joined: bool)
        ensures
            joined == self@.joined(),
    {
        self.subs_status == Status::Finish && self.video_status == Status::Finish
    }
}

} // verus!
