//! Caption cues and their validation.

use chrono::NaiveTime;
use vstd::prelude::*;
use vstd::string::*;

verus! {

/// The font size of a cue that names none.
pub const DEFAULT_FONTSIZE: u32 = 32;

/// The colour of a cue that names none.
pub const DEFAULT_COLOR: &'static str = "white";

/// The font of a cue that names none.
pub const DEFAULT_FONT: &'static str = "./NotoSansCJK-Regular.ttc";

/// One caption cue. Times are written `HH:MM:SS,mmm`.
#[derive(Debug)]
pub struct Subtitle {
    pub text: String,
    pub fontsize: u32,
    pub color: String,
    pub font: String,
    pub start_time: String,
    pub end_time: String,
}

/// A cue as plain values.
pub struct SubtitleView {
    pub text: Seq<char>,
    pub fontsize: u32,
    pub color: Seq<char>,
    pub font: Seq<char>,
    pub start_time: Seq<char>,
    pub end_time: Seq<char>,
}

impl View for Subtitle {
    type V = SubtitleView;

    open spec fn view(&self) -> SubtitleView {
        SubtitleView {
            text: self.text@,
            fontsize: self.fontsize,
            color: self.color@,
            font: self.font@,
            start_time: self.start_time@,
            end_time: self.end_time@,
        }
    }
}

/// The cues of a list as plain values.
pub open spec fn cues(list: Seq<Subtitle>) -> Seq<SubtitleView> {
    list.map_values(|cue: Subtitle| cue@)
}

/// Why a cue is refused.
#[derive(Clone, Copy, Debug, PartialEq, Eq, Structural)]
pub enum SubtitleError {
    /// The text is empty.
    EmptyText,
    /// The start or the end is no time of day.
    IncorrectTimeFormat,
}

/// Whether `chrono` reads a time of day from a text in the form
/// `%H:%M:%S%.f`.
pub uninterp spec fn time_of_day_parses(text: Seq<char>) -> bool;

/// `NaiveTime::parse_from_str` with the format `%H:%M:%S%.f`: whether it
/// reads a time of day from the text, under the name above.
#[verifier::external_body]
fn parses_as_time(text: &str) -> (ok: bool)
    ensures
        ok == time_of_day_parses(text@),
{
    NaiveTime::parse_from_str(text, "%H:%M:%S%.f").is_ok()
}

/// A time with each comma turned into a full stop, as the parser wants its
/// fraction.
pub open spec fn with_full_stops(time: Seq<char>) -> Seq<char> {
    Seq::new(
        time.len(),
        |i: int|
            if time[i] == ',' {
                '.'
            } else {
                time[i]
            },
    )
}

/// Whether a time in the form `HH:MM:SS,mmm` is accepted.
pub open spec fn time_valid(time: Seq<char>) -> bool {
    time_of_day_parses(with_full_stops(time))
}

/// Turns each comma of `time` into a full stop.
pub fn replace_commas(time: &str) -> (dotted: String)
    ensures
        dotted@ == with_full_stops(time@),
{
    proof {
        reveal_strlit(".");
    }
    let n = time.unicode_len();
    let mut dotted = String::new();
    let mut i: usize = 0;
    while i < n
        invariant
            n == time@.len(),
            i <= n,
            "."@ == seq!['.'],
            dotted@ == with_full_stops(time@).take(i as int),
        decreases n - i,
    {
        if time.get_char(i) == ',' {
            dotted.append(".");
        } else {
            dotted.append(time.substring_char(i, i + 1));
        }
        proof {
            assert(time@.subrange(i as int, i + 1) =~= seq![time@[i as int]]);
            assert(dotted@ =~= with_full_stops(time@).take(i + 1));
        }
        i += 1;
    }
    proof {
        assert(with_full_stops(time@).take(n as int) =~= with_full_stops(time@));
    }
    dotted
}

/// The verdict on a time, given whether it reads as a time of day.
pub fn time_verdict(parses: bool) -> (checked: Result<(), SubtitleError>)
    ensures
        checked == (if parses {
            Ok::<(), SubtitleError>(())
        } else {
            Err::<(), SubtitleError>(SubtitleError::IncorrectTimeFormat)
        }),
{
    if parses {
        Ok(())
    } else {
        Err(SubtitleError::IncorrectTimeFormat)
    }
}

/// Accepts `time` exactly if, with its commas turned into full stops, it
/// reads as a time of day.
pub fn validate_time(time: &str) -> (checked: Result<(), SubtitleError>)
    ensures
        checked == (if time_valid(time@) {
            Ok::<(), SubtitleError>(())
        } else {
            Err::<(), SubtitleError>(SubtitleError::IncorrectTimeFormat)
        }),
{
    let dotted = replace_commas(time);
    time_verdict(parses_as_time(dotted.as_str()))
}

/// What a cue must satisfy: a text that is not empty, and a start and an
/// end that each read as a time of day. That the end follows the start is
/// not asked.
pub open spec fn cue_valid(cue: SubtitleView) -> bool {
    &&& cue.text.len() > 0
    &&& time_valid(cue.start_time)
    &&& time_valid(cue.end_time)
}

/// The verdict on a cue, given whether each of its times reads as a time of
/// day.
pub open spec fn cue_verdict(cue: SubtitleView, start_ok: bool, end_ok: bool) -> Result<
    (),
    SubtitleError,
> {
    if cue.text.len() == 0 {
        Err(SubtitleError::EmptyText)
    } else if !start_ok || !end_ok {
        Err(SubtitleError::IncorrectTimeFormat)
    } else {
        Ok(())
    }
}

impl Subtitle {
    /// A cue with the default size, colour and font.
    pub fn new(text: String, start_time: String, end_time: String) -> (cue: Subtitle)
        ensures
            cue@ == (SubtitleView {
                text: text@,
                fontsize: DEFAULT_FONTSIZE,
                color: DEFAULT_COLOR@,
                font: DEFAULT_FONT@,
                start_time: start_time@,
                end_time: end_time@,
            }),
    {
        Subtitle {
            text,
            fontsize: DEFAULT_FONTSIZE,
            color: String::from_str(DEFAULT_COLOR),
            font: String::from_str(DEFAULT_FONT),
            start_time,
            end_time,
        }
    }

    /// The verdict on the cue, given whether its start and its end read as
    /// times of day: the text is judged first, then the two times.
    pub fn verdict(&self, start_ok: bool, end_ok: bool) -> (checked: Result<(), SubtitleError>)
        ensures
            checked == cue_verdict(self@, start_ok, end_ok),
    {
        if self.text.as_str().unicode_len() == 0 {
            Err(SubtitleError::EmptyText)
        } else if !start_ok || !end_ok {
            Err(SubtitleError::IncorrectTimeFormat)
        } else {
            Ok(())
        }
    }

    /// Checks the cue.
    pub fn validate(&self) -> (checked: Result<(), SubtitleError>)
        ensures
            checked == cue_verdict(
                self@,
                time_valid(self.start_time@),
                time_valid(self.end_time@),
            ),
            checked is Ok <==> cue_valid(self@),
    {
        let start_ok = validate_time(self.start_time.as_str()).is_ok();
        let end_ok = validate_time(self.end_time.as_str()).is_ok();
        self.verdict(start_ok, end_ok)
    }
}

/// Whether every cue of a list is valid.
pub fn validate_subtitles(list: &Vec<Subtitle>) -> (all: bool)
    ensures
        all == forall|i: int| 0 <= i < list@.len() ==> cue_valid(#[trigger] list@[i]@),
{
    let mut i: usize = 0;
    while i < list.len()
        invariant
            i <= list.len(),
            forall|k: int| 0 <= k < i ==> cue_valid(#[trigger] list@[k]@),
        decreases list.len() - i,
    {
        if list[i].validate().is_err() {
            return false;
        }
        i += 1;
    }
    true
}

} // verus!
