//! Notification addresses and the notices sent to them.

use lettre::message::Mailbox;
use vstd::prelude::*;
use vstd::string::*;

verus! {

/// The subject of every notice.
pub const NOTICE_SUBJECT: &'static str = "Gen video done!";

/// The body of a notice of failure.
pub const FAILURE_BODY: &'static str = "Video generation failed.";

/// The start of the body of a notice of success; the code follows.
pub const SUCCESS_BODY: &'static str =
    "Hi, your video is ready, please download it from: http://localhost:3000/";

/// Why an address is refused.
#[derive(Clone, Copy, Debug, PartialEq, Eq, Structural)]
pub enum EmailError {
    /// The text is no mailbox.
    InvalidEmail,
}

/// A notice to send when a job is finalized.
#[derive(Debug)]
pub struct Notice {
    pub to: String,
    pub subject: String,
    pub body: String,
}

/// Whether `lettre` reads a mailbox (an address, with or without a display
/// name) from a text.
pub uninterp spec fn mailbox_parses(text: Seq<char>) -> bool;

/// `str::parse::<Mailbox>`, that is `Mailbox::from_str` of `lettre`: whether
/// it reads a mailbox from the text, under the name above.
#[verifier::external_body]
fn parses_as_mailbox(text: &str) -> (ok: bool)
    ensures
        ok == mailbox_parses(text@),
{
    text.parse::<Mailbox>().is_ok()
}

/// The verdict on an address, given whether it reads as a mailbox.
pub fn email_verdict(parses: bool) -> (checked: Result<(), EmailError>)
    ensures
        checked == (if parses {
            Ok::<(), EmailError>(())
        } else {
            Err::<(), EmailError>(EmailError::InvalidEmail)
        }),
{
    if parses {
        Ok(())
    } else {
        Err(EmailError::InvalidEmail)
    }
}

/// Accepts `email` exactly if it reads as a mailbox.
pub fn validate_email(email: &str) -> (checked: Result<(), EmailError>)
    ensures
        checked == (if mailbox_parses(email@) {
            Ok::<(), EmailError>(())
        } else {
            Err::<(), EmailError>(EmailError::InvalidEmail)
        }),
{
    email_verdict(parses_as_mailbox(email))
}

/// The body of the notice for the job `code`.
pub open spec fn notice_body(code: Seq<char>, success: bool) -> Seq<char> {
    if success {
        SUCCESS_BODY@ + code
    } else {
        FAILURE_BODY@
    }
}

/// Writes the body of the notice for the job `code`: where to fetch the
/// video on success, a plain statement on failure.
pub fn make_body(code: &str, success: bool) -> (body: String)
    ensures
        body@ == notice_body(code@, success),
{
    if success {
        let mut body = String::from_str(SUCCESS_BODY);
        body.append(code);
        body
    } else {
        String::from_str(FAILURE_BODY)
    }
}

/// The notice that finalization owes: none where the job has no address or
/// the address does not read as a mailbox (`deliverable` says whether it
/// does), else one to that address.
pub fn make_notice(
    email: Option<&String>,
    deliverable: bool,
    code: &str,
    success: bool,
) -> (notice: Option<Notice>)
    ensures
        notice is Some <==> email is Some && deliverable,
        notice matches Some(n) ==> {
            &&& n.to@ == email->0@
            &&& n.subject@ == NOTICE_SUBJECT@
            &&& n.body@ == notice_body(code@, success)
        },
{
    match email {
        Some(to) => {
            if deliverable {
                Some(
                    Notice {
                        to: to.clone(),
                        subject: String::from_str(NOTICE_SUBJECT),
                        body: make_body(code, success),
                    },
                )
            } else {
                None
            }
        },
        None => None,
    }
}

/// The notice for the job `code`, to the address on its record if that reads
/// as a mailbox.
pub fn send_email(email: Option<&String>, code: &str, success: bool) -> (notice: Option<Notice>)
    ensures
        notice is Some <==> email is Some && mailbox_parses(email->0@),
        notice matches Some(n) ==> {
            &&& n.to@ == email->0@
            &&& n.subject@ == NOTICE_SUBJECT@
            &&& n.body@ == notice_body(code@, success)
        },
{
    let deliverable = match email {
        Some(to) => parses_as_mailbox(to.as_str()),
        None => false,
    };
    make_notice(email, deliverable, code, success)
}

} // verus!
