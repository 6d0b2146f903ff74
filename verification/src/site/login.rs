//! Logging in.

use vstd::prelude::*;
use vstd::string::StringExecFns;

use super::{send_back, sent_back, Answer, AnswerModel, Flash, Level, Reply, ReplyModel};
use crate::ring::auth::{Admin, Credentials};
use crate::ring::model::RingFault;
use crate::ring::{message_of, RingError, RingState};

verus! {

/// Where to go after the login, as the address of the login page carries it.
#[derive(Debug)]
pub struct NextUrl {
    pub next: Option<String>,
}

/// What the login page shows.
pub struct LoginTemplate {
    pub next: Option<String>,
}

/// The login page.
pub fn get(params: NextUrl) -> (page: LoginTemplate)
    ensures
        page.next == params.next,
{
    LoginTemplate { next: params.next }
}

/// What is to be done about a login form.
pub enum LoginStep {
    /// The credentials are good: open a session for the admin, then send the
    /// visitor on.
    Open { admin: Admin, then: String },
    /// No session; this is the answer.
    Refuse(Answer),
}

/// The view of an address that may be missing.
pub open spec fn opt_text(text: Option<String>) -> Option<Seq<char>> {
    match text {
        Some(text) => Some(text@),
        None => None,
    }
}

/// Where a login leads: to the address that the form names, or home.
pub open spec fn after_login(next: Option<Seq<char>>) -> Seq<char> {
    match next {
        Some(next) => next,
        None => "/"@,
    }
}

/// Where a failed login leads: back to the login page, which keeps the
/// address to go to afterwards.
pub open spec fn login_page(next: Option<Seq<char>>) -> Seq<char> {
    match next {
        Some(next) => "/login"@ + "?next="@ + next,
        None => "/login"@,
    }
}

/// The answer is a failure of the server, with a message that names the
/// fault.
pub open spec fn reports(answer: AnswerModel, fault: RingFault) -> bool {
    &&& answer.reply == ReplyModel::InternalServerError
    &&& answer.flash is Some
    &&& answer.flash->Some_0.level == Level::Error
    &&& ("Error when authenticating admin: "@ + message_of(fault)).is_prefix_of(
        answer.flash->Some_0.text,
    )
}

/// What a text begins with.
proof fn lemma_prefix_extends(head: Seq<char>, short: Seq<char>, long: Seq<char>)
    requires
        short.is_prefix_of(long),
    ensures
        (head + short).is_prefix_of(head + long),
{
    assert((head + long).subrange(0, (head + short).len() as int) =~= head + short);
}

/// The step that follows from what the directory said of the credentials.
pub fn login_step(found: Result<Option<Admin>, RingError>, next: Option<String>) -> (step: LoginStep)
    ensures
        match found {
            Ok(Some(account)) => step matches LoginStep::Open { admin, then } && admin == account
                && then@ == after_login(opt_text(next)),
            Ok(None) => step matches LoginStep::Refuse(answer) && answer@ == sent_back(
                Level::Error,
                "Invalid credentials"@,
                login_page(opt_text(next)),
            ),
            Err(e) => step matches LoginStep::Refuse(answer) && reports(answer@, e@),
        },
{
    match found {
        Ok(Some(admin)) => {
            let then = match next {
                Some(next) => next,
                None => String::from_str("/"),
            };
            LoginStep::Open { admin, then }
        },
        Ok(None) => {
            let to = match next {
                Some(next) => String::from_str("/login").concat("?next=").concat(next.as_str()),
                None => String::from_str("/login"),
            };
            LoginStep::Refuse(send_back(Level::Error, String::from_str("Invalid credentials"), to))
        },
        Err(e) => {
            let words = e.message();
            let text = String::from_str("Error when authenticating admin: ").concat(
                words.as_str(),
            );
            proof {
                lemma_prefix_extends(
                    "Error when authenticating admin: "@,
                    message_of(e@),
                    words@,
                );
            }
            LoginStep::Refuse(
                Answer {
                    reply: Reply::InternalServerError,
                    flash: Some(Flash { level: Level::Error, text }),
                },
            )
        },
    }
}

/// Decides on a login form.
///
/// An unknown username and a wrong password are told apart by nothing in
/// the answer.
pub fn post(state: &RingState, creds: Credentials) -> (step: LoginStep)
    ensures
        match state@.authenticate(creds.username@, creds.password@) {
            Ok(Some(account)) => step matches LoginStep::Open { admin, then } && admin@ == account
                && then@ == after_login(opt_text(creds.next)),
            Ok(None) => step matches LoginStep::Refuse(answer) && answer@ == sent_back(
                Level::Error,
                "Invalid credentials"@,
                login_page(opt_text(creds.next)),
            ),
            Err(fault) => step matches LoginStep::Refuse(answer) && reports(answer@, fault),
        },
{
    let Credentials { username, password, next } = creds;
    let found = state.authenticate(Credentials { username, password, next: None });
    login_step(found, next)
}

/// The reply once the session has been opened, or could not be.
pub fn session_reply(opened: bool, then: String) -> (reply: Reply)
    ensures
        reply@ == (if opened {
            ReplyModel::Redirect(then@)
        } else {
            ReplyModel::InternalServerError
        }),
{
    if opened {
        Reply::Redirect(then)
    } else {
        Reply::InternalServerError
    }
}

} // verus!
