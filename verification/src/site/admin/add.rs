//! Opening an admin account.

use vstd::prelude::*;
use vstd::string::StringExecFns;

use crate::ring::auth::{hash_password, hash_view, verdict};
use crate::ring::model::{RingFault, RingModel};
use crate::ring::change::{change_view, if_done, Change, ChangeModel};
use crate::ring::{outcome, RingError, RingState};
use crate::site::{just, send_back, sent_back, silent, Answer, AnswerModel, Level, Reply, ReplyModel};

verus! {

/// The form that opens an account.
pub struct AddAdminForm {
    pub username: String,
    pub email: String,
    pub password: String,
    pub confirm_password: String,
}

/// The form in words: the username and the email, nothing of the passwords.
pub open spec fn form_text(username: Seq<char>, email: Seq<char>) -> Seq<char> {
    "Admin { username: \""@ + username + "\", email: \""@ + email
        + "\", password: \"redacted\", confirm_password: \"redacted\" }"@
}

impl AddAdminForm {
    /// The form in words, for a log. The passwords do not enter the text.
    pub fn redacted(&self) -> (text: String)
        ensures
            text@ == form_text(self.username@, self.email@),
    {
        String::from_str("Admin { username: \"").concat(self.username.as_str()).concat(
            "\", email: \"",
        ).concat(self.email.as_str()).concat(
            "\", password: \"redacted\", confirm_password: \"redacted\" }",
        )
    }
}

/// The answer to an account that was to be opened, given how it went.
pub open spec fn added_answer(added: Result<(), RingFault>, username: Seq<char>) -> AnswerModel {
    match added {
        Ok(()) => sent_back(Level::Info, "Added new admin "@ + username, "/admin/add"@),
        Err(RingFault::UniqueRowAlreadyPresent(values)) => sent_back(
            Level::Error,
            "Email or username is already taken: "@ + values,
            "/admin/add"@,
        ),
        Err(_) => silent(ReplyModel::InternalServerError),
    }
}

/// The answer to an account that was to be opened, given how it went.
pub fn addition_answer(added: Result<(), RingError>, username: &str) -> (answer: Answer)
    ensures
        answer@ == added_answer(outcome(added), username@),
{
    match added {
        Ok(()) => send_back(
            Level::Info,
            String::from_str("Added new admin ").concat(username),
            String::from_str("/admin/add"),
        ),
        Err(RingError::UniqueRowAlreadyPresent(values)) => send_back(
            Level::Error,
            String::from_str("Email or username is already taken: ").concat(values.as_str()),
            String::from_str("/admin/add"),
        ),
        Err(_) => just(Reply::InternalServerError),
    }
}

/// The answer to the form that opens an account, given the hash of its
/// password, or `None` where the password could not be hashed.
pub open spec fn add_answer(
    m: RingModel,
    username: Seq<char>,
    email: Seq<char>,
    password: Seq<char>,
    confirm_password: Seq<char>,
    hashed: Option<Seq<char>>,
) -> AnswerModel {
    if password != confirm_password {
        sent_back(Level::Error, "Passwords do not match"@, "/admin/add"@)
    } else if hashed is None {
        added_answer(Err(RingFault::TaskJoin), username)
    } else {
        added_answer(m.try_insert_admin(username, email), username)
    }
}

/// The change that the form makes, given the hash of its password.
pub open spec fn add_change(
    m: RingModel,
    username: Seq<char>,
    email: Seq<char>,
    password: Seq<char>,
    confirm_password: Seq<char>,
    hashed: Option<Seq<char>>,
) -> Option<ChangeModel> {
    if password == confirm_password && hashed is Some {
        if_done(
            m.try_insert_admin(username, email),
            ChangeModel::InsertAdmin { username, email, password_phc: hashed->Some_0 },
        )
    } else {
        None
    }
}

/// Answers the form that opens an account, given the hash of its password,
/// or `None` where the password could not be hashed. With the answer comes
/// the change that was made, if one was.
///
/// The two passwords of the form must be the same; where they are not,
/// nothing is opened, whatever the hash.
pub fn post_hashed(state: &mut RingState, data: AddAdminForm, hashed: Option<String>) -> (done: (
    Answer,
    Option<Change>,
))
    ensures
        final(state)@.wf(),
        done.0@ == add_answer(
            old(state)@,
            data.username@,
            data.email@,
            data.password@,
            data.confirm_password@,
            hash_view(hashed),
        ),
        change_view(done.1) == add_change(
            old(state)@,
            data.username@,
            data.email@,
            data.password@,
            data.confirm_password@,
            hash_view(hashed),
        ),
        final(state)@ == old(state)@.after_maybe(change_view(done.1)),
{
    state.attest();
    if data.password != data.confirm_password {
        return (
            send_back(
                Level::Error,
                String::from_str("Passwords do not match"),
                String::from_str("/admin/add"),
            ),
            None,
        );
    }
    let password_phc = match hashed {
        Some(password_phc) => password_phc,
        None => {
            return (addition_answer(Err(RingError::TaskJoin), data.username.as_str()), None);
        },
    };
    let username = data.username.clone();
    let email = data.email.clone();
    let added = state.insert_admin(data.username, data.email, password_phc.clone());
    let change = match &added {
        Ok(()) => Some(
            Change::InsertAdmin { username: username.clone(), email, password_phc },
        ),
        Err(_) => None,
    };
    (addition_answer(added, username.as_str()), change)
}

/// Answers the form that opens an account: hashes the password, where the
/// form gives it twice alike, and goes on as [`post_hashed`] does.
///
/// The hash depends on a random salt, so the contract names none; it says
/// that the password verifies against the one that is stored.
pub fn post(state: &mut RingState, data: AddAdminForm) -> (done: (Answer, Option<Change>))
    ensures
        final(state)@.wf(),
        final(state)@ == old(state)@.after_maybe(change_view(done.1)),
        exists|hashed: Option<Seq<char>>|
            {
                &&& hashed matches Some(password_phc) ==> verdict(data.password@, password_phc)
                    == Some(true)
                &&& done.0@ == #[trigger] add_answer(
                    old(state)@,
                    data.username@,
                    data.email@,
                    data.password@,
                    data.confirm_password@,
                    hashed,
                )
                &&& change_view(done.1) == add_change(
                    old(state)@,
                    data.username@,
                    data.email@,
                    data.password@,
                    data.confirm_password@,
                    hashed,
                )
            },
        data.password@ != data.confirm_password@ ==> done.1 is None,
{
    let hashed = if data.password == data.confirm_password {
        match hash_password(data.password.as_str()) {
            Ok(password_phc) => Some(password_phc),
            Err(_) => None,
        }
    } else {
        None
    };
    let ghost witness = hash_view(hashed);
    let done = post_hashed(state, data, hashed);
    assert(done.0@ == add_answer(
        old(state)@,
        data.username@,
        data.email@,
        data.password@,
        data.confirm_password@,
        witness,
    ));
    done
}

} // verus!
