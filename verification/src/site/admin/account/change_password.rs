//! Changing the password of the admin of the session.

use vstd::prelude::*;
use vstd::string::StringExecFns;

use crate::ring::auth::{hash_view, verdict, Admin};
use crate::ring::model::{AdminModel, RingFault, RingModel};
use crate::ring::change::{change_view, if_done, Change, ChangeModel};
use crate::ring::{outcome, RingError, RingState};
use crate::site::{just, send_back, sent_back, silent, Answer, AnswerModel, Level, Reply, ReplyModel};

verus! {

/// The form that changes a password.
#[derive(Clone)]
pub struct ChangePasswordForm {
    pub current_password: String,
    pub new_password: String,
    pub confirm_new_password: String,
}

/// The answer to a change of password, given how it went.
pub open spec fn changed_answer(changed: Result<(), RingFault>) -> AnswerModel {
    match changed {
        Ok(()) => silent(
            ReplyModel::Html(
                "Your password has successfully been changed. Please <a href=\"/login\">login</a> again."@,
            ),
        ),
        Err(RingFault::UnauthorisedAdmin) => sent_back(
            Level::Error,
            "Current password not valid."@,
            "./change-password"@,
        ),
        Err(_) => silent(ReplyModel::InternalServerError),
    }
}

/// The answer to a change of password, given how it went.
pub fn change_answer(changed: Result<(), RingError>) -> (answer: Answer)
    ensures
        answer@ == changed_answer(outcome(changed)),
{
    match changed {
        Ok(()) => just(
            Reply::Html(
                String::from_str(
                    "Your password has successfully been changed. Please <a href=\"/login\">login</a> again.",
                ),
            ),
        ),
        Err(RingError::UnauthorisedAdmin) => send_back(
            Level::Error,
            String::from_str("Current password not valid."),
            String::from_str("./change-password"),
        ),
        Err(_) => just(Reply::InternalServerError),
    }
}

/// The answer to the form that changes a password, given the hash of the
/// new password, or `None` where it could not be hashed.
pub open spec fn password_answer(
    m: RingModel,
    user: Option<AdminModel>,
    current_password: Seq<char>,
    new_password: Seq<char>,
    confirm_new_password: Seq<char>,
    hashed: Option<Seq<char>>,
) -> AnswerModel {
    match user {
        None => silent(ReplyModel::Unauthorized),
        Some(admin) => if new_password != confirm_new_password {
            sent_back(
                Level::Error,
                "New password and Confirmed new password do not match"@,
                "./change-password"@,
            )
        } else {
            changed_answer(m.try_change_password(admin.username, current_password, hashed))
        },
    }
}

/// The change that the form makes, given the hash of the new password.
pub open spec fn password_change(
    m: RingModel,
    user: Option<AdminModel>,
    current_password: Seq<char>,
    new_password: Seq<char>,
    confirm_new_password: Seq<char>,
    hashed: Option<Seq<char>>,
) -> Option<ChangeModel> {
    match user {
        None => None,
        Some(admin) => if new_password != confirm_new_password {
            None
        } else {
            if_done(
                m.try_change_password(admin.username, current_password, hashed),
                ChangeModel::StorePassword {
                    admin_id: m.admin_named(admin.username).id,
                    password_phc: hashed->Some_0,
                },
            )
        },
    }
}

/// The model of an admin that may be missing.
pub open spec fn user_view(user: Option<&Admin>) -> Option<AdminModel> {
    match user {
        Some(admin) => Some(admin@),
        None => None,
    }
}

/// Answers the form that changes the password of the admin of the session,
/// given the hash of the new password, or `None` where it could not be
/// hashed. With the answer comes the change that was made, if one was.
///
/// Without an admin nothing happens. The new password must be given twice
/// alike; where it is not, no password is verified and nothing is changed.
/// After that the current password has to verify, whatever the hash.
pub fn post_hashed(
    state: &mut RingState,
    user: Option<&Admin>,
    input: ChangePasswordForm,
    hashed: Option<String>,
) -> (done: (Answer, Option<Change>))
    ensures
        final(state)@.wf(),
        done.0@ == password_answer(
            old(state)@,
            user_view(user),
            input.current_password@,
            input.new_password@,
            input.confirm_new_password@,
            hash_view(hashed),
        ),
        change_view(done.1) == password_change(
            old(state)@,
            user_view(user),
            input.current_password@,
            input.new_password@,
            input.confirm_new_password@,
            hash_view(hashed),
        ),
        final(state)@ == old(state)@.after_maybe(change_view(done.1)),
{
    state.attest();
    let admin = match user {
        Some(admin) => admin,
        None => {
            return (just(Reply::Unauthorized), None);
        },
    };
    if input.new_password != input.confirm_new_password {
        return (
            send_back(
                Level::Error,
                String::from_str("New password and Confirmed new password do not match"),
                String::from_str("./change-password"),
            ),
            None,
        );
    }
    match state.change_password_hashed(admin, input.current_password, hashed) {
        Ok(change) => (change_answer(Ok(())), Some(change)),
        Err(e) => (change_answer(Err(e)), None),
    }
}

/// Answers the form that changes the password of the admin of the session.
/// With the answer comes the change that was made, if one was.
///
/// Without an admin nothing happens. The new password must be given twice
/// alike; where it is not, no password is verified and nothing is changed.
/// After that the rules are those of [`RingState::change_password`]: the
/// current password has to verify.
pub fn post(state: &mut RingState, user: Option<&Admin>, input: ChangePasswordForm) -> (done: (
    Answer,
    Option<Change>,
))
    ensures
        final(state)@.wf(),
        final(state)@ == old(state)@.after_maybe(change_view(done.1)),
        user is None ==> (done.0@ == silent(ReplyModel::Unauthorized) && done.1 is None),
        user is Some && input.new_password@ != input.confirm_new_password@ ==> (done.0@
            == sent_back(
            Level::Error,
            "New password and Confirmed new password do not match"@,
            "./change-password"@,
        ) && done.1 is None),
        user is Some && input.new_password@ == input.confirm_new_password@
            ==> exists|new_phc: Option<Seq<char>>|
            {
                &&& new_phc matches Some(password_phc) ==> verdict(
                    input.new_password@,
                    password_phc,
                ) == Some(true)
                &&& done.0@ == changed_answer(
                    #[trigger] old(state)@.try_change_password(
                        user->Some_0@.username,
                        input.current_password@,
                        new_phc,
                    ),
                )
                &&& change_view(done.1) == if_done(
                    old(state)@.try_change_password(
                        user->Some_0@.username,
                        input.current_password@,
                        new_phc,
                    ),
                    ChangeModel::StorePassword {
                        admin_id: old(state)@.admin_named(user->Some_0@.username).id,
                        password_phc: new_phc->Some_0,
                    },
                )
                &&& final(state)@ == old(state)@.after_change_password(
                    user->Some_0@.username,
                    input.current_password@,
                    new_phc,
                )
            },
{
    state.attest();
    let admin = match user {
        Some(admin) => admin,
        None => {
            return (just(Reply::Unauthorized), None);
        },
    };
    if input.new_password != input.confirm_new_password {
        return (
            send_back(
                Level::Error,
                String::from_str("New password and Confirmed new password do not match"),
                String::from_str("./change-password"),
            ),
            None,
        );
    }
    match state.change_password_recorded(admin, input.current_password, input.new_password) {
        Ok(change) => (change_answer(Ok(())), Some(change)),
        Err(e) => (change_answer(Err(e)), None),
    }
}

} // verus!
