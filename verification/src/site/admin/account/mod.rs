//! An admin's own account: its page, and its deletion.

use vstd::prelude::*;
use vstd::string::StringExecFns;

pub mod change_password;

use crate::ring::auth::Admin;
use crate::ring::model::RingModel;
use crate::ring::change::{change_view, if_done, Change, ChangeModel};
use crate::ring::RingState;
use crate::site::{Reply, ReplyModel};

verus! {

/// What the account page shows.
pub struct AdminAccountViewTemplate {
    pub admin: Admin,
    pub delete_button_pressed: bool,
}

/// What the address of the account page and of the deletion carries.
#[derive(Debug)]
pub struct DeleteParams {
    pub delete_pressed: Option<String>,
    pub delete_confirmed: Option<String>,
}

/// The flag is there and says `true`.
pub open spec fn says_true(flag: Option<String>) -> bool {
    flag matches Some(text) && text@ == "true"@
}

fn is_true(flag: &Option<String>) -> (yes: bool)
    ensures
        yes == says_true(*flag),
{
    match flag {
        Some(text) => *text == String::from_str("true"),
        None => false,
    }
}

/// The account page of the admin of the session. Once the delete button has
/// been pressed the page asks for confirmation.
pub fn view(user: Option<Admin>, params: &DeleteParams) -> (page: Result<
    AdminAccountViewTemplate,
    Reply,
>)
    ensures
        match user {
            Some(admin) => page matches Ok(shown) && shown.admin == admin
                && shown.delete_button_pressed == says_true(params.delete_pressed),
            None => page matches Err(reply) && reply@ == ReplyModel::Unauthorized,
        },
{
    match user {
        Some(admin) => Ok(
            AdminAccountViewTemplate {
                admin,
                delete_button_pressed: is_true(&params.delete_pressed),
            },
        ),
        None => Err(Reply::Unauthorized),
    }
}

/// What is to be done about a request to delete the account.
pub enum DeleteStep {
    /// The deletion was not confirmed: this reply asks for confirmation.
    AskAgain(Reply),
    /// The deletion was confirmed: end the session, then delete the account
    /// of the admin whose session it was.
    LogOut,
}

/// Decides whether the deletion goes ahead: it does once it is confirmed.
pub fn delete_account(params: &DeleteParams) -> (step: DeleteStep)
    ensures
        says_true(params.delete_confirmed) ==> step is LogOut,
        !says_true(params.delete_confirmed) ==> (step matches DeleteStep::AskAgain(reply)
            && reply@ == ReplyModel::Redirect("/admin/account?delete_pressed=true"@)),
{
    if is_true(&params.delete_confirmed) {
        DeleteStep::LogOut
    } else {
        DeleteStep::AskAgain(
            Reply::Redirect(String::from_str("/admin/account?delete_pressed=true")),
        )
    }
}

/// What came of ending the session.
pub enum LoggedOut {
    /// The session was this admin's.
    Admin(Admin),
    /// Nobody was logged in.
    Nobody,
    /// The session could not be ended.
    Failed,
}

/// The reply to a confirmed deletion, given what ending the session gave
/// and what the directory holds.
pub open spec fn deleted_reply(m: RingModel, logged_out: LoggedOut) -> ReplyModel {
    match logged_out {
        LoggedOut::Admin(admin) => if m.has_admin(admin@.id) {
            ReplyModel::Redirect("/"@)
        } else {
            ReplyModel::InternalServerError
        },
        LoggedOut::Nobody => ReplyModel::Unauthorized,
        LoggedOut::Failed => ReplyModel::InternalServerError,
    }
}

/// Deletes the account of the admin whose session was ended. With the
/// reply comes the change that was made, if one was.
pub fn delete_logged_out(state: &mut RingState, logged_out: LoggedOut) -> (done: (
    Reply,
    Option<Change>,
))
    ensures
        final(state)@.wf(),
        done.0@ == deleted_reply(old(state)@, logged_out),
        change_view(done.1) == (match logged_out {
            LoggedOut::Admin(admin) => if_done(
                old(state)@.try_delete_admin(admin@.id),
                ChangeModel::DeleteAdmin { admin_id: admin@.id },
            ),
            _ => None,
        }),
        final(state)@ == old(state)@.after_maybe(change_view(done.1)),
{
    state.attest();
    match logged_out {
        LoggedOut::Admin(admin) => match state.delete_admin(admin.id()) {
            Ok(()) => (
                Reply::Redirect(String::from_str("/")),
                Some(Change::DeleteAdmin { admin_id: admin.id() }),
            ),
            Err(_) => (Reply::InternalServerError, None),
        },
        LoggedOut::Nobody => (Reply::Unauthorized, None),
        LoggedOut::Failed => (Reply::InternalServerError, None),
    }
}

} // verus!
