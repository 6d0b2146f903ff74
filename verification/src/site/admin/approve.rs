//! Approving a site.

use vstd::prelude::*;
use vstd::string::StringExecFns;

use crate::ring::auth::Admin;
use crate::ring::model::{AdminModel, RingModel};
use crate::ring::change::{change_view, if_done, Change, ChangeModel};
use crate::ring::RingState;
use crate::site::{just, send_back, sent_back, silent, Answer, AnswerModel, Level, Reply, ReplyModel};

verus! {

/// The form that approves a site.
#[derive(Debug)]
pub struct ApproveSiteForm {
    pub url: String,
}

/// The answer to an approval, given who asked and what the directory holds.
pub open spec fn approve_answer(m: RingModel, user: Option<AdminModel>, url: Seq<char>) -> AnswerModel {
    match user {
        None => silent(ReplyModel::Unauthorized),
        Some(admin) => match m.try_decide(url, admin.id) {
            Ok(()) => sent_back(Level::Info, "Site "@ + url + " approved"@, "/admin/view"@),
            Err(_) => silent(ReplyModel::InternalServerError),
        },
    }
}

/// Answers the form that approves a site, for the admin of the session, on
/// the day `date_added`. Without an admin nothing is decided. With the
/// answer comes the change that was made, if one was.
pub fn post(state: &mut RingState, user: Option<&Admin>, form: &ApproveSiteForm, date_added: &str) -> (done: (
    Answer,
    Option<Change>,
))
    ensures
        final(state)@.wf(),
        change_view(done.1) == (match user {
            Some(admin) => if_done(
                old(state)@.try_decide(form.url@, admin@.id),
                ChangeModel::ApproveSite {
                    root_url: form.url@,
                    admin_id: admin@.id,
                    date_added: date_added@,
                },
            ),
            None => None,
        }),
        final(state)@ == old(state)@.after_maybe(change_view(done.1)),
        done.0@ == approve_answer(
            old(state)@,
            match user {
                Some(admin) => Some(admin@),
                None => None,
            },
            form.url@,
        ),
        final(state)@ == (match user {
            Some(admin) => old(state)@.after_approve_site(form.url@, admin@.id, date_added@),
            None => old(state)@,
        }),
{
    state.attest();
    let admin = match user {
        Some(admin) => admin,
        None => {
            return (just(Reply::Unauthorized), None);
        },
    };
    match state.approve_site(form.url.as_str(), admin.id(), date_added) {
        Err(_) => (just(Reply::InternalServerError), None),
        Ok(()) => (
            send_back(
                Level::Info,
                String::from_str("Site ").concat(form.url.as_str()).concat(" approved"),
                String::from_str("/admin/view"),
            ),
            Some(
                Change::ApproveSite {
                    root_url: form.url.clone(),
                    admin_id: admin.id(),
                    date_added: String::from_str(date_added),
                },
            ),
        ),
    }
}

} // verus!
