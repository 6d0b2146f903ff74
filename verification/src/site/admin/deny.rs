//! Turning a site away.

use vstd::prelude::*;
use vstd::string::StringExecFns;

use crate::ring::auth::Admin;
use crate::ring::model::{AdminModel, RingModel};
use crate::ring::change::{change_view, if_done, Change, ChangeModel};
use crate::ring::RingState;
use crate::site::{just, send_back, sent_back, silent, Answer, AnswerModel, Level, Reply, ReplyModel};

verus! {

/// The form that denies a site.
#[derive(Debug)]
pub struct DenySiteForm {
    pub url: String,
    pub reason: String,
}

/// The answer to a denial, given who asked and what the directory holds.
pub open spec fn deny_answer(
    m: RingModel,
    user: Option<AdminModel>,
    url: Seq<char>,
    reason: Seq<char>,
) -> AnswerModel {
    match user {
        None => silent(ReplyModel::Unauthorized),
        Some(admin) => match m.try_decide(url, admin.id) {
            Ok(()) => sent_back(
                Level::Info,
                "Site "@ + url + " denied with reason "@ + reason,
                "/admin/view"@,
            ),
            Err(_) => silent(ReplyModel::InternalServerError),
        },
    }
}

/// Answers the form that denies a site, for the admin of the session, on the
/// day `date_added`. Without an admin nothing is decided. With the answer
/// comes the change that was made, if one was.
pub fn post(state: &mut RingState, user: Option<&Admin>, form: &DenySiteForm, date_added: &str) -> (done: (
    Answer,
    Option<Change>,
))
    ensures
        final(state)@.wf(),
        change_view(done.1) == (match user {
            Some(admin) => if_done(
                old(state)@.try_decide(form.url@, admin@.id),
                ChangeModel::DenySite {
                    root_url: form.url@,
                    reason: form.reason@,
                    admin_id: admin@.id,
                    date_added: date_added@,
                },
            ),
            None => None,
        }),
        final(state)@ == old(state)@.after_maybe(change_view(done.1)),
        done.0@ == deny_answer(
            old(state)@,
            match user {
                Some(admin) => Some(admin@),
                None => None,
            },
            form.url@,
            form.reason@,
        ),
        final(state)@ == (match user {
            Some(admin) => old(state)@.after_deny_site(
                form.url@,
                form.reason@,
                admin@.id,
                date_added@,
            ),
            None => old(state)@,
        }),
{
    state.attest();
    let admin = match user {
        Some(admin) => admin,
        None => {
            return (just(Reply::Unauthorized), None);
        },
    };
    match state.deny_site(form.url.as_str(), form.reason.as_str(), admin.id(), date_added) {
        Err(_) => (just(Reply::InternalServerError), None),
        Ok(()) => (
            send_back(
                Level::Info,
                String::from_str("Site ").concat(form.url.as_str()).concat(
                    " denied with reason ",
                ).concat(form.reason.as_str()),
                String::from_str("/admin/view"),
            ),
            Some(
                Change::DenySite {
                    root_url: form.url.clone(),
                    reason: form.reason.clone(),
                    admin_id: admin.id(),
                    date_added: String::from_str(date_added),
                },
            ),
        ),
    }
}

} // verus!
