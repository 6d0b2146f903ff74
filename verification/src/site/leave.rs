//! Leaving the ring.

use vstd::prelude::*;
use vstd::string::StringExecFns;

use super::{Reply, ReplyModel};
use crate::ring::model::RingFault;
use crate::ring::change::{change_view, if_done, Change, ChangeModel};
use crate::ring::{outcome, RingError, RingState};

verus! {

/// The form with which a site leaves.
#[derive(Debug)]
pub struct LeaveForm {
    pub url: String,
}

/// What the page says before anything is sent.
pub fn get() -> (reply: Reply)
    ensures
        reply@ == ReplyModel::Text("You want to leave, but the form means nothing to you...."@),
{
    Reply::Text(String::from_str("You want to leave, but the form means nothing to you...."))
}

/// The page that answers a removal.
pub open spec fn leave_reply(removed: Result<(), RingFault>) -> ReplyModel {
    match removed {
        Ok(()) => ReplyModel::Html("Your site has been removed from the webring!"@),
        Err(RingFault::RowNotFound(site)) => ReplyModel::Html(
            "The site "@ + site + " isn't present in our systems"@,
        ),
        Err(_) => ReplyModel::Html(
            "We are having some backend problems currently, please try again later"@,
        ),
    }
}

/// The page that answers a removal, given how the removal went.
pub fn removal_reply(removed: Result<(), RingError>) -> (reply: Reply)
    ensures
        reply@ == leave_reply(outcome(removed)),
{
    match removed {
        Ok(()) => Reply::Html(String::from_str("Your site has been removed from the webring!")),
        Err(RingError::RowNotFound(site)) => Reply::Html(
            String::from_str("The site ").concat(site.as_str()).concat(
                " isn't present in our systems",
            ),
        ),
        Err(_) => Reply::Html(
            String::from_str(
                "We are having some backend problems currently, please try again later",
            ),
        ),
    }
}

/// Removes the site of the form from the directory and says how it went.
/// With the reply comes the change that was made, if one was.
pub fn post(state: &mut RingState, data: &LeaveForm) -> (done: (Reply, Option<Change>))
    ensures
        done.0@ == leave_reply(old(state)@.try_remove_site(data.url@)),
        change_view(done.1) == if_done(
            old(state)@.try_remove_site(data.url@),
            ChangeModel::RemoveSite { root_url: data.url@ },
        ),
        final(state)@ == old(state)@.after_remove_site(data.url@),
        final(state)@ == old(state)@.after_maybe(change_view(done.1)),
        final(state)@.wf(),
{
    let removed = state.remove_site(data.url.as_str());
    let change = match &removed {
        Ok(()) => Some(Change::RemoveSite { root_url: data.url.clone() }),
        Err(_) => None,
    };
    (removal_reply(removed), change)
}

} // verus!
