//! Walking the ring: next, previous, random, and the list of its sites.

use vstd::prelude::*;
use vstd::string::StringExecFns;

use super::{texts, Reply, ReplyModel};
use crate::ring::model::{RingFault, SiteModel};
use crate::ring::shuffle::shuffled;
use crate::ring::{approved_rows, url_outcome, ApprovedSite, RingError, RingState};

verus! {

/// The site that the visitor comes from.
#[derive(Debug)]
pub struct MoveParams {
    pub current: String,
}

/// What the list of the ring shows: the URLs of its sites.
pub struct ListTemplate {
    pub sites: Vec<String>,
}

/// Where a step in the ring leads. At either end of the ring the visitor is
/// sent to the ring's home; from a site that is no part of the ring nobody
/// is sent anywhere.
pub open spec fn walk_reply(url: Result<Seq<char>, RingFault>, current_url: Seq<char>) -> ReplyModel {
    match url {
        Ok(to) => ReplyModel::Redirect(to),
        Err(RingFault::SiteNotApproved(_)) => ReplyModel::Unauthorized,
        Err(RingFault::RowNotFound(_)) => ReplyModel::Redirect("."@),
        Err(_) => ReplyModel::Redirect(current_url),
    }
}

/// The reply to a step in the ring, given what the directory found.
pub fn next_prev_redirect(url: Result<String, RingError>, current_url: String) -> (reply: Reply)
    ensures
        reply@ == walk_reply(url_outcome(url), current_url@),
{
    match url {
        Ok(to) => Reply::Redirect(to),
        Err(RingError::SiteNotApproved(_)) => Reply::Unauthorized,
        Err(RingError::RowNotFound(_)) => Reply::Redirect(String::from_str(".")),
        Err(_) => Reply::Redirect(current_url),
    }
}

/// Sends the visitor to the site after the one they come from.
pub fn next(params: MoveParams, state: &RingState) -> (reply: Reply)
    ensures
        reply@ == walk_reply(state@.get_next(params.current@), params.current@),
{
    let found = state.get_next(params.current.as_str());
    next_prev_redirect(found, params.current)
}

/// Sends the visitor to the site before the one they come from.
pub fn prev(params: MoveParams, state: &RingState) -> (reply: Reply)
    ensures
        reply@ == walk_reply(state@.get_prev(params.current@), params.current@),
{
    let found = state.get_prev(params.current.as_str());
    next_prev_redirect(found, params.current)
}

/// Where a random pick leads. An empty ring is explained on a page of its
/// own; any other failure sends the visitor to the ring's home.
pub open spec fn random_reply(url: Result<Seq<char>, RingFault>) -> ReplyModel {
    match url {
        Ok(to) => ReplyModel::Redirect(to),
        Err(RingFault::RowNotFound(_)) => ReplyModel::Html(
            "<h1>Error</h1><br><p>There are currently no approved sites in the webring :( Maybe you should add yours!"@,
        ),
        Err(_) => ReplyModel::Redirect("."@),
    }
}

/// The reply to a random pick, given what the directory picked.
pub fn random_redirect(url: Result<String, RingError>) -> (reply: Reply)
    ensures
        reply@ == random_reply(url_outcome(url)),
{
    match url {
        Ok(to) => Reply::Redirect(to),
        Err(RingError::RowNotFound(_)) => Reply::Html(
            String::from_str(
                "<h1>Error</h1><br><p>There are currently no approved sites in the webring :( Maybe you should add yours!",
            ),
        ),
        Err(_) => Reply::Redirect(String::from_str(".")),
    }
}

/// Sends the visitor to a site of the ring that chance picks.
pub fn random(state: &RingState) -> (reply: Reply)
    ensures
        state@.ring().len() == 0 ==> reply@ == random_reply(state@.pick_site(0)),
        state@.ring().len() > 0 ==> (reply@ == ReplyModel::Redirect("."@) || exists|draw: int|
            reply@ == random_reply(#[trigger] state@.pick_site(draw))),
{
    random_redirect(state.get_random_site())
}

/// The URLs of rows, in their order.
pub open spec fn urls_of(rows: Seq<SiteModel>) -> Seq<Seq<char>> {
    rows.map_values(|row: SiteModel| row.root_url)
}

/// The list of the ring, given the rows that the directory listed. A
/// listing that found nothing is an empty list, not a failure.
pub fn list_page(listed: Result<Vec<ApprovedSite>, RingError>) -> (page: Result<ListTemplate, Reply>)
    ensures
        match listed {
            Ok(rows) => page matches Ok(list) && texts(list.sites@) == urls_of(
                approved_rows(rows@),
            ),
            Err(RingError::RowNotFound(_)) => page matches Ok(list) && list.sites@.len() == 0,
            Err(_) => page matches Err(reply) && reply@ == ReplyModel::InternalServerError,
        },
{
    match listed {
        Ok(rows) => {
            let mut sites: Vec<String> = Vec::new();
            let mut i: usize = 0;
            while i < rows.len()
                invariant
                    i <= rows.len(),
                    sites@.len() == i,
                    forall|k: int| 0 <= k < i ==> (#[trigger] sites@[k])@ == rows@[k].root_url@,
                decreases rows.len() - i,
            {
                sites.push(rows[i].root_url.clone());
                i += 1;
            }
            assert(texts(sites@) =~= urls_of(approved_rows(rows@)));
            Ok(ListTemplate { sites })
        },
        Err(RingError::RowNotFound(_)) => Ok(ListTemplate { sites: Vec::new() }),
        Err(_) => Err(Reply::InternalServerError),
    }
}

/// The list of the ring, in an order that chance decides anew at each call.
pub fn list(state: &RingState) -> (page: Result<ListTemplate, Reply>)
    ensures
        match page {
            Ok(list) => exists|draws: Seq<u64>|
                texts(list.sites@) == urls_of(
                    #[trigger] shuffled(state@.ring(), draws, state@.ring().len() - 1),
                ),
            Err(reply) => reply@ == ReplyModel::InternalServerError && state@.ring().len() >= 2,
        },
{
    list_page(state.get_list_approved())
}

} // verus!
