//! The pages of the admins.

use vstd::prelude::*;

pub mod account;
pub mod add;
pub mod approve;
pub mod deny;

use super::{Reply, ReplyModel};
use crate::ring::{
    approved_rows, denied_rows, unapproved_rows, ApprovedSite, DeniedSite, RingError, RingState,
    UnapprovedSite,
};

verus! {

/// What the admins' view of the sites shows: every site, by state.
pub struct AdminViewSitesTemplate {
    pub unapproved_sites: Vec<UnapprovedSite>,
    pub approved_sites: Vec<ApprovedSite>,
    pub denied_sites: Vec<DeniedSite>,
}

/// The admins' view of the sites. A list that finds nothing is an empty
/// list; any other failure of a list is a failure of the page.
pub fn view(state: &RingState) -> (page: Result<AdminViewSitesTemplate, Reply>)
    ensures
        match page {
            Ok(lists) => {
                &&& unapproved_rows(lists.unapproved_sites@) == state@.pending()
                &&& approved_rows(lists.approved_sites@).to_multiset()
                    == state@.ring().to_multiset()
                &&& denied_rows(lists.denied_sites@) == state@.denied()
            },
            Err(reply) => reply@ == ReplyModel::InternalServerError && state@.ring().len() >= 2,
        },
{
    let unapproved_sites = match state.get_list_unapproved() {
        Ok(sites) => sites,
        Err(RingError::RowNotFound(_)) => Vec::new(),
        Err(_) => {
            return Err(Reply::InternalServerError);
        },
    };
    let approved_sites = match state.get_list_approved() {
        Ok(sites) => sites,
        Err(RingError::RowNotFound(_)) => Vec::new(),
        Err(_) => {
            return Err(Reply::InternalServerError);
        },
    };
    let denied_sites = match state.get_list_denied() {
        Ok(sites) => sites,
        Err(RingError::RowNotFound(_)) => Vec::new(),
        Err(_) => {
            return Err(Reply::InternalServerError);
        },
    };
    Ok(AdminViewSitesTemplate { unapproved_sites, approved_sites, denied_sites })
}

} // verus!
