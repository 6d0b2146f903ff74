//! Changes to the directory, as values.
//!
//! Every operation that changes the directory can be written down as a
//! [`Change`]. A caller that keeps the directory writes the changes down in
//! their order; applying them in that order to an empty directory gives the
//! directory back.

use vstd::prelude::*;

use super::model::{RingFault, RingModel};
use super::{outcome, RingError, RingState};

verus! {

/// One change to the directory.
#[derive(Debug, PartialEq, Eq)]
pub enum Change {
    AddSite { root_url: String, email: String },
    RemoveSite { root_url: String },
    ApproveSite { root_url: String, admin_id: i64, date_added: String },
    DenySite { root_url: String, reason: String, admin_id: i64, date_added: String },
    InsertAdmin { username: String, email: String, password_phc: String },
    DeleteAdmin { admin_id: i64 },
    StorePassword { admin_id: i64, password_phc: String },
}

/// A change, as the contracts see it.
pub enum ChangeModel {
    AddSite { root_url: Seq<char>, email: Seq<char> },
    RemoveSite { root_url: Seq<char> },
    ApproveSite { root_url: Seq<char>, admin_id: int, date_added: Seq<char> },
    DenySite { root_url: Seq<char>, reason: Seq<char>, admin_id: int, date_added: Seq<char> },
    InsertAdmin { username: Seq<char>, email: Seq<char>, password_phc: Seq<char> },
    DeleteAdmin { admin_id: int },
    StorePassword { admin_id: int, password_phc: Seq<char> },
}

impl View for Change {
    type V = ChangeModel;

    open spec fn view(&self) -> ChangeModel {
        match self {
            Change::AddSite { root_url, email } => ChangeModel::AddSite {
                root_url: root_url@,
                email: email@,
            },
            Change::RemoveSite { root_url } => ChangeModel::RemoveSite { root_url: root_url@ },
            Change::ApproveSite { root_url, admin_id, date_added } => ChangeModel::ApproveSite {
                root_url: root_url@,
                admin_id: *admin_id as int,
                date_added: date_added@,
            },
            Change::DenySite { root_url, reason, admin_id, date_added } => ChangeModel::DenySite {
                root_url: root_url@,
                reason: reason@,
                admin_id: *admin_id as int,
                date_added: date_added@,
            },
            Change::InsertAdmin { username, email, password_phc } => ChangeModel::InsertAdmin {
                username: username@,
                email: email@,
                password_phc: password_phc@,
            },
            Change::DeleteAdmin { admin_id } => ChangeModel::DeleteAdmin {
                admin_id: *admin_id as int,
            },
            Change::StorePassword { admin_id, password_phc } => ChangeModel::StorePassword {
                admin_id: *admin_id as int,
                password_phc: password_phc@,
            },
        }
    }
}

/// The model of a change that may be none.
pub open spec fn change_view(change: Option<Change>) -> Option<ChangeModel> {
    match change {
        Some(change) => Some(change@),
        None => None,
    }
}

/// The model of an answer that carries a change.
pub open spec fn change_outcome(r: Result<Change, RingError>) -> Result<ChangeModel, RingFault> {
    match r {
        Ok(change) => Ok(change@),
        Err(e) => Err(e@),
    }
}

/// The change, where the operation was accepted; else its refusal.
pub open spec fn recorded(tried: Result<(), RingFault>, change: ChangeModel) -> Result<
    ChangeModel,
    RingFault,
> {
    match tried {
        Ok(()) => Ok(change),
        Err(fault) => Err(fault),
    }
}

/// The change, where the operation was accepted; else none.
pub open spec fn if_done(tried: Result<(), RingFault>, change: ChangeModel) -> Option<ChangeModel> {
    match tried {
        Ok(()) => Some(change),
        Err(_) => None,
    }
}

impl RingModel {
    /// The answer of the directory to a change.
    pub open spec fn try_change(self, change: ChangeModel) -> Result<(), RingFault> {
        match change {
            ChangeModel::AddSite { root_url, email } => self.try_add_site(root_url),
            ChangeModel::RemoveSite { root_url } => self.try_remove_site(root_url),
            ChangeModel::ApproveSite { root_url, admin_id, date_added } => self.try_decide(
                root_url,
                admin_id,
            ),
            ChangeModel::DenySite { root_url, reason, admin_id, date_added } => self.try_decide(
                root_url,
                admin_id,
            ),
            ChangeModel::InsertAdmin { username, email, password_phc } => self.try_insert_admin(
                username,
                email,
            ),
            ChangeModel::DeleteAdmin { admin_id } => self.try_delete_admin(admin_id),
            ChangeModel::StorePassword { admin_id, password_phc } => self.try_store_password(
                admin_id,
            ),
        }
    }

    /// The directory after a change.
    pub open spec fn after_change(self, change: ChangeModel) -> RingModel {
        match change {
            ChangeModel::AddSite { root_url, email } => self.after_add_site(root_url, email),
            ChangeModel::RemoveSite { root_url } => self.after_remove_site(root_url),
            ChangeModel::ApproveSite { root_url, admin_id, date_added } => self.after_approve_site(
                root_url,
                admin_id,
                date_added,
            ),
            ChangeModel::DenySite { root_url, reason, admin_id, date_added } => self.after_deny_site(
                root_url,
                reason,
                admin_id,
                date_added,
            ),
            ChangeModel::InsertAdmin { username, email, password_phc } => self.after_insert_admin(
                username,
                email,
                password_phc,
            ),
            ChangeModel::DeleteAdmin { admin_id } => self.after_delete_admin(admin_id),
            ChangeModel::StorePassword { admin_id, password_phc } => self.after_store_password(
                admin_id,
                password_phc,
            ),
        }
    }

    /// The directory after a change that may be none.
    pub open spec fn after_maybe(self, change: Option<ChangeModel>) -> RingModel {
        match change {
            Some(change) => self.after_change(change),
            None => self,
        }
    }
}

impl RingState {
    /// Makes a change that was written down. It is held to the rules of the
    /// operation that it stands for, and a change that those rules refuse
    /// leaves the directory as it was.
    pub fn apply(&mut self, change: Change) -> (r: Result<(), RingError>)
        ensures
            outcome(r) == old(self)@.try_change(change@),
            final(self)@ == old(self)@.after_change(change@),
            final(self)@.wf(),
    {
        self.attest();
        match change {
            Change::AddSite { root_url, email } => self.add_site(root_url.as_str(), email.as_str()),
            Change::RemoveSite { root_url } => self.remove_site(root_url.as_str()),
            Change::ApproveSite { root_url, admin_id, date_added } => self.approve_site(
                root_url.as_str(),
                admin_id,
                date_added.as_str(),
            ),
            Change::DenySite { root_url, reason, admin_id, date_added } => self.deny_site(
                root_url.as_str(),
                reason.as_str(),
                admin_id,
                date_added.as_str(),
            ),
            Change::InsertAdmin { username, email, password_phc } => self.insert_admin(
                username,
                email,
                password_phc,
            ),
            Change::DeleteAdmin { admin_id } => self.delete_admin(admin_id),
            Change::StorePassword { admin_id, password_phc } => self.store_password(
                admin_id,
                password_phc,
            ),
        }
    }
}

} // verus!
