//! The mathematical model of the directory: what the store holds, seen as
//! sequences of rows in identity order, and what each operation makes of it.
//!
//! Every contract of the store is stated over [`RingModel`]. The functions
//! named `try_..` give the answer of an operation, those named `after_..` the
//! store that it leaves behind.

use vstd::prelude::*;

use super::StorageFault;
use super::auth::verdict;
use crate::text::decimal;

verus! {

/// Who decided on a site, and when.
pub struct AuditModel {
    pub date_added: Seq<char>,
    pub admin_id: int,
    pub admin_username: Seq<char>,
    pub admin_email: Seq<char>,
}

/// The three states of a site. A site is in exactly one of them.
pub enum StatusModel {
    Pending,
    Approved(AuditModel),
    Denied(AuditModel, Seq<char>),
}

/// A registered site.
pub struct SiteModel {
    pub id: int,
    pub root_url: Seq<char>,
    pub email: Seq<char>,
    pub status: StatusModel,
}

/// An operator account.
pub struct AdminModel {
    pub id: int,
    pub username: Seq<char>,
    pub email: Seq<char>,
    pub password_phc: Seq<char>,
}

/// The kinds of failure, as the contracts see them.
pub enum RingFault {
    RowNotFound(Seq<char>),
    UniqueRowAlreadyPresent(Seq<char>),
    SiteNotApproved(Seq<char>),
    UnrecoverableDatabaseError(StorageFault),
    TaskJoin,
    PasswordVerification,
    UnauthorisedAdmin,
}

/// The whole directory.
pub struct RingModel {
    pub sites: Seq<SiteModel>,
    pub admins: Seq<AdminModel>,
    pub last_site_id: int,
    pub last_admin_id: int,
}

/// Some row of `rows` has this URL.
pub open spec fn listed(rows: Seq<SiteModel>, root_url: Seq<char>) -> bool {
    exists|i: int| 0 <= i < rows.len() && #[trigger] rows[i].root_url == root_url
}

/// The place in `rows` of a row with this URL, where there is one.
pub open spec fn position(rows: Seq<SiteModel>, root_url: Seq<char>) -> int {
    choose|i: int| 0 <= i < rows.len() && #[trigger] rows[i].root_url == root_url
}

/// Rows in strictly ascending identity order, no two of them with one URL.
pub open spec fn ordered(rows: Seq<SiteModel>) -> bool {
    &&& forall|i: int, j: int|
        0 <= i < j < rows.len() ==> #[trigger] rows[i].id < #[trigger] rows[j].id
    &&& forall|i: int, j: int|
        0 <= i < j < rows.len() ==> #[trigger] rows[i].root_url != #[trigger] rows[j].root_url
}

/// The state of a site without what it carries.
pub enum Stage {
    Pending,
    Approved,
    Denied,
}

impl StatusModel {
    /// The state without what it carries.
    pub open spec fn stage(self) -> Stage {
        match self {
            StatusModel::Pending => Stage::Pending,
            StatusModel::Approved(_) => Stage::Approved,
            StatusModel::Denied(_, _) => Stage::Denied,
        }
    }
}

/// The rows of `rows` that are in the given state, in the order in which
/// they stand there.
pub open spec fn in_stage(rows: Seq<SiteModel>, stage: Stage) -> Seq<SiteModel>
    decreases rows.len(),
{
    if rows.len() == 0 {
        Seq::empty()
    } else if rows.last().status.stage() == stage {
        in_stage(rows.drop_last(), stage).push(rows.last())
    } else {
        in_stage(rows.drop_last(), stage)
    }
}

/// The account holds this username or this email.
pub open spec fn held_by(admin: AdminModel, username: Seq<char>, email: Seq<char>) -> bool {
    admin.username == username || admin.email == email
}

impl RingModel {
    /// The directory with no site and no admin.
    pub open spec fn empty() -> RingModel {
        RingModel { sites: Seq::empty(), admins: Seq::empty(), last_site_id: 0, last_admin_id: 0 }
    }

    /// What holds of every directory: identities are positive, ascending and
    /// never above the last one handed out; no URL, username or admin email
    /// occurs twice.
    pub open spec fn wf(self) -> bool {
        &&& 0 <= self.last_site_id <= i64::MAX
        &&& 0 <= self.last_admin_id <= i64::MAX
        &&& forall|i: int|
            0 <= i < self.sites.len() ==> 1 <= #[trigger] self.sites[i].id <= self.last_site_id
        &&& ordered(self.sites)
        &&& forall|i: int|
            0 <= i < self.admins.len() ==> 1 <= #[trigger] self.admins[i].id <= self.last_admin_id
        &&& forall|i: int, j: int|
            0 <= i < j < self.admins.len() ==> #[trigger] self.admins[i].id
                < #[trigger] self.admins[j].id
        &&& forall|i: int, j: int|
            0 <= i < j < self.admins.len() ==> #[trigger] self.admins[i].username
                != #[trigger] self.admins[j].username
        &&& forall|i: int, j: int|
            0 <= i < j < self.admins.len() ==> #[trigger] self.admins[i].email
                != #[trigger] self.admins[j].email
    }

    // ---- sites ----------------------------------------------------------

    /// A site with this URL is registered.
    pub open spec fn has_site(self, root_url: Seq<char>) -> bool {
        listed(self.sites, root_url)
    }

    /// The place of the site with this URL among the sites.
    pub open spec fn site_index(self, root_url: Seq<char>) -> int {
        position(self.sites, root_url)
    }

    /// The site with this URL.
    pub open spec fn site(self, root_url: Seq<char>) -> SiteModel {
        self.sites[self.site_index(root_url)]
    }

    /// The ring: the approved sites in identity order.
    pub open spec fn ring(self) -> Seq<SiteModel> {
        in_stage(self.sites, Stage::Approved)
    }

    /// The sites that wait for a decision, in identity order.
    pub open spec fn pending(self) -> Seq<SiteModel> {
        in_stage(self.sites, Stage::Pending)
    }

    /// The sites that were turned away, in identity order.
    pub open spec fn denied(self) -> Seq<SiteModel> {
        in_stage(self.sites, Stage::Denied)
    }

    /// The answer to a registration: a URL is registered once, and the
    /// identities run out after the greatest one.
    pub open spec fn try_add_site(self, root_url: Seq<char>) -> Result<(), RingFault> {
        if self.has_site(root_url) {
            Err(RingFault::UniqueRowAlreadyPresent(root_url))
        } else if self.last_site_id >= i64::MAX {
            Err(RingFault::UnrecoverableDatabaseError(StorageFault::IdentityExhausted))
        } else {
            Ok(())
        }
    }

    /// The directory after a registration: where it is accepted, the new site
    /// stands last, pending, with the next identity.
    pub open spec fn after_add_site(self, root_url: Seq<char>, email: Seq<char>) -> RingModel {
        if self.try_add_site(root_url) is Ok {
            RingModel {
                sites: self.sites.push(
                    SiteModel {
                        id: self.last_site_id + 1,
                        root_url,
                        email,
                        status: StatusModel::Pending,
                    },
                ),
                last_site_id: self.last_site_id + 1,
                ..self
            }
        } else {
            self
        }
    }

    /// The answer to a removal.
    pub open spec fn try_remove_site(self, root_url: Seq<char>) -> Result<(), RingFault> {
        if self.has_site(root_url) {
            Ok(())
        } else {
            Err(RingFault::RowNotFound(root_url))
        }
    }

    /// The directory after a removal: without the site, the others in their
    /// order.
    pub open spec fn after_remove_site(self, root_url: Seq<char>) -> RingModel {
        if self.has_site(root_url) {
            RingModel { sites: self.sites.remove(self.site_index(root_url)), ..self }
        } else {
            self
        }
    }

    /// The answer to an approval or a denial. Both record the admin first and
    /// link the record to the site second; a site is decided once.
    pub open spec fn try_decide(self, root_url: Seq<char>, admin_id: int) -> Result<(), RingFault> {
        if !self.has_admin(admin_id) {
            Err(RingFault::UnrecoverableDatabaseError(StorageFault::UnknownAdmin))
        } else if !self.has_site(root_url) {
            Err(RingFault::RowNotFound(root_url))
        } else if !(self.site(root_url).status is Pending) {
            Err(RingFault::UnrecoverableDatabaseError(StorageFault::AlreadyDecided))
        } else {
            Ok(())
        }
    }

    /// The audit record that `admin_id` leaves on the given day.
    pub open spec fn audit(self, admin_id: int, date_added: Seq<char>) -> AuditModel {
        AuditModel {
            date_added,
            admin_id,
            admin_username: self.admin(admin_id).username,
            admin_email: self.admin(admin_id).email,
        }
    }

    /// The directory with the state of one site replaced.
    pub open spec fn after_decision(self, root_url: Seq<char>, status: StatusModel) -> RingModel {
        RingModel {
            sites: self.sites.update(
                self.site_index(root_url),
                SiteModel { status, ..self.site(root_url) },
            ),
            ..self
        }
    }

    /// The directory after an approval.
    pub open spec fn after_approve_site(
        self,
        root_url: Seq<char>,
        admin_id: int,
        date_added: Seq<char>,
    ) -> RingModel {
        if self.try_decide(root_url, admin_id) is Ok {
            self.after_decision(root_url, StatusModel::Approved(self.audit(admin_id, date_added)))
        } else {
            self
        }
    }

    /// The directory after a denial.
    pub open spec fn after_deny_site(
        self,
        root_url: Seq<char>,
        reason: Seq<char>,
        admin_id: int,
        date_added: Seq<char>,
    ) -> RingModel {
        if self.try_decide(root_url, admin_id) is Ok {
            self.after_decision(
                root_url,
                StatusModel::Denied(self.audit(admin_id, date_added), reason),
            )
        } else {
            self
        }
    }

    // ---- traversal ------------------------------------------------------

    /// The URL is that of a site of the ring.
    pub open spec fn is_approved(self, root_url: Seq<char>) -> bool {
        listed(self.ring(), root_url)
    }

    /// The approved site that follows `current_url` in the ring. The ring
    /// does not wrap: its last site has no successor.
    pub open spec fn get_next(self, current_url: Seq<char>) -> Result<Seq<char>, RingFault> {
        let ring = self.ring();
        let here = position(ring, current_url);
        if !listed(ring, current_url) {
            Err(RingFault::SiteNotApproved(current_url))
        } else if here + 1 < ring.len() {
            Ok(ring[here + 1].root_url)
        } else {
            Err(RingFault::RowNotFound(current_url))
        }
    }

    /// The approved site that precedes `current_url` in the ring. The ring
    /// does not wrap: its first site has no predecessor.
    pub open spec fn get_prev(self, current_url: Seq<char>) -> Result<Seq<char>, RingFault> {
        let ring = self.ring();
        let here = position(ring, current_url);
        if !listed(ring, current_url) {
            Err(RingFault::SiteNotApproved(current_url))
        } else if here >= 1 {
            Ok(ring[here - 1].root_url)
        } else {
            Err(RingFault::RowNotFound(current_url))
        }
    }

    /// The site that a draw selects: the draw, reduced modulo the length of
    /// the ring, counts from the ring's first site.
    pub open spec fn pick_site(self, draw: int) -> Result<Seq<char>, RingFault> {
        let ring = self.ring();
        if ring.len() == 0 {
            Err(RingFault::RowNotFound("approved_sites"@))
        } else {
            Ok(ring[draw % (ring.len() as int)].root_url)
        }
    }

    // ---- admins ---------------------------------------------------------

    /// An account has this identity.
    pub open spec fn has_admin(self, admin_id: int) -> bool {
        exists|i: int| 0 <= i < self.admins.len() && #[trigger] self.admins[i].id == admin_id
    }

    /// The place of the account with this identity among the accounts.
    pub open spec fn admin_index(self, admin_id: int) -> int {
        choose|i: int| 0 <= i < self.admins.len() && #[trigger] self.admins[i].id == admin_id
    }

    /// The account with this identity.
    pub open spec fn admin(self, admin_id: int) -> AdminModel {
        self.admins[self.admin_index(admin_id)]
    }

    /// An account has this username.
    pub open spec fn has_admin_named(self, username: Seq<char>) -> bool {
        exists|i: int|
            0 <= i < self.admins.len() && #[trigger] self.admins[i].username == username
    }

    /// The account with this username.
    pub open spec fn admin_named(self, username: Seq<char>) -> AdminModel {
        self.admins[choose|i: int|
            0 <= i < self.admins.len() && #[trigger] self.admins[i].username == username]
    }

    /// An account holds this username or this email.
    pub open spec fn taken(self, username: Seq<char>, email: Seq<char>) -> bool {
        exists|i: int|
            0 <= i < self.admins.len() && held_by(#[trigger] self.admins[i], username, email)
    }

    /// The answer to the opening of an account.
    pub open spec fn try_insert_admin(self, username: Seq<char>, email: Seq<char>) -> Result<
        (),
        RingFault,
    > {
        if self.taken(username, email) {
            Err(RingFault::UniqueRowAlreadyPresent(username + " "@ + email))
        } else if self.last_admin_id >= i64::MAX {
            Err(RingFault::UnrecoverableDatabaseError(StorageFault::IdentityExhausted))
        } else {
            Ok(())
        }
    }

    /// The directory after the opening of an account: where it is accepted,
    /// the new account stands last, with the next identity.
    pub open spec fn after_insert_admin(
        self,
        username: Seq<char>,
        email: Seq<char>,
        password_phc: Seq<char>,
    ) -> RingModel {
        if self.try_insert_admin(username, email) is Ok {
            RingModel {
                admins: self.admins.push(
                    AdminModel { id: self.last_admin_id + 1, username, email, password_phc },
                ),
                last_admin_id: self.last_admin_id + 1,
                ..self
            }
        } else {
            self
        }
    }

    /// The answer to the closing of an account.
    pub open spec fn try_delete_admin(self, admin_id: int) -> Result<(), RingFault> {
        if self.has_admin(admin_id) {
            Ok(())
        } else {
            Err(RingFault::RowNotFound("Admin with admin id "@ + decimal(admin_id)))
        }
    }

    /// The directory after the closing of an account.
    pub open spec fn after_delete_admin(self, admin_id: int) -> RingModel {
        if self.has_admin(admin_id) {
            RingModel { admins: self.admins.remove(self.admin_index(admin_id)), ..self }
        } else {
            self
        }
    }

    /// The account that the credentials open: the one with this username, if
    /// the password verifies against its stored hash.
    pub open spec fn authenticate(self, username: Seq<char>, password: Seq<char>) -> Result<
        Option<AdminModel>,
        RingFault,
    > {
        if !self.has_admin_named(username) {
            Ok(None)
        } else {
            match verdict(password, self.admin_named(username).password_phc) {
                Some(true) => Ok(Some(self.admin_named(username))),
                Some(false) => Ok(None),
                None => Err(RingFault::PasswordVerification),
            }
        }
    }

    /// The account with this identity, if there is one.
    pub open spec fn get_user(self, admin_id: int) -> Option<AdminModel> {
        if self.has_admin(admin_id) {
            Some(self.admin(admin_id))
        } else {
            None
        }
    }

    /// The answer to a change of password, where `new_phc` is the hash of the
    /// new password, or `None` if it could not be hashed. The current
    /// password is verified before anything else.
    pub open spec fn try_change_password(
        self,
        username: Seq<char>,
        current_password: Seq<char>,
        new_phc: Option<Seq<char>>,
    ) -> Result<(), RingFault> {
        match self.authenticate(username, current_password) {
            Err(fault) => Err(fault),
            Ok(None) => Err(RingFault::UnauthorisedAdmin),
            Ok(Some(_)) => if new_phc is Some {
                Ok(())
            } else {
                Err(RingFault::TaskJoin)
            },
        }
    }

    /// The answer to the storing of a hash.
    pub open spec fn try_store_password(self, admin_id: int) -> Result<(), RingFault> {
        if self.has_admin(admin_id) {
            Ok(())
        } else {
            Err(RingFault::RowNotFound("Admin with admin id "@ + decimal(admin_id)))
        }
    }

    /// The directory after the storing of a hash.
    pub open spec fn after_store_password(self, admin_id: int, password_phc: Seq<char>) -> RingModel {
        if self.has_admin(admin_id) {
            self.with_password(admin_id, password_phc)
        } else {
            self
        }
    }

    /// The directory with the stored hash of one account replaced.
    pub open spec fn with_password(self, admin_id: int, password_phc: Seq<char>) -> RingModel {
        RingModel {
            admins: self.admins.update(
                self.admin_index(admin_id),
                AdminModel { password_phc, ..self.admin(admin_id) },
            ),
            ..self
        }
    }

    /// The directory after a change of password: where it is accepted, the
    /// account holds the new hash and nothing else has changed.
    pub open spec fn after_change_password(
        self,
        username: Seq<char>,
        current_password: Seq<char>,
        new_phc: Option<Seq<char>>,
    ) -> RingModel {
        if self.try_change_password(username, current_password, new_phc) is Ok {
            self.with_password(self.admin_named(username).id, new_phc->Some_0)
        } else {
            self
        }
    }
}

} // verus!
