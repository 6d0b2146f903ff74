//! The ring directory: site records, their moderation status, and the
//! traversal over the approved sites.
//!
//! A site is pending, approved or denied. Approving and denying are final:
//! the only transitions are from pending. The ring is the sequence of the
//! approved sites in the order of their identities, and it does not wrap.

use vstd::prelude::*;
use vstd::string::StringExecFns;

pub mod auth;
pub mod change;
pub mod laws;
pub mod lemmas;
pub mod model;
pub mod shuffle;

use crate::text::decimal_text;
use auth::{hash_password, verdict, Admin};
use change::{change_outcome, recorded, Change, ChangeModel};
use lemmas::{lemma_find, lemma_find_admin, lemma_stage_rows};
use model::{
    in_stage, ordered, position, AuditModel, RingFault, RingModel, SiteModel, Stage, StatusModel,
};
use shuffle::{random_draw, shuffle_rows, shuffled};

verus! {

/// What kept the store from carrying out a request.
#[derive(Clone, Copy, Debug, PartialEq, Eq, Structural)]
pub enum StorageFault {
    /// Every identity of the table has been handed out.
    IdentityExhausted,
    /// The audit record names an admin that the store does not hold.
    UnknownAdmin,
    /// The site has been approved or denied before.
    AlreadyDecided,
    /// The operating system gave no random bytes.
    EntropyUnavailable,
}

/// The failures of the directory.
#[derive(Debug, PartialEq, Eq)]
pub enum RingError {
    /// Nothing matched; the text names what was sought.
    RowNotFound(String),
    /// The row would collide with one that is there; the text names it.
    UniqueRowAlreadyPresent(String),
    /// The site is not part of the ring.
    SiteNotApproved(String),
    /// The store could not carry out the request.
    UnrecoverableDatabaseError(StorageFault),
    /// The password could not be hashed.
    TaskJoin,
    /// The stored hash could not be used to verify a password.
    PasswordVerification(argon2::password_hash::Error),
    /// The current password was not proved.
    UnauthorisedAdmin,
}

impl View for RingError {
    type V = RingFault;

    open spec fn view(&self) -> RingFault {
        match self {
            RingError::RowNotFound(what) => RingFault::RowNotFound(what@),
            RingError::UniqueRowAlreadyPresent(what) => RingFault::UniqueRowAlreadyPresent(what@),
            RingError::SiteNotApproved(url) => RingFault::SiteNotApproved(url@),
            RingError::UnrecoverableDatabaseError(fault) => RingFault::UnrecoverableDatabaseError(
                *fault,
            ),
            RingError::TaskJoin => RingFault::TaskJoin,
            RingError::PasswordVerification(_) => RingFault::PasswordVerification,
            RingError::UnauthorisedAdmin => RingFault::UnauthorisedAdmin,
        }
    }
}

/// The text of a failure, but for the verifier's own words, which only
/// [`RingError::message`] has.
pub open spec fn message_of(fault: RingFault) -> Seq<char> {
    match fault {
        RingFault::RowNotFound(what) => "The query "@ + what + " did not return any rows"@,
        RingFault::UniqueRowAlreadyPresent(what) => "The row "@ + what
            + " is already present in the database"@,
        RingFault::SiteNotApproved(url) => "The site "@ + url + " is not approved"@,
        RingFault::UnrecoverableDatabaseError(StorageFault::IdentityExhausted) =>
            "The table has no identity left for a new row"@,
        RingFault::UnrecoverableDatabaseError(StorageFault::UnknownAdmin) =>
            "The record names an admin that does not exist"@,
        RingFault::UnrecoverableDatabaseError(StorageFault::AlreadyDecided) =>
            "The site has been approved or denied before"@,
        RingFault::UnrecoverableDatabaseError(StorageFault::EntropyUnavailable) =>
            "The operating system gave no random bytes"@,
        RingFault::TaskJoin => "The password could not be hashed"@,
        RingFault::PasswordVerification => "Password verification error: "@,
        RingFault::UnauthorisedAdmin =>
            "An admin method was called outside of an authorised session"@,
    }
}

impl RingError {
    /// The failure in words.
    ///
    /// For a failure of the password verifier the text ends in the
    /// verifier's own words, which the contract leaves open.
    pub fn message(&self) -> (text: String)
        ensures
            !(self@ is PasswordVerification) ==> text@ == message_of(self@),
            message_of(self@).is_prefix_of(text@),
    {
        match self {
            RingError::RowNotFound(what) => String::from_str("The query ").concat(
                what.as_str(),
            ).concat(" did not return any rows"),
            RingError::UniqueRowAlreadyPresent(what) => String::from_str("The row ").concat(
                what.as_str(),
            ).concat(" is already present in the database"),
            RingError::SiteNotApproved(url) => String::from_str("The site ").concat(
                url.as_str(),
            ).concat(" is not approved"),
            RingError::UnrecoverableDatabaseError(StorageFault::IdentityExhausted) => {
                String::from_str("The table has no identity left for a new row")
            },
            RingError::UnrecoverableDatabaseError(StorageFault::UnknownAdmin) => {
                String::from_str("The record names an admin that does not exist")
            },
            RingError::UnrecoverableDatabaseError(StorageFault::AlreadyDecided) => {
                String::from_str("The site has been approved or denied before")
            },
            RingError::UnrecoverableDatabaseError(StorageFault::EntropyUnavailable) => {
                String::from_str("The operating system gave no random bytes")
            },
            RingError::TaskJoin => String::from_str("The password could not be hashed"),
            RingError::PasswordVerification(e) => {
                let words = auth::verifier_words(e);
                let text = String::from_str("Password verification error: ").concat(
                    words.as_str(),
                );
                assert(text@.subrange(0, "Password verification error: "@.len() as int)
                    =~= "Password verification error: "@);
                text
            },
            RingError::UnauthorisedAdmin => String::from_str(
                "An admin method was called outside of an authorised session",
            ),
        }
    }
}

/// The model of an answer that carries no value.
pub open spec fn outcome(r: Result<(), RingError>) -> Result<(), RingFault> {
    match r {
        Ok(()) => Ok(()),
        Err(e) => Err(e@),
    }
}

/// The model of an answer that carries a URL.
pub open spec fn url_outcome(r: Result<String, RingError>) -> Result<Seq<char>, RingFault> {
    match r {
        Ok(url) => Ok(url@),
        Err(e) => Err(e@),
    }
}

/// A site of the ring, with the admin who approved it.
#[derive(Clone)]
pub struct ApprovedSite {
    pub site_id: i64,
    pub root_url: String,
    pub site_email: String,
    pub date_added: String,
    pub admin_id: i64,
    pub admin_username: String,
    pub admin_email: String,
}

impl View for ApprovedSite {
    type V = SiteModel;

    open spec fn view(&self) -> SiteModel {
        SiteModel {
            id: self.site_id as int,
            root_url: self.root_url@,
            email: self.site_email@,
            status: StatusModel::Approved(
                AuditModel {
                    date_added: self.date_added@,
                    admin_id: self.admin_id as int,
                    admin_username: self.admin_username@,
                    admin_email: self.admin_email@,
                },
            ),
        }
    }
}

/// A site that waits for a decision.
#[derive(Clone)]
pub struct UnapprovedSite {
    pub id: i64,
    pub root_url: String,
    pub email: String,
}

impl View for UnapprovedSite {
    type V = SiteModel;

    open spec fn view(&self) -> SiteModel {
        SiteModel {
            id: self.id as int,
            root_url: self.root_url@,
            email: self.email@,
            status: StatusModel::Pending,
        }
    }
}

/// A site that was turned away, with the admin who did so and the reason.
#[derive(Clone)]
pub struct DeniedSite {
    pub site_id: i64,
    pub root_url: String,
    pub site_email: String,
    pub date_added: String,
    pub reason: String,
    pub admin_id: i64,
    pub admin_username: String,
    pub admin_email: String,
}

impl View for DeniedSite {
    type V = SiteModel;

    open spec fn view(&self) -> SiteModel {
        SiteModel {
            id: self.site_id as int,
            root_url: self.root_url@,
            email: self.site_email@,
            status: StatusModel::Denied(
                AuditModel {
                    date_added: self.date_added@,
                    admin_id: self.admin_id as int,
                    admin_username: self.admin_username@,
                    admin_email: self.admin_email@,
                },
                self.reason@,
            ),
        }
    }
}

/// The models of a list of approved sites.
pub open spec fn approved_rows(rows: Seq<ApprovedSite>) -> Seq<SiteModel> {
    rows.map_values(|row: ApprovedSite| row@)
}

/// The models of a list of pending sites.
pub open spec fn unapproved_rows(rows: Seq<UnapprovedSite>) -> Seq<SiteModel> {
    rows.map_values(|row: UnapprovedSite| row@)
}

/// The models of a list of denied sites.
pub open spec fn denied_rows(rows: Seq<DeniedSite>) -> Seq<SiteModel> {
    rows.map_values(|row: DeniedSite| row@)
}

pub(crate) struct Audit {
    date_added: String,
    admin_id: i64,
    admin_username: String,
    admin_email: String,
}

impl View for Audit {
    type V = AuditModel;

    closed spec fn view(&self) -> AuditModel {
        AuditModel {
            date_added: self.date_added@,
            admin_id: self.admin_id as int,
            admin_username: self.admin_username@,
            admin_email: self.admin_email@,
        }
    }
}

pub(crate) enum Status {
    Pending,
    Approved(Audit),
    Denied(Audit, String),
}

impl View for Status {
    type V = StatusModel;

    closed spec fn view(&self) -> StatusModel {
        match self {
            Status::Pending => StatusModel::Pending,
            Status::Approved(audit) => StatusModel::Approved(audit@),
            Status::Denied(audit, reason) => StatusModel::Denied(audit@, reason@),
        }
    }
}

pub(crate) struct Site {
    id: i64,
    root_url: String,
    email: String,
    status: Status,
}

impl View for Site {
    type V = SiteModel;

    closed spec fn view(&self) -> SiteModel {
        SiteModel {
            id: self.id as int,
            root_url: self.root_url@,
            email: self.email@,
            status: self.status@,
        }
    }
}

pub(crate) closed spec fn site_rows(sites: Seq<Site>) -> Seq<SiteModel> {
    sites.map_values(|site: Site| site@)
}

impl View for Admin {
    type V = model::AdminModel;

    closed spec fn view(&self) -> model::AdminModel {
        model::AdminModel {
            id: self.id as int,
            username: self.username@,
            email: self.email@,
            password_phc: self.password_phc@,
        }
    }
}

pub(crate) closed spec fn admin_rows(admins: Seq<Admin>) -> Seq<model::AdminModel> {
    admins.map_values(|admin: Admin| admin@)
}

/// The directory. It owns every site and every admin account; nothing else
/// changes them.
pub struct RingState {
    pub(crate) sites: Vec<Site>,
    pub(crate) admins: Vec<Admin>,
    pub(crate) last_site_id: i64,
    pub(crate) last_admin_id: i64,
}

impl View for RingState {
    type V = RingModel;

    closed spec fn view(&self) -> RingModel {
        RingModel {
            sites: site_rows(self.sites@),
            admins: admin_rows(self.admins@),
            last_site_id: self.last_site_id as int,
            last_admin_id: self.last_admin_id as int,
        }
    }
}

impl RingState {
    #[verifier::type_invariant]
    pub(crate) closed spec fn inv(self) -> bool {
        self@.wf()
    }

    /// An empty directory.
    pub fn new() -> (state: Self)
        ensures
            state@ == RingModel::empty(),
            state@.wf(),
    {
        let state = RingState {
            sites: Vec::new(),
            admins: Vec::new(),
            last_site_id: 0,
            last_admin_id: 0,
        };
        assert(state@.sites =~= Seq::empty());
        assert(state@.admins =~= Seq::empty());
        state
    }

    /// Makes known to the caller what holds of every directory.
    pub(crate) fn attest(&self)
        ensures
            self@.wf(),
    {
        proof {
            use_type_invariant(self);
        }
    }

    /// Moves the sites out, so that they can be changed while the directory
    /// stays well formed.
    fn take_sites(&mut self) -> (sites: Vec<Site>)
        ensures
            sites == old(self).sites,
            final(self).sites@ == Seq::<Site>::empty(),
            final(self).admins == old(self).admins,
            final(self).last_site_id == old(self).last_site_id,
            final(self).last_admin_id == old(self).last_admin_id,
            final(self)@ == (RingModel { sites: Seq::empty(), ..old(self)@ }),
    {
        proof {
            use_type_invariant(&*self);
        }
        let mut sites: Vec<Site> = Vec::new();
        proof {
            assert(site_rows(sites@) =~= Seq::<SiteModel>::empty());
            let hollow = RingModel { sites: site_rows(sites@), ..self@ };
            assert(hollow.wf());
        }
        std::mem::swap(&mut sites, &mut self.sites);
        sites
    }

    /// Moves the admins out, so that they can be changed while the directory
    /// stays well formed.
    pub(crate) fn take_admins(&mut self) -> (admins: Vec<Admin>)
        ensures
            admins == old(self).admins,
            final(self)@ == (RingModel { admins: Seq::empty(), ..old(self)@ }),
    {
        proof {
            use_type_invariant(&*self);
        }
        let mut admins: Vec<Admin> = Vec::new();
        proof {
            assert(admin_rows(admins@) =~= Seq::<model::AdminModel>::empty());
            let hollow = RingModel { admins: admin_rows(admins@), ..self@ };
            assert(hollow.wf());
        }
        std::mem::swap(&mut admins, &mut self.admins);
        admins
    }

    fn find_site(&self, root_url: &String) -> (found: Option<usize>)
        ensures
            match found {
                Some(i) => self@.has_site(root_url@) && self@.site_index(root_url@) == i && i
                    < self.sites@.len(),
                None => !self@.has_site(root_url@),
            },
    {
        proof {
            use_type_invariant(self);
        }
        let mut i: usize = 0;
        while i < self.sites.len()
            invariant
                self@.wf(),
                i <= self.sites.len(),
                forall|k: int| 0 <= k < i ==> (#[trigger] self@.sites[k]).root_url != root_url@,
            decreases self.sites.len() - i,
        {
            if self.sites[i].root_url == *root_url {
                proof {
                    lemma_find(self@.sites, i as int);
                }
                return Some(i);
            }
            i += 1;
        }
        None
    }

    pub(crate) fn find_admin(&self, admin_id: i64) -> (found: Option<usize>)
        ensures
            match found {
                Some(i) => self@.has_admin(admin_id as int) && self@.admin_index(admin_id as int)
                    == i && i < self.admins@.len(),
                None => !self@.has_admin(admin_id as int),
            },
    {
        proof {
            use_type_invariant(self);
        }
        let mut i: usize = 0;
        while i < self.admins.len()
            invariant
                self@.wf(),
                i <= self.admins.len(),
                forall|k: int| 0 <= k < i ==> (#[trigger] self@.admins[k]).id != admin_id,
            decreases self.admins.len() - i,
        {
            if self.admins[i].id == admin_id {
                proof {
                    lemma_find_admin(self@, i as int);
                }
                return Some(i);
            }
            i += 1;
        }
        None
    }

    /// The audit record that the admin at `at` leaves on the given day.
    fn audit(&self, at: usize, date_added: &str) -> (audit: Audit)
        requires
            at < self.admins@.len(),
        ensures
            audit@ == self@.audit(self@.admins[at as int].id, date_added@),
    {
        proof {
            use_type_invariant(self);
            lemma_find_admin(self@, at as int);
        }
        let admin = &self.admins[at];
        Audit {
            date_added: date_added.to_owned(),
            admin_id: admin.id,
            admin_username: admin.username.clone(),
            admin_email: admin.email.clone(),
        }
    }

    /// Puts a decision on the pending site at `at`.
    fn decide(&mut self, at: usize, status: Status)
        requires
            at < old(self).sites@.len(),
            old(self)@.sites[at as int].status is Pending,
            !(status@ is Pending),
        ensures
            final(self)@ == old(self)@.after_decision(old(self)@.sites[at as int].root_url, status@),
            final(self)@.wf(),
    {
        proof {
            use_type_invariant(&*self);
            lemma_find(self@.sites, at as int);
        }
        let mut sites = self.take_sites();
        let site = sites.remove(at);
        sites.insert(
            at,
            Site { id: site.id, root_url: site.root_url, email: site.email, status },
        );
        proof {
            let after = old(self)@.after_decision(old(self)@.sites[at as int].root_url, status@);
            assert(site_rows(sites@) =~= after.sites);
            assert(after.wf());
        }
        self.sites = sites;
    }

    /// Registers a site. It starts out pending.
    ///
    /// A URL is registered once: a second registration is refused and leaves
    /// the directory as it was.
    pub fn add_site(&mut self, root_url: &str, email: &str) -> (r: Result<(), RingError>)
        ensures
            outcome(r) == old(self)@.try_add_site(root_url@),
            final(self)@ == old(self)@.after_add_site(root_url@, email@),
            final(self)@.wf(),
    {
        proof {
            use_type_invariant(&*self);
        }
        let key = root_url.to_owned();
        if self.find_site(&key).is_some() {
            return Err(RingError::UniqueRowAlreadyPresent(key));
        }
        if self.last_site_id == i64::MAX {
            return Err(RingError::UnrecoverableDatabaseError(StorageFault::IdentityExhausted));
        }
        let id: i64 = self.last_site_id + 1;
        let mut sites = self.take_sites();
        self.last_site_id = id;
        sites.push(Site { id, root_url: key, email: email.to_owned(), status: Status::Pending });
        proof {
            let after = old(self)@.after_add_site(root_url@, email@);
            assert(site_rows(sites@) =~= after.sites);
            assert(after.wf());
        }
        self.sites = sites;
        Ok(())
    }

    /// Removes a site, whatever its state.
    pub fn remove_site(&mut self, root_url: &str) -> (r: Result<(), RingError>)
        ensures
            outcome(r) == old(self)@.try_remove_site(root_url@),
            final(self)@ == old(self)@.after_remove_site(root_url@),
            final(self)@.wf(),
    {
        proof {
            use_type_invariant(&*self);
        }
        let key = root_url.to_owned();
        match self.find_site(&key) {
            None => Err(RingError::RowNotFound(key)),
            Some(i) => {
                let mut sites = self.take_sites();
                let _ = sites.remove(i);
                proof {
                    let after = old(self)@.after_remove_site(root_url@);
                    assert(site_rows(sites@) =~= after.sites);
                    assert(after.wf());
                }
                self.sites = sites;
                Ok(())
            },
        }
    }

    /// Admits a pending site to the ring, on the word of the admin
    /// `admin_id`, on the day `date_added`.
    ///
    /// The decision is recorded with the admin's name and email as they are
    /// at that moment. An admin that the directory does not hold can decide
    /// nothing: that is refused as a failure of the store. A URL that names
    /// no site is refused as not found. A site is decided once: approving a
    /// site that was approved or denied before is refused as a failure of
    /// the store. Whatever is refused leaves the directory as it was.
    pub fn approve_site(&mut self, root_url: &str, admin_id: i64, date_added: &str) -> (r: Result<
        (),
        RingError,
    >)
        ensures
            outcome(r) == old(self)@.try_decide(root_url@, admin_id as int),
            final(self)@ == old(self)@.after_approve_site(
                root_url@,
                admin_id as int,
                date_added@,
            ),
            final(self)@.wf(),
    {
        proof {
            use_type_invariant(&*self);
        }
        let key = root_url.to_owned();
        let by = match self.find_admin(admin_id) {
            None => {
                return Err(RingError::UnrecoverableDatabaseError(StorageFault::UnknownAdmin));
            },
            Some(by) => by,
        };
        let at = match self.find_site(&key) {
            None => {
                return Err(RingError::RowNotFound(key));
            },
            Some(at) => at,
        };
        if !self.is_pending_at(at) {
            return Err(RingError::UnrecoverableDatabaseError(StorageFault::AlreadyDecided));
        }
        let audit = self.audit(by, date_added);
        self.decide(at, Status::Approved(audit));
        Ok(())
    }

    /// Turns a pending site away, on the word of the admin `admin_id`, on the
    /// day `date_added`, for the given reason.
    ///
    /// The rules are those of [`RingState::approve_site`]: an unknown admin
    /// and a site that was decided before are failures of the store, a URL
    /// that names no site is not found, and a refusal changes nothing.
    pub fn deny_site(
        &mut self,
        root_url: &str,
        reason: &str,
        admin_id: i64,
        date_added: &str,
    ) -> (r: Result<(), RingError>)
        ensures
            outcome(r) == old(self)@.try_decide(root_url@, admin_id as int),
            final(self)@ == old(self)@.after_deny_site(
                root_url@,
                reason@,
                admin_id as int,
                date_added@,
            ),
            final(self)@.wf(),
    {
        proof {
            use_type_invariant(&*self);
        }
        let key = root_url.to_owned();
        let by = match self.find_admin(admin_id) {
            None => {
                return Err(RingError::UnrecoverableDatabaseError(StorageFault::UnknownAdmin));
            },
            Some(by) => by,
        };
        let at = match self.find_site(&key) {
            None => {
                return Err(RingError::RowNotFound(key));
            },
            Some(at) => at,
        };
        if !self.is_pending_at(at) {
            return Err(RingError::UnrecoverableDatabaseError(StorageFault::AlreadyDecided));
        }
        let audit = self.audit(by, date_added);
        self.decide(at, Status::Denied(audit, reason.to_owned()));
        Ok(())
    }

    /// The ring, row by row, in identity order.
    pub(crate) fn ring_rows(&self) -> (rows: Vec<ApprovedSite>)
        ensures
            approved_rows(rows@) == self@.ring(),
            ordered(self@.ring()),
    {
        proof {
            use_type_invariant(self);
            lemma_stage_rows(self@.sites, Stage::Approved);
        }
        let mut rows: Vec<ApprovedSite> = Vec::new();
        let mut i: usize = 0;
        assert(approved_rows(rows@) =~= in_stage(self@.sites.take(0), Stage::Approved));
        while i < self.sites.len()
            invariant
                i <= self.sites.len(),
                approved_rows(rows@) == in_stage(self@.sites.take(i as int), Stage::Approved),
            decreases self.sites.len() - i,
        {
            let site = &self.sites[i];
            let ghost before = rows@;
            match &site.status {
                Status::Approved(audit) => {
                    rows.push(
                        ApprovedSite {
                            site_id: site.id,
                            root_url: site.root_url.clone(),
                            site_email: site.email.clone(),
                            date_added: audit.date_added.clone(),
                            admin_id: audit.admin_id,
                            admin_username: audit.admin_username.clone(),
                            admin_email: audit.admin_email.clone(),
                        },
                    );
                    assert(approved_rows(rows@) =~= approved_rows(before).push(self@.sites[i as int]));
                },
                _ => {},
            }
            proof {
                let upto = self@.sites.take(i + 1);
                assert(upto.drop_last() =~= self@.sites.take(i as int));
                assert(upto.last() == self@.sites[i as int]);
            }
            i += 1;
        }
        assert(self@.sites.take(i as int) =~= self@.sites);
        rows
    }

    /// The ring, row by row, in an order that chance decides anew at each
    /// call.
    ///
    /// A ring of fewer than two sites needs no chance and is always listed.
    pub fn get_list_approved(&self) -> (r: Result<Vec<ApprovedSite>, RingError>)
        ensures
            match r {
                Ok(rows) => {
                    &&& approved_rows(rows@).to_multiset() == self@.ring().to_multiset()
                    &&& exists|draws: Seq<u64>|
                        approved_rows(rows@) == #[trigger] shuffled(
                            self@.ring(),
                            draws,
                            self@.ring().len() - 1,
                        )
                },
                Err(e) => e@ == RingFault::UnrecoverableDatabaseError(
                    StorageFault::EntropyUnavailable,
                ) && self@.ring().len() >= 2,
            },
    {
        let rows = self.ring_rows();
        let mut draws: Vec<u64> = Vec::new();
        if rows.len() >= 2 {
            while draws.len() < rows.len()
                invariant
                    draws.len() <= rows.len(),
                    rows@.len() >= 2,
                    approved_rows(rows@) == self@.ring(),
                decreases rows.len() - draws.len(),
            {
                match random_draw() {
                    Ok(draw) => draws.push(draw),
                    Err(e) => {
                        return Err(e);
                    },
                }
            }
        }
        proof {
            shuffle::lemma_shuffled_permutes(self@.ring(), draws@, self@.ring().len() - 1);
        }
        Ok(shuffle_rows(rows, &draws))
    }

    /// A site of the ring, chosen by chance.
    ///
    /// An empty ring has no site to give, whatever chance says, and a ring of
    /// one site gives that site: in neither case is anything drawn.
    pub fn get_random_site(&self) -> (r: Result<String, RingError>)
        ensures
            self@.ring().len() <= 1 ==> url_outcome(r) == self@.pick_site(0),
            self@.ring().len() > 1 ==> (url_outcome(r) == Err::<Seq<char>, RingFault>(
                RingFault::UnrecoverableDatabaseError(StorageFault::EntropyUnavailable),
            ) || exists|draw: int| url_outcome(r) == #[trigger] self@.pick_site(draw)),
    {
        let ring = self.ring_rows();
        if ring.len() <= 1 {
            return self.pick_from(&ring, 0);
        }
        match random_draw() {
            Ok(draw) => self.pick_from(&ring, draw),
            Err(e) => Err(e),
        }
    }

    /// The sites that wait for a decision, in identity order.
    pub fn get_list_unapproved(&self) -> (r: Result<Vec<UnapprovedSite>, RingError>)
        ensures
            r matches Ok(rows) && unapproved_rows(rows@) == self@.pending(),
    {
        let mut rows: Vec<UnapprovedSite> = Vec::new();
        let mut i: usize = 0;
        assert(unapproved_rows(rows@) =~= in_stage(self@.sites.take(0), Stage::Pending));
        while i < self.sites.len()
            invariant
                i <= self.sites.len(),
                unapproved_rows(rows@) == in_stage(self@.sites.take(i as int), Stage::Pending),
            decreases self.sites.len() - i,
        {
            let site = &self.sites[i];
            let ghost before = rows@;
            match &site.status {
                Status::Pending => {
                    rows.push(
                        UnapprovedSite {
                            id: site.id,
                            root_url: site.root_url.clone(),
                            email: site.email.clone(),
                        },
                    );
                    assert(unapproved_rows(rows@) =~= unapproved_rows(before).push(
                        self@.sites[i as int],
                    ));
                },
                _ => {},
            }
            proof {
                let upto = self@.sites.take(i + 1);
                assert(upto.drop_last() =~= self@.sites.take(i as int));
                assert(upto.last() == self@.sites[i as int]);
            }
            i += 1;
        }
        assert(self@.sites.take(i as int) =~= self@.sites);
        Ok(rows)
    }

    /// The sites that were turned away, in identity order.
    pub fn get_list_denied(&self) -> (r: Result<Vec<DeniedSite>, RingError>)
        ensures
            r matches Ok(rows) && denied_rows(rows@) == self@.denied(),
    {
        let mut rows: Vec<DeniedSite> = Vec::new();
        let mut i: usize = 0;
        assert(denied_rows(rows@) =~= in_stage(self@.sites.take(0), Stage::Denied));
        while i < self.sites.len()
            invariant
                i <= self.sites.len(),
                denied_rows(rows@) == in_stage(self@.sites.take(i as int), Stage::Denied),
            decreases self.sites.len() - i,
        {
            let site = &self.sites[i];
            let ghost before = rows@;
            match &site.status {
                Status::Denied(audit, reason) => {
                    rows.push(
                        DeniedSite {
                            site_id: site.id,
                            root_url: site.root_url.clone(),
                            site_email: site.email.clone(),
                            date_added: audit.date_added.clone(),
                            reason: reason.clone(),
                            admin_id: audit.admin_id,
                            admin_username: audit.admin_username.clone(),
                            admin_email: audit.admin_email.clone(),
                        },
                    );
                    assert(denied_rows(rows@) =~= denied_rows(before).push(self@.sites[i as int]));
                },
                _ => {},
            }
            proof {
                let upto = self@.sites.take(i + 1);
                assert(upto.drop_last() =~= self@.sites.take(i as int));
                assert(upto.last() == self@.sites[i as int]);
            }
            i += 1;
        }
        assert(self@.sites.take(i as int) =~= self@.sites);
        Ok(rows)
    }

    /// The place of a URL in the ring.
    fn ring_position(&self, ring: &Vec<ApprovedSite>, root_url: &String) -> (found: Option<usize>)
        requires
            approved_rows(ring@) == self@.ring(),
            ordered(self@.ring()),
        ensures
            match found {
                Some(k) => self@.is_approved(root_url@) && position(self@.ring(), root_url@) == k
                    && k < ring@.len(),
                None => !self@.is_approved(root_url@),
            },
    {
        let mut k: usize = 0;
        while k < ring.len()
            invariant
                approved_rows(ring@) == self@.ring(),
                ordered(self@.ring()),
                k <= ring.len(),
                forall|j: int| 0 <= j < k ==> (#[trigger] self@.ring()[j]).root_url != root_url@,
            decreases ring.len() - k,
        {
            if ring[k].root_url == *root_url {
                proof {
                    assert(self@.ring()[k as int] == ring@[k as int]@);
                    lemma_find(self@.ring(), k as int);
                }
                return Some(k);
            }
            proof {
                assert(self@.ring()[k as int] == ring@[k as int]@);
            }
            k += 1;
        }
        None
    }

    /// The site after `current_url` in the ring.
    ///
    /// The ring is walked in the order of the sites' identities and does not
    /// wrap: from its last site there is no next one. A URL that is not an
    /// approved site is refused as such, whether it is pending, denied or
    /// unknown.
    pub fn get_next(&self, current_url: &str) -> (r: Result<String, RingError>)
        ensures
            url_outcome(r) == self@.get_next(current_url@),
    {
        let key = current_url.to_owned();
        let ring = self.ring_rows();
        match self.ring_position(&ring, &key) {
            None => Err(RingError::SiteNotApproved(key)),
            Some(here) => {
                if ring.len() - here > 1 {
                    assert(self@.ring()[here + 1] == ring@[here + 1]@);
                    Ok(ring[here + 1].root_url.clone())
                } else {
                    Err(RingError::RowNotFound(key))
                }
            },
        }
    }

    /// The site before `current_url` in the ring.
    ///
    /// The mirror image of [`RingState::get_next`]: from the ring's first
    /// site there is no previous one.
    pub fn get_prev(&self, current_url: &str) -> (r: Result<String, RingError>)
        ensures
            url_outcome(r) == self@.get_prev(current_url@),
    {
        let key = current_url.to_owned();
        let ring = self.ring_rows();
        match self.ring_position(&ring, &key) {
            None => Err(RingError::SiteNotApproved(key)),
            Some(here) => {
                if here >= 1 {
                    assert(self@.ring()[here - 1] == ring@[here - 1]@);
                    Ok(ring[here - 1].root_url.clone())
                } else {
                    Err(RingError::RowNotFound(key))
                }
            },
        }
    }

    /// The site of the ring that the draw selects.
    fn pick_from(&self, ring: &Vec<ApprovedSite>, draw: u64) -> (r: Result<String, RingError>)
        requires
            approved_rows(ring@) == self@.ring(),
        ensures
            url_outcome(r) == self@.pick_site(draw as int),
    {
        if ring.len() == 0 {
            return Err(RingError::RowNotFound("approved_sites".to_owned()));
        }
        let at = (draw % (ring.len() as u64)) as usize;
        assert(self@.ring()[at as int] == ring@[at as int]@);
        Ok(ring[at].root_url.clone())
    }

    /// The site that the draw selects among the approved ones: the draw is
    /// counted round the ring from its first site.
    pub fn pick_site(&self, draw: u64) -> (r: Result<String, RingError>)
        ensures
            url_outcome(r) == self@.pick_site(draw as int),
    {
        let ring = self.ring_rows();
        self.pick_from(&ring, draw)
    }

    /// Whether an account holds this username or this email.
    fn is_taken(&self, username: &String, email: &String) -> (taken: bool)
        ensures
            taken == self@.taken(username@, email@),
    {
        let mut i: usize = 0;
        while i < self.admins.len()
            invariant
                i <= self.admins.len(),
                forall|k: int|
                    0 <= k < i ==> !model::held_by(#[trigger] self@.admins[k], username@, email@),
            decreases self.admins.len() - i,
        {
            if self.admins[i].username == *username || self.admins[i].email == *email {
                assert(model::held_by(self@.admins[i as int], username@, email@));
                return true;
            }
            i += 1;
        }
        false
    }

    /// Opens an account whose password has been hashed already.
    ///
    /// A username and an email each belong to one account: where either is
    /// held already, the account is refused and the directory stays as it
    /// was.
    pub fn insert_admin(&mut self, username: String, email: String, password_phc: String) -> (r:
        Result<(), RingError>)
        ensures
            outcome(r) == old(self)@.try_insert_admin(username@, email@),
            final(self)@ == old(self)@.after_insert_admin(username@, email@, password_phc@),
            final(self)@.wf(),
    {
        proof {
            use_type_invariant(&*self);
        }
        if self.is_taken(&username, &email) {
            return Err(
                RingError::UniqueRowAlreadyPresent(username.concat(" ").concat(email.as_str())),
            );
        }
        if self.last_admin_id == i64::MAX {
            return Err(RingError::UnrecoverableDatabaseError(StorageFault::IdentityExhausted));
        }
        let id: i64 = self.last_admin_id + 1;
        let mut admins = self.take_admins();
        self.last_admin_id = id;
        admins.push(Admin { id, username, email, password_phc });
        proof {
            let after = old(self)@.after_insert_admin(username@, email@, password_phc@);
            assert(admin_rows(admins@) =~= after.admins);
            assert(after.wf());
        }
        self.admins = admins;
        Ok(())
    }

    /// Opens an account as [`RingState::add_admin`] does, and hands back the
    /// change that was made, hash included, for the caller to write down.
    pub fn add_admin_recorded(
        &mut self,
        username: String,
        email: String,
        password_plaintext: String,
    ) -> (r: Result<Change, RingError>)
        ensures
            (change_outcome(r) == Err::<ChangeModel, RingFault>(RingFault::TaskJoin)
                && final(self)@ == old(self)@) || (exists|password_phc: Seq<char>|
                verdict(password_plaintext@, password_phc) == Some(true) && final(self)@
                    == #[trigger] old(self)@.after_insert_admin(username@, email@, password_phc)
                    && change_outcome(r) == recorded(
                    old(self)@.try_insert_admin(username@, email@),
                    ChangeModel::InsertAdmin {
                        username: username@,
                        email: email@,
                        password_phc,
                    },
                )),
            final(self)@.wf(),
    {
        proof {
            use_type_invariant(&*self);
        }
        match hash_password(password_plaintext.as_str()) {
            Err(e) => Err(e),
            Ok(password_phc) => {
                match self.insert_admin(username.clone(), email.clone(), password_phc.clone()) {
                    Ok(()) => Ok(Change::InsertAdmin { username, email, password_phc }),
                    Err(e) => Err(e),
                }
            },
        }
    }

    /// Opens an account: hashes the password, then inserts the account as
    /// [`RingState::insert_admin`] does.
    ///
    /// The hash depends on a random salt, so the contract names no hash; it
    /// says that the password verifies against the one that is stored. Where
    /// the password cannot be hashed nothing is inserted.
    pub fn add_admin(&mut self, username: String, email: String, password_plaintext: String) -> (r:
        Result<(), RingError>)
        ensures
            (outcome(r) == Err::<(), RingFault>(RingFault::TaskJoin) && final(self)@ == old(self)@)
                || (exists|password_phc: Seq<char>|
                verdict(password_plaintext@, password_phc) == Some(true) && final(self)@
                    == #[trigger] old(self)@.after_insert_admin(username@, email@, password_phc)
                    && outcome(r) == old(self)@.try_insert_admin(username@, email@)),
            final(self)@.wf(),
    {
        match self.add_admin_recorded(username, email, password_plaintext) {
            Ok(_) => Ok(()),
            Err(e) => Err(e),
        }
    }

    /// Closes the account `admin_id`.
    pub fn delete_admin(&mut self, admin_id: i64) -> (r: Result<(), RingError>)
        ensures
            outcome(r) == old(self)@.try_delete_admin(admin_id as int),
            final(self)@ == old(self)@.after_delete_admin(admin_id as int),
            final(self)@.wf(),
    {
        proof {
            use_type_invariant(&*self);
        }
        match self.find_admin(admin_id) {
            None => Err(
                RingError::RowNotFound(
                    String::from_str("Admin with admin id ").concat(
                        decimal_text(admin_id).as_str(),
                    ),
                ),
            ),
            Some(at) => {
                let mut admins = self.take_admins();
                let _ = admins.remove(at);
                proof {
                    let after = old(self)@.after_delete_admin(admin_id as int);
                    assert(admin_rows(admins@) =~= after.admins);
                    assert(after.wf());
                }
                self.admins = admins;
                Ok(())
            },
        }
    }

    fn is_pending_at(&self, at: usize) -> (pending: bool)
        requires
            at < self.sites@.len(),
        ensures
            pending == (self@.sites[at as int].status is Pending),
    {
        match &self.sites[at].status {
            Status::Pending => true,
            _ => false,
        }
    }
}

} // verus!
