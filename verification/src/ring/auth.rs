//! Admin accounts and their passwords.
//!
//! Passwords are stored as PHC strings made by Argon2. The hashing and the
//! verification are the `argon2` crate's; what this module proves is what the
//! store does with their results.

use vstd::prelude::*;
use vstd::string::StringExecFns;

use argon2::password_hash::rand_core::RngCore;
use argon2::password_hash::{PasswordHasher, PasswordVerifier};

use super::lemmas::{lemma_find_admin, lemma_find_admin_named};
use super::model::{AdminModel, RingFault};
use super::change::{change_outcome, recorded, Change, ChangeModel};
use super::{admin_rows, outcome, url_outcome, RingError, RingState};
use crate::text::{decimal, decimal_text};

verus! {

/// The error type of the `password-hash` crate. The store passes it through
/// and never looks inside.
#[verifier::external_type_specification]
#[verifier::external_body]
pub struct ExPasswordHashError(argon2::password_hash::Error);

/// The error type of the `rand_core` crate, for a random source that gave
/// nothing.
#[verifier::external_type_specification]
#[verifier::external_body]
pub struct ExRandomError(argon2::password_hash::rand_core::Error);

/// What comes of verifying `password` against the PHC string `password_phc`
/// with Argon2: `Some(true)` where it matches, `Some(false)` where it does
/// not, `None` where the string cannot be parsed or its parameters cannot be
/// used.
pub uninterp spec fn phc_check(password: Seq<char>, password_phc: Seq<char>) -> Option<bool>;

/// The parameters that the PHC string `password_phc` carries, in their
/// order: the name of each, and its value where that is a decimal number.
/// `None` where the string is no PHC string.
pub uninterp spec fn phc_params(password_phc: Seq<char>) -> Option<
    Seq<(Seq<char>, Option<u32>)>,
>;

/// The PHC string that Argon2 makes of `password` under `salt`, or `None`
/// where it makes none.
pub uninterp spec fn argon2_phc(password: Seq<char>, salt: Seq<u8>) -> Option<Seq<char>>;

/// The greatest number of lanes that Argon2 works with.
pub const MAX_LANES: u32 = 0xFF_FFFF;

/// The least number of salt bytes that a hash is made with.
pub const MIN_SALT_LENGTH: usize = 8;

/// The greatest number of salt bytes that a hash is made with: more do not
/// fit the salt of a PHC string.
pub const MAX_SALT_LENGTH: usize = 48;

/// The models of a list of parameters.
pub open spec fn params_view(params: Seq<(String, Option<u32>)>) -> Seq<(Seq<char>, Option<u32>)> {
    params.map_values(|pair: (String, Option<u32>)| (pair.0@, pair.1))
}

/// The parameter is a number of lanes above what Argon2 works with.
pub open spec fn too_many_lanes(pair: (Seq<char>, Option<u32>)) -> bool {
    pair.0 == "p"@ && pair.1 is Some && pair.1->Some_0 > MAX_LANES
}

/// No parameter asks for more lanes than Argon2 works with. A string may
/// name the lanes more than once, and the verifier goes by the last; so
/// every one of them is held to the limit.
pub open spec fn lanes_fit(params: Seq<(Seq<char>, Option<u32>)>) -> bool {
    forall|i: int| 0 <= i < params.len() ==> !too_many_lanes(#[trigger] params[i])
}

/// The stored string can be handed to the verifier: it is no PHC string,
/// which the verifier says itself, or its lanes fit.
pub open spec fn verifiable(password_phc: Seq<char>) -> bool {
    phc_params(password_phc) matches Some(params) ==> lanes_fit(params)
}

/// What verifying `password` against a stored string comes to: what Argon2
/// says of it, and "cannot be used" for a string that is not handed to it.
pub open spec fn verdict(password: Seq<char>, password_phc: Seq<char>) -> Option<bool> {
    if verifiable(password_phc) {
        phc_check(password, password_phc)
    } else {
        None
    }
}

/// Calls `PasswordHash::new` on `password_phc` and hands out what
/// `ParamsString::iter` yields: of each parameter the name, and the value
/// that `Value::decimal` reads from it. The claim: the list depends on the
/// string alone.
#[verifier::external_body]
pub(crate) fn stored_params(password_phc: &str) -> (params: Option<Vec<(String, Option<u32>)>>)
    ensures
        match params {
            Some(list) => phc_params(password_phc@) == Some(params_view(list@)),
            None => phc_params(password_phc@) is None,
        },
{
    let hash = argon2::PasswordHash::new(password_phc).ok()?;
    Some(
        hash.params.iter().map(
            |(name, value)| (name.as_str().to_owned(), value.decimal().ok()),
        ).collect(),
    )
}

/// Calls `PasswordVerifier::verify_password` of `argon2::Argon2`, with the
/// default instance, on the hash that `PasswordHash::new` parses from
/// `password_phc`. The claim: the answer depends on the two strings alone.
/// The error `Password` of the crate is its "does not match"; every other
/// error, of the parsing or of the verification, is handed on.
///
/// Left out are the strings that name more lanes than Argon2 works with:
/// the crate multiplies the lanes by eight before it tests them. The crate
/// allocates the memory and runs the passes that the stored parameters
/// name.
#[verifier::external_body]
pub(crate) fn verify_phc(password: &str, password_phc: &str) -> (r: Result<
    bool,
    argon2::password_hash::Error,
>)
    requires
        verifiable(password_phc@),
    ensures
        r matches Ok(same) ==> phc_check(password@, password_phc@) == Some(same),
        r is Err ==> phc_check(password@, password_phc@) is None,
{
    let parsed = argon2::PasswordHash::new(password_phc)?;
    match argon2::Argon2::default().verify_password(password.as_bytes(), &parsed) {
        Ok(()) => Ok(true),
        Err(argon2::password_hash::Error::Password) => Ok(false),
        Err(e) => Err(e),
    }
}

/// Converts `argon2::Error::ThreadsTooMany`, the crate's complaint about
/// too many lanes, into the error type of the `password-hash` crate by the
/// crate's own `From` impl. Nothing is claimed of the value.
#[verifier::external_body]
pub(crate) fn lanes_error() -> (e: argon2::password_hash::Error) {
    argon2::Error::ThreadsTooMany.into()
}

/// Calls `PasswordHasher::hash_password` of `argon2::Argon2`, with the
/// default instance and the salt that `SaltString::encode_b64` makes of
/// `salt`, and renders the hash as a PHC string. The claims: the string
/// depends on the password and the salt alone; it carries the default
/// parameters, one lane among them; and, as the crate's documentation shows
/// by example, the password verifies against it.
///
/// Left out are the salts of fewer than eight bytes, of which the shortest
/// make the crate panic, and those of more than 48, which do not fit a PHC
/// string.
#[verifier::external_body]
pub(crate) fn hash_with_salt(password: &str, salt: &[u8]) -> (r: Result<
    String,
    argon2::password_hash::Error,
>)
    requires
        MIN_SALT_LENGTH <= salt@.len() <= MAX_SALT_LENGTH,
    ensures
        r matches Ok(password_phc) ==> argon2_phc(password@, salt@) == Some(password_phc@),
        r matches Ok(password_phc) ==> verdict(password@, password_phc@) == Some(true),
        r is Err ==> argon2_phc(password@, salt@) is None,
{
    let salt = argon2::password_hash::SaltString::encode_b64(salt)?;
    let hash = argon2::Argon2::default().hash_password(password.as_bytes(), &salt)?;
    Ok(hash.to_string())
}

/// Calls `RngCore::try_fill_bytes` of `rand_core::OsRng` on a fresh buffer of
/// `count` bytes. The claim: on success the buffer comes back whole. Nothing
/// is said of the bytes.
#[verifier::external_body]
pub(crate) fn random_bytes(count: usize) -> (r: Result<
    Vec<u8>,
    argon2::password_hash::rand_core::Error,
>)
    ensures
        r matches Ok(bytes) ==> bytes@.len() == count,
{
    let mut bytes = vec![0u8; count];
    argon2::password_hash::rand_core::OsRng.try_fill_bytes(&mut bytes)?;
    Ok(bytes)
}

/// Renders an error of the `password-hash` crate through its `Display`
/// impl. Nothing is claimed of the words.
#[verifier::external_body]
pub(crate) fn verifier_words(e: &argon2::password_hash::Error) -> (words: String) {
    e.to_string()
}

/// An operator account.
#[derive(Clone)]
pub struct Admin {
    pub(crate) id: i64,
    pub username: String,
    pub email: String,
    pub(crate) password_phc: String,
}

impl Admin {
    /// The identity of the account.
    pub fn id(&self) -> (id: i64)
        ensures
            id == self@.id,
    {
        self.id
    }

    /// The bytes that a session is bound to: those of the stored hash, so
    /// that a change of password ends the sessions opened before it.
    pub fn session_auth_hash(&self) -> (bytes: &[u8])
        ensures
            bytes@ == vstd::utf8::encode_utf8(self@.password_phc),
    {
        self.password_phc.as_str().as_bytes()
    }

    /// The username of the account.
    pub fn username(&self) -> (username: &str)
        ensures
            username@ == self@.username,
    {
        self.username.as_str()
    }

    /// The email of the account.
    pub fn email(&self) -> (email: &str)
        ensures
            email@ == self@.email,
    {
        self.email.as_str()
    }

    /// The account in words, for a log. Neither the email nor the stored
    /// hash enters the text.
    pub fn redacted(&self) -> (text: String)
        ensures
            text@ == admin_text(self@.id, self@.username),
    {
        String::from_str("Admin { id: ").concat(decimal_text(self.id).as_str()).concat(
            ", username: \"",
        ).concat(self.username.as_str()).concat(
            "\", email: \"redacted\", password: \"redacted\" }",
        )
    }

    /// A copy of the account.
    pub fn duplicate(&self) -> (copy: Admin)
        ensures
            copy@ == self@,
    {
        Admin {
            id: self.id,
            username: self.username.clone(),
            email: self.email.clone(),
            password_phc: self.password_phc.clone(),
        }
    }
}

/// What a login form carries.
#[derive(Clone)]
pub struct Credentials {
    pub username: String,
    pub password: String,
    pub next: Option<String>,
}

/// An account in words: its identity and its username, nothing else of it.
pub open spec fn admin_text(id: int, username: Seq<char>) -> Seq<char> {
    "Admin { id: "@ + decimal(id) + ", username: \""@ + username
        + "\", email: \"redacted\", password: \"redacted\" }"@
}

/// An address that may be missing, in words.
pub open spec fn next_text(next: Option<Seq<char>>) -> Seq<char> {
    match next {
        Some(next) => "Some(\""@ + next + "\")"@,
        None => "None"@,
    }
}

/// Credentials in words: the username and the address to go to, nothing of
/// the password.
pub open spec fn credentials_text(username: Seq<char>, next: Option<Seq<char>>) -> Seq<char> {
    "Credentials { username: \""@ + username + "\", password: \"redacted\", next url: "@
        + next_text(next) + " }"@
}

impl Credentials {
    /// The credentials in words, for a log. The password does not enter the
    /// text.
    pub fn redacted(&self) -> (text: String)
        ensures
            text@ == credentials_text(
                self.username@,
                match self.next {
                    Some(next) => Some(next@),
                    None => None,
                },
            ),
    {
        let next = match &self.next {
            Some(next) => String::from_str("Some(\"").concat(next.as_str()).concat("\")"),
            None => String::from_str("None"),
        };
        String::from_str("Credentials { username: \"").concat(self.username.as_str()).concat(
            "\", password: \"redacted\", next url: ",
        ).concat(next.as_str()).concat(" }")
    }
}

/// The number of random bytes in a salt.
pub const SALT_LENGTH: usize = 16;

/// What hashing `password` under `salt` comes to: the string that Argon2
/// makes, and a failed hashing job where it makes none or where the salt
/// is shorter or longer than a hash is made with.
pub open spec fn salted(password: Seq<char>, salt: Seq<u8>) -> Result<Seq<char>, RingFault> {
    if MIN_SALT_LENGTH <= salt.len() <= MAX_SALT_LENGTH {
        match argon2_phc(password, salt) {
            Some(password_phc) => Ok(password_phc),
            None => Err(RingFault::TaskJoin),
        }
    } else {
        Err(RingFault::TaskJoin)
    }
}

/// What hashing `password` comes to, given what the random source gave:
/// the salt, or nothing.
pub open spec fn hashed(password: Seq<char>, drawn: Option<Seq<u8>>) -> Result<
    Seq<char>,
    RingFault,
> {
    match drawn {
        Some(salt) => salted(password, salt),
        None => Err(RingFault::TaskJoin),
    }
}

/// Hashes a password with Argon2 under the given salt.
///
/// A salt of fewer than 8 or more than 48 bytes is not used: no hash comes
/// of it. The password verifies against the hash that comes back.
pub fn hash_password_with_salt(password_plaintext: &str, salt: &[u8]) -> (r: Result<
    String,
    RingError,
>)
    ensures
        url_outcome(r) == salted(password_plaintext@, salt@),
        r matches Ok(password_phc) ==> verdict(password_plaintext@, password_phc@) == Some(true),
{
    if salt.len() < MIN_SALT_LENGTH || salt.len() > MAX_SALT_LENGTH {
        return Err(RingError::TaskJoin);
    }
    match hash_with_salt(password_plaintext, salt) {
        Ok(password_phc) => Ok(password_phc),
        Err(_) => Err(RingError::TaskJoin),
    }
}

/// Hashes a password with Argon2 under a fresh random salt of
/// [`SALT_LENGTH`] bytes.
///
/// Every failure, of the random source or of the hashing, is reported as
/// [`RingError::TaskJoin`]: the hashing job did not come back with a hash.
/// Once the salt is drawn, the answer is that of
/// [`hash_password_with_salt`].
pub fn hash_password(password_plaintext: &str) -> (r: Result<String, RingError>)
    ensures
        exists|drawn: Option<Seq<u8>>|
            (drawn matches Some(salt) ==> salt.len() == SALT_LENGTH) && url_outcome(r)
                == #[trigger] hashed(password_plaintext@, drawn),
        r matches Ok(password_phc) ==> verdict(password_plaintext@, password_phc@) == Some(true),
        r matches Err(e) ==> e@ == RingFault::TaskJoin,
{
    match random_bytes(SALT_LENGTH) {
        Ok(salt) => {
            let r = hash_password_with_salt(password_plaintext, salt.as_slice());
            assert(url_outcome(r) == hashed(password_plaintext@, Some(salt@)));
            r
        },
        Err(_) => {
            let r = Err(RingError::TaskJoin);
            assert(url_outcome(r) == hashed(password_plaintext@, None));
            r
        },
    }
}

/// The view of a hash that may be missing.
pub open spec fn hash_view(hashed: Option<String>) -> Option<Seq<char>> {
    match hashed {
        Some(hashed) => Some(hashed@),
        None => None,
    }
}

/// The model of an answer that carries an account or none.
pub open spec fn admin_outcome(r: Result<Option<Admin>, RingError>) -> Result<
    Option<AdminModel>,
    RingFault,
> {
    match r {
        Ok(Some(admin)) => Ok(Some(admin@)),
        Ok(None) => Ok(None),
        Err(e) => Err(e@),
    }
}

/// What a login comes to once the password has been verified against the
/// hash of `admin`: the account where it matched, nothing where it did not,
/// and the verifier's error where the hash could not be used.
pub fn conclude(admin: Admin, verdict: Result<bool, argon2::password_hash::Error>) -> (r: Result<
    Option<Admin>,
    RingError,
>)
    ensures
        match verdict {
            Ok(true) => r == Ok::<Option<Admin>, RingError>(Some(admin)),
            Ok(false) => r == Ok::<Option<Admin>, RingError>(None),
            Err(e) => r == Err::<Option<Admin>, RingError>(RingError::PasswordVerification(e)),
        },
{
    match verdict {
        Ok(true) => Ok(Some(admin)),
        Ok(false) => Ok(None),
        Err(e) => Err(RingError::PasswordVerification(e)),
    }
}

/// Whether every parameter of the list keeps to the limit of lanes.
fn lanes_in_range(params: &Vec<(String, Option<u32>)>) -> (fit: bool)
    ensures
        fit == lanes_fit(params_view(params@)),
{
    let lanes = String::from_str("p");
    let mut i: usize = 0;
    while i < params.len()
        invariant
            i <= params.len(),
            lanes@ == "p"@,
            forall|k: int| 0 <= k < i ==> !too_many_lanes(#[trigger] params_view(params@)[k]),
        decreases params.len() - i,
    {
        let over = match params[i].1 {
            Some(count) => count > MAX_LANES,
            None => false,
        };
        if over && params[i].0 == lanes {
            assert(too_many_lanes(params_view(params@)[i as int]));
            return false;
        }
        i += 1;
    }
    true
}

/// Whether the stored string can be handed to the verifier.
pub fn can_verify(password_phc: &str) -> (can: bool)
    ensures
        can == verifiable(password_phc@),
{
    match stored_params(password_phc) {
        Some(params) => lanes_in_range(&params),
        None => true,
    }
}

impl RingState {
    fn find_admin_named(&self, username: &String) -> (found: Option<usize>)
        ensures
            match found {
                Some(i) => self@.has_admin_named(username@) && i < self@.admins.len()
                    && self@.admin_named(username@) == self@.admins[i as int],
                None => !self@.has_admin_named(username@),
            },
    {
        proof {
            use_type_invariant(self);
        }
        let mut i: usize = 0;
        while i < self.admins.len()
            invariant
                self@.wf(),
                i <= self.admins.len(),
                forall|k: int| 0 <= k < i ==> (#[trigger] self@.admins[k]).username != username@,
            decreases self.admins.len() - i,
        {
            if self.admins[i].username == *username {
                proof {
                    lemma_find_admin_named(self@, i as int);
                }
                return Some(i);
            }
            i += 1;
        }
        None
    }

    /// Checks a username and a password.
    ///
    /// An unknown username and a wrong password give the same answer: no
    /// account.
    pub fn authenticate(&self, creds: Credentials) -> (r: Result<Option<Admin>, RingError>)
        ensures
            admin_outcome(r) == self@.authenticate(creds.username@, creds.password@),
    {
        match self.find_admin_named(&creds.username) {
            None => Ok(None),
            Some(at) => {
                let admin = self.admins[at].duplicate();
                if !can_verify(admin.password_phc.as_str()) {
                    return Err(RingError::PasswordVerification(lanes_error()));
                }
                let answer = verify_phc(creds.password.as_str(), admin.password_phc.as_str());
                conclude(admin, answer)
            },
        }
    }

    /// The account with the given identity, if there is one.
    pub fn get_user(&self, user_id: &i64) -> (r: Result<Option<Admin>, RingError>)
        ensures
            admin_outcome(r) == Ok::<Option<AdminModel>, RingFault>(self@.get_user(*user_id as int)),
    {
        match self.find_admin(*user_id) {
            None => Ok(None),
            Some(at) => {
                proof {
                    use_type_invariant(self);
                    lemma_find_admin(self@, at as int);
                }
                Ok(Some(self.admins[at].duplicate()))
            },
        }
    }

    /// Replaces the stored hash of the account `admin_id`.
    ///
    /// This is the write that ends [`RingState::change_password`]; it checks
    /// no password itself.
    pub fn store_password(&mut self, admin_id: i64, password_phc: String) -> (r: Result<
        (),
        RingError,
    >)
        ensures
            outcome(r) == old(self)@.try_store_password(admin_id as int),
            final(self)@ == old(self)@.after_store_password(admin_id as int, password_phc@),
            final(self)@.wf(),
    {
        proof {
            use_type_invariant(&*self);
        }
        match self.find_admin(admin_id) {
            None => Err(
                RingError::RowNotFound(
                    String::from_str("Admin with admin id ").concat(
                        crate::text::decimal_text(admin_id).as_str(),
                    ),
                ),
            ),
            Some(at) => {
                proof {
                    lemma_find_admin(self@, at as int);
                }
                let mut admins = self.take_admins();
                let admin = admins.remove(at);
                admins.insert(
                    at,
                    Admin { id: admin.id, username: admin.username, email: admin.email, password_phc },
                );
                proof {
                    let after = old(self)@.with_password(admin_id as int, password_phc@);
                    assert(admin_rows(admins@) =~= after.admins);
                    assert(after.wf());
                }
                self.admins = admins;
                Ok(())
            },
        }
    }

    /// Verifies the current password of the logged-in admin.
    fn reauthenticate(&self, logged_in_user: &Admin, current_password_plaintext: String) -> (r:
        Result<Admin, RingError>)
        ensures
            match self@.authenticate(logged_in_user@.username, current_password_plaintext@) {
                Ok(Some(account)) => r matches Ok(admin) && admin@ == account,
                Ok(None) => r matches Err(e) && e@ == RingFault::UnauthorisedAdmin,
                Err(fault) => r matches Err(e) && e@ == fault,
            },
    {
        let creds = Credentials {
            username: logged_in_user.username.clone(),
            password: current_password_plaintext,
            next: None,
        };
        match self.authenticate(creds) {
            Err(e) => Err(e),
            Ok(None) => Err(RingError::UnauthorisedAdmin),
            Ok(Some(admin)) => Ok(admin),
        }
    }

    /// Stores the new hash of an admin whose current password has verified.
    fn install(
        &mut self,
        admin: Admin,
        hashed: Option<String>,
        Ghost(username): Ghost<Seq<char>>,
        Ghost(current): Ghost<Seq<char>>,
    ) -> (r: Result<Change, RingError>)
        requires
            old(self)@.authenticate(username, current) == Ok::<Option<AdminModel>, RingFault>(
                Some(admin@),
            ),
        ensures
            change_outcome(r) == recorded(
                old(self)@.try_change_password(username, current, hash_view(hashed)),
                ChangeModel::StorePassword {
                    admin_id: old(self)@.admin_named(username).id,
                    password_phc: hash_view(hashed)->Some_0,
                },
            ),
            final(self)@ == old(self)@.after_change_password(username, current, hash_view(hashed)),
            r matches Ok(change) ==> final(self)@ == old(self)@.after_change(change@)
                && old(self)@.try_change(change@) is Ok,
            final(self)@.wf(),
    {
        proof {
            use_type_invariant(&*self);
        }
        let ghost before = self@;
        let password_phc = match hashed {
            Some(password_phc) => password_phc,
            None => {
                return Err(RingError::TaskJoin);
            },
        };
        proof {
            assert(before.has_admin_named(username));
            assert(admin@ == before.admin_named(username));
            let at = choose|i: int|
                0 <= i < before.admins.len() && #[trigger] before.admins[i].username == username;
            lemma_find_admin(before, at);
        }
        match self.store_password(admin.id, password_phc.clone()) {
            Ok(()) => Ok(Change::StorePassword { admin_id: admin.id, password_phc }),
            Err(e) => Err(e),
        }
    }

    /// Changes the password of the logged-in admin, given the hash of the new
    /// password, or `None` where it could not be hashed, and hands back the
    /// change that was made.
    ///
    /// The current password is verified first, whatever the hash.
    pub fn change_password_hashed(
        &mut self,
        logged_in_user: &Admin,
        current_password_plaintext: String,
        hashed: Option<String>,
    ) -> (r: Result<Change, RingError>)
        ensures
            change_outcome(r) == recorded(
                old(self)@.try_change_password(
                    logged_in_user@.username,
                    current_password_plaintext@,
                    hash_view(hashed),
                ),
                ChangeModel::StorePassword {
                    admin_id: old(self)@.admin_named(logged_in_user@.username).id,
                    password_phc: hash_view(hashed)->Some_0,
                },
            ),
            final(self)@ == old(self)@.after_change_password(
                logged_in_user@.username,
                current_password_plaintext@,
                hash_view(hashed),
            ),
            r matches Ok(change) ==> final(self)@ == old(self)@.after_change(change@)
                && old(self)@.try_change(change@) is Ok,
            final(self)@.wf(),
    {
        proof {
            use_type_invariant(&*self);
        }
        let ghost current = current_password_plaintext@;
        match self.reauthenticate(logged_in_user, current_password_plaintext) {
            Err(e) => Err(e),
            Ok(admin) => self.install(admin, hashed, Ghost(logged_in_user@.username), Ghost(current)),
        }
    }

    /// Changes the password as [`RingState::change_password`] does, and hands
    /// back the change that was made, hash included, for the caller to write
    /// down.
    pub fn change_password_recorded(
        &mut self,
        logged_in_user: &Admin,
        current_password_plaintext: String,
        new_password_plaintext: String,
    ) -> (r: Result<Change, RingError>)
        ensures
            exists|new_phc: Option<Seq<char>>|
                {
                    &&& new_phc matches Some(password_phc) ==> verdict(
                        new_password_plaintext@,
                        password_phc,
                    ) == Some(true)
                    &&& change_outcome(r) == recorded(
                        #[trigger] old(self)@.try_change_password(
                            logged_in_user@.username,
                            current_password_plaintext@,
                            new_phc,
                        ),
                        ChangeModel::StorePassword {
                            admin_id: old(self)@.admin_named(logged_in_user@.username).id,
                            password_phc: new_phc->Some_0,
                        },
                    )
                    &&& final(self)@ == old(self)@.after_change_password(
                        logged_in_user@.username,
                        current_password_plaintext@,
                        new_phc,
                    )
                },
            r matches Ok(change) ==> final(self)@ == old(self)@.after_change(change@)
                && old(self)@.try_change(change@) is Ok,
            !(old(self)@.authenticate(logged_in_user@.username, current_password_plaintext@)
                matches Ok(Some(_))) ==> final(self)@ == old(self)@,
            final(self)@.wf(),
    {
        proof {
            use_type_invariant(&*self);
        }
        let ghost before = self@;
        let ghost username = logged_in_user@.username;
        let ghost current = current_password_plaintext@;
        let admin = match self.reauthenticate(logged_in_user, current_password_plaintext) {
            Err(e) => {
                assert(change_outcome(Err(e)) == recorded(
                    before.try_change_password(username, current, None),
                    ChangeModel::StorePassword {
                        admin_id: before.admin_named(username).id,
                        password_phc: None::<Seq<char>>->Some_0,
                    },
                ));
                return Err(e);
            },
            Ok(admin) => admin,
        };
        let hashed = match hash_password(new_password_plaintext.as_str()) {
            Ok(password_phc) => Some(password_phc),
            Err(_) => None,
        };
        let ghost new_phc = hash_view(hashed);
        let r = self.install(admin, hashed, Ghost(username), Ghost(current));
        assert(change_outcome(r) == recorded(
            before.try_change_password(username, current, new_phc),
            ChangeModel::StorePassword {
                admin_id: before.admin_named(username).id,
                password_phc: new_phc->Some_0,
            },
        ));
        r
    }

    /// Changes the password of the logged-in admin.
    ///
    /// A session is not enough: the current password is verified first, and
    /// where it does not verify nothing is changed. The new password is
    /// hashed under a random salt, so the contract names no hash; it says
    /// that the new password verifies against the one that is stored.
    pub fn change_password(
        &mut self,
        logged_in_user: &Admin,
        current_password_plaintext: String,
        new_password_plaintext: String,
    ) -> (r: Result<(), RingError>)
        ensures
            exists|new_phc: Option<Seq<char>>|
                {
                    &&& new_phc matches Some(password_phc) ==> verdict(
                        new_password_plaintext@,
                        password_phc,
                    ) == Some(true)
                    &&& outcome(r) == #[trigger] old(self)@.try_change_password(
                        logged_in_user@.username,
                        current_password_plaintext@,
                        new_phc,
                    )
                    &&& final(self)@ == old(self)@.after_change_password(
                        logged_in_user@.username,
                        current_password_plaintext@,
                        new_phc,
                    )
                },
            !(old(self)@.authenticate(logged_in_user@.username, current_password_plaintext@)
                matches Ok(Some(_))) ==> final(self)@ == old(self)@,
            final(self)@.wf(),
    {
        match self.change_password_recorded(
            logged_in_user,
            current_password_plaintext,
            new_password_plaintext,
        ) {
            Ok(_) => Ok(()),
            Err(e) => Err(e),
        }
    }
}

} // verus!
