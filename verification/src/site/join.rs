//! Joining the ring.
//!
//! A site that wants to join publishes a token under its own address, at
//! `/webringer/auth`. The join form carries the token; the site is registered
//! when what the address serves, without the white space around it, is the
//! token of the form.

use vstd::prelude::*;
use vstd::string::StringExecFns;

use sha2::Digest;

use super::{just, send_back, sent_back, silent, Answer, AnswerModel, Level, Reply, ReplyModel};
use crate::ring::model::{RingFault, RingModel};
use crate::ring::change::{change_view, if_done, Change, ChangeModel};
use crate::ring::{outcome, RingError, RingState};
use crate::text::{digit, trim_text, trimmed};

verus! {

/// What the address of the join page carries.
#[derive(Debug)]
pub struct JoinParams {
    pub url: String,
    pub email: String,
}

/// What the join page shows.
pub struct JoinTemplate {
    pub url: String,
    pub email: String,
    pub url_hash: String,
}

/// The join form.
#[derive(Debug)]
pub struct JoinForm {
    pub url: String,
    pub email: String,
    pub url_hash: String,
}

/// What came of fetching the token from the site.
#[derive(Debug)]
pub enum Fetched {
    /// The site answered with status 404.
    NotFound,
    /// The site answered, and this is the body of its answer.
    Body(String),
    /// The site answered, but the body could not be read as text.
    Unreadable,
    /// The request failed; the text says how.
    Failed(String),
}

/// What came of the fetch, as the contracts see it.
pub enum FetchedModel {
    NotFound,
    Body(Seq<char>),
    Unreadable,
    Failed(Seq<char>),
}

impl View for Fetched {
    type V = FetchedModel;

    open spec fn view(&self) -> FetchedModel {
        match self {
            Fetched::NotFound => FetchedModel::NotFound,
            Fetched::Body(text) => FetchedModel::Body(text@),
            Fetched::Unreadable => FetchedModel::Unreadable,
            Fetched::Failed(how) => FetchedModel::Failed(how@),
        }
    }
}

/// The SHA-256 digest of `data`.
pub uninterp spec fn sha256_of(data: Seq<u8>) -> Seq<u8>;

/// Calls `Digest::digest` of `sha2::Sha256`. The claim: the digest depends on
/// the data alone and has 32 bytes.
#[verifier::external_body]
fn sha256(data: &[u8]) -> (digest: Vec<u8>)
    ensures
        digest@ == sha256_of(data@),
        digest@.len() == 32,
{
    sha2::Sha256::digest(data).to_vec()
}

/// The character of a hexadecimal digit, in lower case.
pub open spec fn hex_digit(n: int) -> char {
    if n < 10 {
        digit(n)
    } else if n == 10 {
        'a'
    } else if n == 11 {
        'b'
    } else if n == 12 {
        'c'
    } else if n == 13 {
        'd'
    } else if n == 14 {
        'e'
    } else {
        'f'
    }
}

/// The bytes in hexadecimal: two digits for each byte, the high half first.
pub open spec fn hex_lower(data: Seq<u8>) -> Seq<char> {
    Seq::new(
        2 * data.len(),
        |i: int|
            if i % 2 == 0 {
                hex_digit(data[i / 2] as int / 16)
            } else {
                hex_digit(data[i / 2] as int % 16)
            },
    )
}

/// Calls `hex::encode`. The claim: each byte becomes two lower-case
/// hexadecimal digits, the high half first, in the order of the bytes.
#[verifier::external_body]
fn hex_encode(data: &[u8]) -> (text: String)
    ensures
        text@ == hex_lower(data@),
{
    hex::encode(data)
}

/// The token that the join page shows. It is the same for every site: the
/// digest of the empty message, in hexadecimal.
pub open spec fn ownership_token() -> Seq<char> {
    hex_lower(sha256_of(Seq::empty()))
}

/// The join page for the given site.
pub fn get(params: JoinParams) -> (page: JoinTemplate)
    ensures
        page.url@ == params.url@,
        page.email@ == params.email@,
        page.url_hash@ == ownership_token(),
        page.url_hash@.len() == 64,
{
    let nothing: Vec<u8> = Vec::new();
    let digest = sha256(nothing.as_slice());
    let url_hash = hex_encode(digest.as_slice());
    JoinTemplate { url: params.url, email: params.email, url_hash }
}

/// The address at which the site of the form publishes its token.
pub fn verification_url(data: &JoinForm) -> (address: String)
    ensures
        address@ == data.url@ + "/webringer/auth"@,
{
    data.url.clone().concat("/webringer/auth")
}

/// The address of the join page for a site.
pub open spec fn join_page(url: Seq<char>, email: Seq<char>) -> Seq<char> {
    "/join?url="@ + url + "&email="@ + email
}

/// The answer to a registration, given how it went.
pub open spec fn registered_answer(
    added: Result<(), RingFault>,
    url: Seq<char>,
    email: Seq<char>,
) -> AnswerModel {
    match added {
        Ok(()) => silent(
            ReplyModel::Html(
                "Your site has been registered, please wait for admin to approve it"@,
            ),
        ),
        Err(RingFault::UniqueRowAlreadyPresent(site)) => sent_back(
            Level::Error,
            "The site "@ + site + " has already been registered"@,
            join_page(url, email),
        ),
        Err(_) => silent(ReplyModel::InternalServerError),
    }
}

/// Whether the site proved itself: it served a body that, trimmed, is the
/// token of the form.
pub open spec fn proved(url_hash: Seq<char>, fetched: FetchedModel) -> bool {
    fetched matches FetchedModel::Body(text) && trimmed(text) == url_hash
}

/// The answer to a join form, given what the site served and what the
/// directory holds.
pub open spec fn join_answer(
    m: RingModel,
    url: Seq<char>,
    email: Seq<char>,
    url_hash: Seq<char>,
    fetched: FetchedModel,
) -> AnswerModel {
    match fetched {
        FetchedModel::NotFound => sent_back(
            Level::Error,
            "Got a 404 error when trying to get "@ + url + "/webringer/auth"@,
            join_page(url, email),
        ),
        FetchedModel::Unreadable => silent(ReplyModel::InternalServerError),
        FetchedModel::Failed(how) => sent_back(
            Level::Error,
            "There was an error when getting the verification string from your site: "@ + how,
            join_page(url, email),
        ),
        FetchedModel::Body(text) => if trimmed(text) == url_hash {
            registered_answer(m.try_add_site(url), url, email)
        } else {
            sent_back(
                Level::Error,
                "Url hash found but did not match:\n"@ + trimmed(text) + "\n"@ + url_hash,
                join_page(url, email),
            )
        },
    }
}

fn join_page_of(data: &JoinForm) -> (address: String)
    ensures
        address@ == join_page(data.url@, data.email@),
{
    String::from_str("/join?url=").concat(data.url.as_str()).concat("&email=").concat(
        data.email.as_str(),
    )
}

/// The answer to a registration, given how it went.
pub fn registration_answer(added: Result<(), RingError>, data: &JoinForm) -> (answer: Answer)
    ensures
        answer@ == registered_answer(outcome(added), data.url@, data.email@),
{
    match added {
        Ok(()) => just(
            Reply::Html(
                String::from_str(
                    "Your site has been registered, please wait for admin to approve it",
                ),
            ),
        ),
        Err(RingError::UniqueRowAlreadyPresent(site)) => send_back(
            Level::Error,
            String::from_str("The site ").concat(site.as_str()).concat(
                " has already been registered",
            ),
            join_page_of(data),
        ),
        Err(_) => just(Reply::InternalServerError),
    }
}

/// Answers a join form, given what the site served at its verification
/// address. The site is registered, as pending, only if it proved itself.
/// With the answer comes the change that was made, if one was.
pub fn post(state: &mut RingState, data: &JoinForm, fetched: Fetched) -> (done: (
    Answer,
    Option<Change>,
))
    ensures
        final(state)@.wf(),
        done.0@ == join_answer(old(state)@, data.url@, data.email@, data.url_hash@, fetched@),
        change_view(done.1) == (if proved(data.url_hash@, fetched@) {
            if_done(
                old(state)@.try_add_site(data.url@),
                ChangeModel::AddSite { root_url: data.url@, email: data.email@ },
            )
        } else {
            None
        }),
        final(state)@ == old(state)@.after_maybe(change_view(done.1)),
{
    state.attest();
    let response = match fetched {
        Fetched::NotFound => {
            return (
                send_back(
                    Level::Error,
                    String::from_str("Got a 404 error when trying to get ").concat(
                        data.url.as_str(),
                    ).concat("/webringer/auth"),
                    join_page_of(data),
                ),
                None,
            );
        },
        Fetched::Unreadable => {
            return (just(Reply::InternalServerError), None);
        },
        Fetched::Failed(how) => {
            return (
                send_back(
                    Level::Error,
                    String::from_str(
                        "There was an error when getting the verification string from your site: ",
                    ).concat(how.as_str()),
                    join_page_of(data),
                ),
                None,
            );
        },
        Fetched::Body(text) => trim_text(text.as_str()),
    };
    if response != data.url_hash {
        return (
            send_back(
                Level::Error,
                String::from_str("Url hash found but did not match:\n").concat(
                    response.as_str(),
                ).concat("\n").concat(data.url_hash.as_str()),
                join_page_of(data),
            ),
            None,
        );
    }
    let added = state.add_site(data.url.as_str(), data.email.as_str());
    let change = match &added {
        Ok(()) => Some(Change::AddSite { root_url: data.url.clone(), email: data.email.clone() }),
        Err(_) => None,
    };
    (registration_answer(added, data), change)
}

} // verus!
