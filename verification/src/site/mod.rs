//! What the pages of the site answer.
//!
//! Each function here takes what a request carried and what the outside
//! world gave (the body of a download, the admin of the session) and decides
//! the reply, the message to show on the next page, and what becomes of the
//! directory. Sending the reply is the caller's business.

use vstd::prelude::*;

pub mod admin;
pub mod join;
pub mod leave;
pub mod login;
pub mod ring;

verus! {

/// How a message is shown.
#[derive(Clone, Copy, Debug, PartialEq, Eq, Structural)]
pub enum Level {
    Info,
    Error,
}

/// A message for the next page that the visitor sees.
#[derive(Debug, PartialEq, Eq)]
pub struct Flash {
    pub level: Level,
    pub text: String,
}

/// A message, as the contracts see it.
pub struct FlashModel {
    pub level: Level,
    pub text: Seq<char>,
}

impl View for Flash {
    type V = FlashModel;

    open spec fn view(&self) -> FlashModel {
        FlashModel { level: self.level, text: self.text@ }
    }
}

/// A reply to a request.
#[derive(Debug, PartialEq, Eq)]
pub enum Reply {
    /// A page of HTML.
    Html(String),
    /// Plain text.
    Text(String),
    /// "See other": the visitor is sent to this address.
    Redirect(String),
    /// Status 401.
    Unauthorized,
    /// Status 500.
    InternalServerError,
}

/// A reply, as the contracts see it.
pub enum ReplyModel {
    Html(Seq<char>),
    Text(Seq<char>),
    Redirect(Seq<char>),
    Unauthorized,
    InternalServerError,
}

impl View for Reply {
    type V = ReplyModel;

    open spec fn view(&self) -> ReplyModel {
        match self {
            Reply::Html(page) => ReplyModel::Html(page@),
            Reply::Text(text) => ReplyModel::Text(text@),
            Reply::Redirect(to) => ReplyModel::Redirect(to@),
            Reply::Unauthorized => ReplyModel::Unauthorized,
            Reply::InternalServerError => ReplyModel::InternalServerError,
        }
    }
}

/// A reply, and the message that goes with it if there is one.
#[derive(Debug, PartialEq, Eq)]
pub struct Answer {
    pub reply: Reply,
    pub flash: Option<Flash>,
}

/// An answer, as the contracts see it.
pub struct AnswerModel {
    pub reply: ReplyModel,
    pub flash: Option<FlashModel>,
}

impl View for Answer {
    type V = AnswerModel;

    open spec fn view(&self) -> AnswerModel {
        AnswerModel {
            reply: self.reply@,
            flash: match self.flash {
                Some(flash) => Some(flash@),
                None => None,
            },
        }
    }
}

/// A reply without a message.
pub open spec fn silent(reply: ReplyModel) -> AnswerModel {
    AnswerModel { reply, flash: None }
}

/// A redirect with a message.
pub open spec fn sent_back(level: Level, text: Seq<char>, to: Seq<char>) -> AnswerModel {
    AnswerModel { reply: ReplyModel::Redirect(to), flash: Some(FlashModel { level, text }) }
}

pub(crate) fn just(reply: Reply) -> (answer: Answer)
    ensures
        answer@ == silent(reply@),
{
    Answer { reply, flash: None }
}

pub(crate) fn send_back(level: Level, text: String, to: String) -> (answer: Answer)
    ensures
        answer@ == sent_back(level, text@, to@),
{
    Answer { reply: Reply::Redirect(to), flash: Some(Flash { level, text }) }
}

/// The views of a list of strings.
pub open spec fn texts(list: Seq<String>) -> Seq<Seq<char>> {
    list.map_values(|text: String| text@)
}

/// What the front page shows: nothing that varies.
pub struct IndexTemplate {}

/// The front page.
pub fn index() -> IndexTemplate {
    IndexTemplate {  }
}

} // verus!
