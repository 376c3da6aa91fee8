//! What is shown to the person after a request: a line of success that stays
//! until an input changes, and an error that stays until it is dismissed.

use vstd::prelude::*;
use crate::outcome::{error_text, Outcome, OutcomeModel};

verus! {

/// The tone of the status line.
#[derive(Clone, Copy, PartialEq, Eq, Structural, Debug)]
pub enum Tone {
    Neutral,
    Success,
}

/// What is shown, as a plain value.
pub struct NoticeModel {
    pub status: Seq<char>,
    pub tone: Tone,
    pub error: Option<Seq<char>>,
}

/// Nothing to show.
pub open spec fn blank() -> NoticeModel {
    NoticeModel { status: Seq::empty(), tone: Tone::Neutral, error: None }
}

/// What is shown once `outcome` was taken in: success goes to the status
/// line, an error is put up, and an offer of a merge changes nothing.
pub open spec fn noticed(shown: NoticeModel, outcome: OutcomeModel) -> NoticeModel {
    match outcome {
        OutcomeModel::Success(words) => NoticeModel {
            status: words,
            tone: Tone::Success,
            error: shown.error,
        },
        OutcomeModel::Error(error) => NoticeModel {
            status: shown.status,
            tone: shown.tone,
            error: Some(error_text(error)),
        },
        OutcomeModel::ConfirmationRequired => shown,
    }
}

/// The status line and the error that are on show.
pub struct Notices {
    status: String,
    tone: Tone,
    error: Option<String>,
}

impl View for Notices {
    type V = NoticeModel;

    closed spec fn view(&self) -> NoticeModel {
        NoticeModel {
            status: self.status@,
            tone: self.tone,
            error: match self.error {
                Some(text) => Some(text@),
                None => None,
            },
        }
    }
}

impl Notices {
    pub fn new() -> (notices: Notices)
        ensures
            notices@ == blank(),
    {
        Notices { status: String::new(), tone: Tone::Neutral, error: None }
    }

    /// The status line; empty where there is nothing to say.
    pub fn status(&self) -> (text: &str)
        ensures
            text@ == self@.status,
    {
        self.status.as_str()
    }

    pub fn tone(&self) -> (tone: Tone)
        ensures
            tone == self@.tone,
    {
        self.tone
    }

    /// The error that is up, if one is.
    pub fn error(&self) -> (text: Option<&str>)
        ensures
            match self@.error {
                Some(words) => text is Some && text->0@ == words,
                None => text is None,
            },
    {
        match &self.error {
            Some(text) => Some(text.as_str()),
            None => None,
        }
    }

    /// Puts an error up.
    pub fn set_error(&mut self, message: String)
        ensures
            final(self)@ == (NoticeModel {
                status: old(self)@.status,
                tone: old(self)@.tone,
                error: Some(message@),
            }),
    {
        self.error = Some(message);
    }

    /// Writes a success to the status line.
    pub fn set_success(&mut self, message: String)
        ensures
            final(self)@ == (NoticeModel {
                status: message@,
                tone: Tone::Success,
                error: old(self)@.error,
            }),
    {
        self.status = message;
        self.tone = Tone::Success;
    }

    /// Empties the status line, as after a change of an input.
    pub fn clear_status(&mut self)
        ensures
            final(self)@ == (NoticeModel {
                status: Seq::empty(),
                tone: Tone::Neutral,
                error: old(self)@.error,
            }),
    {
        self.status = String::new();
        self.tone = Tone::Neutral;
    }

    /// Takes the error down.
    pub fn dismiss_error(&mut self)
        ensures
            final(self)@ == (NoticeModel {
                status: old(self)@.status,
                tone: old(self)@.tone,
                error: None,
            }),
    {
        self.error = None;
    }

    /// Takes in how a request ended.
    pub fn show(&mut self, outcome: &Outcome)
        ensures
            final(self)@ == noticed(old(self)@, outcome@),
    {
        match outcome {
            Outcome::Success(words) => self.set_success(words.clone()),
            Outcome::Error(error) => self.set_error(error.message()),
            Outcome::ConfirmationRequired => {},
        }
    }
}

} // verus!
