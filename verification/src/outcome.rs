//! How a submission can end, and what is reported for each ending.

use vstd::prelude::*;
use crate::interactive::BitrateTooLow;
use crate::types::DupeCheckError;

verus! {

/// An error that ends a submission for good.
#[derive(Clone, Debug, PartialEq, Eq)]
pub enum SubmitError {
    /// The file was refused for its bit rate, before anything was sent.
    BitrateTooLow(BitrateTooLow),
    /// The probe, a prompt or reading the file failed; carries the message.
    Collaborator(String),
    /// A request could not be sent or its answer could not be read; carries
    /// the message.
    Transport(String),
    /// A duplicate check reported failure without a reason, or a possible
    /// duplicate without candidates.
    MalformedResponse,
    /// The forced duplicate check gave no token either.
    MissingToken,
    /// The storage answered the upload with a status other than 200; carries
    /// the body of its answer.
    Upload(String),
    /// An event arrived that the current state does not wait for.
    UnexpectedEvent,
}

/// Mathematical form of [`SubmitError`].
pub enum SubmitErrorView {
    BitrateTooLow(BitrateTooLow),
    Collaborator(Seq<char>),
    Transport(Seq<char>),
    MalformedResponse,
    MissingToken,
    Upload(Seq<char>),
    UnexpectedEvent,
}

impl View for SubmitError {
    type V = SubmitErrorView;

    open spec fn view(&self) -> SubmitErrorView {
        match self {
            SubmitError::BitrateTooLow(e) => SubmitErrorView::BitrateTooLow(*e),
            SubmitError::Collaborator(message) => SubmitErrorView::Collaborator(message@),
            SubmitError::Transport(message) => SubmitErrorView::Transport(message@),
            SubmitError::MalformedResponse => SubmitErrorView::MalformedResponse,
            SubmitError::MissingToken => SubmitErrorView::MissingToken,
            SubmitError::Upload(body) => SubmitErrorView::Upload(body@),
            SubmitError::UnexpectedEvent => SubmitErrorView::UnexpectedEvent,
        }
    }
}

impl SubmitErrorView {
    /// The text that is reported for the error. A failed upload is reported
    /// by the body of the storage's answer, and nothing else.
    pub open spec fn text_spec(self) -> Seq<char> {
        match self {
            SubmitErrorView::BitrateTooLow(e) => e.text_spec(),
            SubmitErrorView::Collaborator(message) => message,
            SubmitErrorView::Transport(message) => message,
            SubmitErrorView::MalformedResponse => "the duplicate check gave a malformed answer"@,
            SubmitErrorView::MissingToken => "the duplicate check gave no upload token"@,
            SubmitErrorView::Upload(body) => body,
            SubmitErrorView::UnexpectedEvent => "an event arrived out of turn"@,
        }
    }
}

impl SubmitError {
    /// The text that is reported.
    pub fn to_string(&self) -> (s: String)
        ensures
            s@ == self@.text_spec(),
    {
        match self {
            SubmitError::BitrateTooLow(e) => e.to_string(),
            SubmitError::Collaborator(message) => message.clone(),
            SubmitError::Transport(message) => message.clone(),
            SubmitError::MalformedResponse => String::from_str(
                "the duplicate check gave a malformed answer",
            ),
            SubmitError::MissingToken => String::from_str(
                "the duplicate check gave no upload token",
            ),
            SubmitError::Upload(body) => body.clone(),
            SubmitError::UnexpectedEvent => String::from_str("an event arrived out of turn"),
        }
    }
}

/// Why a submission stopped after its first duplicate check.
#[derive(Copy, Clone, Debug, PartialEq, Eq, Structural)]
pub enum Abort {
    /// The operator saw the candidates and declined to go on.
    Declined,
    /// The duplicate check refused the submission for a terminal reason.
    Rejected(DupeCheckError),
}

/// The ending of a submission.
#[derive(Clone, Debug, PartialEq, Eq)]
pub enum Outcome {
    /// The file was uploaded.
    Uploaded,
    /// The submission stopped after the first duplicate check.
    Aborted(Abort),
    /// The submission failed.
    Failed(SubmitError),
}

/// Mathematical form of [`Outcome`].
pub enum OutcomeView {
    Uploaded,
    Aborted(Abort),
    Failed(SubmitErrorView),
}

impl View for Outcome {
    type V = OutcomeView;

    open spec fn view(&self) -> OutcomeView {
        match self {
            Outcome::Uploaded => OutcomeView::Uploaded,
            Outcome::Aborted(abort) => OutcomeView::Aborted(*abort),
            Outcome::Failed(error) => OutcomeView::Failed(error@),
        }
    }
}

impl OutcomeView {
    /// The exit code of the process: zero after an upload and after the
    /// operator declined, one after a refusal and after any failure.
    pub open spec fn exit_code_spec(self) -> u8 {
        match self {
            OutcomeView::Uploaded => 0,
            OutcomeView::Aborted(Abort::Declined) => 0,
            OutcomeView::Aborted(Abort::Rejected(_)) => 1,
            OutcomeView::Failed(_) => 1,
        }
    }

    /// The text that is reported for the ending.
    pub open spec fn text_spec(self) -> Seq<char> {
        match self {
            OutcomeView::Uploaded => "上传成功。"@,
            OutcomeView::Aborted(Abort::Declined) => "上传被取消。"@,
            OutcomeView::Aborted(Abort::Rejected(reason)) => reason.text_spec(),
            OutcomeView::Failed(error) => error.text_spec(),
        }
    }
}

impl Outcome {
    /// The exit code of the process.
    pub fn exit_code(&self) -> (code: u8)
        ensures
            code == self@.exit_code_spec(),
    {
        match self {
            Outcome::Uploaded => 0,
            Outcome::Aborted(Abort::Declined) => 0,
            Outcome::Aborted(Abort::Rejected(_)) => 1,
            Outcome::Failed(_) => 1,
        }
    }

    /// The text that is reported.
    pub fn to_string(&self) -> (s: String)
        ensures
            s@ == self@.text_spec(),
    {
        match self {
            Outcome::Uploaded => String::from_str("上传成功。"),
            Outcome::Aborted(Abort::Declined) => String::from_str("上传被取消。"),
            Outcome::Aborted(Abort::Rejected(reason)) => reason.to_string(),
            Outcome::Failed(error) => error.to_string(),
        }
    }
}

} // verus!
