//! What a launch ends in: the kinds of failure, and the outcome that the caller
//! is given.

use vstd::prelude::*;
use crate::message::{
    path_failure_message, path_failure_text, spawn_failure_message, spawn_failure_text,
    spawned_message, spawned_text, unsupported_message, unsupported_text,
};

verus! {

/// Why a launch failed. Each kind ends the launch: nothing is tried again.
#[derive(Clone, Debug, PartialEq, Eq)]
pub enum LaunchError {
    /// The location of the running executable could not be determined. Holds
    /// the system's diagnostic.
    PathResolution(String),
    /// The system refused or failed to create the process. Holds the system's
    /// diagnostic.
    ProcessCreation(String),
    /// No way of launching is defined for the platform.
    UnsupportedPlatform,
}

/// A failure, with its diagnostic as a sequence of characters.
pub ghost enum LaunchErrorView {
    PathResolution(Seq<char>),
    ProcessCreation(Seq<char>),
    UnsupportedPlatform,
}

impl LaunchErrorView {
    /// The text that this failure is displayed with.
    pub open spec fn text(self) -> Seq<char> {
        match self {
            LaunchErrorView::PathResolution(diagnostic) => path_failure_text(diagnostic),
            LaunchErrorView::ProcessCreation(diagnostic) => spawn_failure_text(diagnostic),
            LaunchErrorView::UnsupportedPlatform => unsupported_text(),
        }
    }
}

impl View for LaunchError {
    type V = LaunchErrorView;

    open spec fn view(&self) -> LaunchErrorView {
        match *self {
            LaunchError::PathResolution(diagnostic) => LaunchErrorView::PathResolution(
                diagnostic@,
            ),
            LaunchError::ProcessCreation(diagnostic) => LaunchErrorView::ProcessCreation(
                diagnostic@,
            ),
            LaunchError::UnsupportedPlatform => LaunchErrorView::UnsupportedPlatform,
        }
    }
}

impl LaunchError {
    /// The text that this failure is displayed with.
    pub fn message(&self) -> (message: String)
        ensures
            message@ == self@.text(),
    {
        match self {
            LaunchError::PathResolution(diagnostic) => path_failure_message(diagnostic.as_str()),
            LaunchError::ProcessCreation(diagnostic) => spawn_failure_message(
                diagnostic.as_str(),
            ),
            LaunchError::UnsupportedPlatform => unsupported_message(),
        }
    }
}

/// The result of one launch, as the caller is given it.
#[derive(Clone, Debug, PartialEq, Eq)]
pub enum LaunchOutcome {
    /// A new process was created.
    Success {
        /// The identifier that the system gave the new process.
        process_id: u32,
        /// The text to display; it names the identifier.
        message: String,
    },
    /// No process was created.
    Failure {
        /// The text to display; it says which step failed and why.
        message: String,
    },
}

/// An outcome, with its message as a sequence of characters.
pub ghost enum LaunchOutcomeView {
    Success { process_id: u32, message: Seq<char> },
    Failure { message: Seq<char> },
}

impl LaunchOutcomeView {
    /// The outcome of a launch that created the process `process_id`.
    pub open spec fn spawned(process_id: u32) -> LaunchOutcomeView {
        LaunchOutcomeView::Success { process_id, message: spawned_text(process_id) }
    }

    /// The outcome of a launch that failed with `error`.
    pub open spec fn failed(error: LaunchErrorView) -> LaunchOutcomeView {
        LaunchOutcomeView::Failure { message: error.text() }
    }

    /// The text to display.
    pub open spec fn message(self) -> Seq<char> {
        match self {
            LaunchOutcomeView::Success { message, .. } => message,
            LaunchOutcomeView::Failure { message } => message,
        }
    }

    /// What holds of every outcome that the launcher gives: a success carries
    /// the message that names its process, and a failure's message is not empty.
    pub open spec fn well_formed(self) -> bool {
        match self {
            LaunchOutcomeView::Success { process_id, message } => message == spawned_text(
                process_id,
            ),
            LaunchOutcomeView::Failure { message } => message.len() > 0,
        }
    }

    /// The outcome as a `Result` of messages.
    pub open spec fn as_result(self) -> Result<Seq<char>, Seq<char>> {
        match self {
            LaunchOutcomeView::Success { message, .. } => Ok(message),
            LaunchOutcomeView::Failure { message } => Err(message),
        }
    }
}

impl View for LaunchOutcome {
    type V = LaunchOutcomeView;

    open spec fn view(&self) -> LaunchOutcomeView {
        match *self {
            LaunchOutcome::Success { process_id, message } => LaunchOutcomeView::Success {
                process_id,
                message: message@,
            },
            LaunchOutcome::Failure { message } => LaunchOutcomeView::Failure {
                message: message@,
            },
        }
    }
}

impl LaunchOutcome {
    /// The outcome of a launch that created the process `process_id`.
    pub fn spawned(process_id: u32) -> (outcome: LaunchOutcome)
        ensures
            outcome@ == LaunchOutcomeView::spawned(process_id),
            outcome@.well_formed(),
    {
        LaunchOutcome::Success { process_id, message: spawned_message(process_id) }
    }

    /// The outcome of a launch that failed with `error`.
    pub fn failed(error: &LaunchError) -> (outcome: LaunchOutcome)
        ensures
            outcome@ == LaunchOutcomeView::failed(error@),
            outcome@.well_formed(),
    {
        proof {
            lemma_made_outcomes_are_well_formed(0, error@);
        }
        LaunchOutcome::Failure { message: error.message() }
    }

    /// Whether a process was created.
    pub fn is_success(&self) -> (success: bool)
        ensures
            success == (self@ is Success),
    {
        match self {
            LaunchOutcome::Success { .. } => true,
            LaunchOutcome::Failure { .. } => false,
        }
    }

    /// The identifier of the new process, where one was created.
    pub fn process_id(&self) -> (process_id: Option<u32>)
        ensures
            process_id == match self@ {
                LaunchOutcomeView::Success { process_id, .. } => Some(process_id),
                LaunchOutcomeView::Failure { .. } => None::<u32>,
            },
    {
        match self {
            LaunchOutcome::Success { process_id, .. } => Some(*process_id),
            LaunchOutcome::Failure { .. } => None,
        }
    }

    /// The text to display.
    pub fn message(&self) -> (message: &str)
        ensures
            message@ == self@.message(),
    {
        match self {
            LaunchOutcome::Success { message, .. } => message.as_str(),
            LaunchOutcome::Failure { message } => message.as_str(),
        }
    }

    /// The outcome as a `Result`: the message of a success as `Ok`, that of a
    /// failure as `Err`.
    pub fn into_result(self) -> (result: Result<String, String>)
        ensures
            match result {
                Ok(message) => self@.as_result() == Ok::<Seq<char>, Seq<char>>(message@),
                Err(message) => self@.as_result() == Err::<Seq<char>, Seq<char>>(message@),
            },
    {
        match self {
            LaunchOutcome::Success { message, .. } => Ok(message),
            LaunchOutcome::Failure { message } => Err(message),
        }
    }
}

/// Whatever the failure, the outcome made of it is well formed; and so is the
/// outcome made of any process identifier.
pub proof fn lemma_made_outcomes_are_well_formed(process_id: u32, error: LaunchErrorView)
    ensures
        LaunchOutcomeView::spawned(process_id).well_formed(),
        LaunchOutcomeView::failed(error).well_formed(),
{
    match error {
        LaunchErrorView::PathResolution(diagnostic) => {
            crate::message::lemma_messages_open_with_their_step(process_id, diagnostic);
        },
        LaunchErrorView::ProcessCreation(diagnostic) => {
            crate::message::lemma_messages_open_with_their_step(process_id, diagnostic);
        },
        LaunchErrorView::UnsupportedPlatform => {
            crate::message::lemma_messages_open_with_their_step(process_id, Seq::empty());
        },
    }
}

} // verus!
