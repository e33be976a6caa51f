//! The ways in which resolving media or joining a channel fails.

use vstd::prelude::*;
use vstd::string::StringExecFns;

verus! {

/// A failure, as contracts see it: the detail is the text itself.
pub ghost enum ErrorView {
    NotInstalled,
    NotInstalledFfmpeg,
    Runtime(Seq<char>),
    MalformedOutput,
    ConnectionFailure,
    Io(Seq<char>),
}

/// Why a media item could not be resolved, or a channel not joined.
#[derive(Debug)]
pub enum YtdlError {
    /// The extraction tool could not be started: it was not found.
    NotInstalled,
    /// The transcoder of the streaming pipeline could not be started: it was
    /// not found.
    NotInstalledFfmpeg,
    /// The extraction tool ran and exited with a failure status. The detail
    /// is what it wrote to its standard error, unchanged.
    Runtime(String),
    /// The extraction tool's standard output is not the expected record, or
    /// sequence of records.
    MalformedOutput,
    /// The voice client refused or failed to join the channel.
    ConnectionFailure,
    /// Starting the tool, waiting for it or reading from it failed in some
    /// other way. The detail is the system's description of the failure.
    Io(String),
}

impl View for YtdlError {
    type V = ErrorView;

    open spec fn view(&self) -> ErrorView {
        match self {
            YtdlError::NotInstalled => ErrorView::NotInstalled,
            YtdlError::NotInstalledFfmpeg => ErrorView::NotInstalledFfmpeg,
            YtdlError::Runtime(detail) => ErrorView::Runtime(detail@),
            YtdlError::MalformedOutput => ErrorView::MalformedOutput,
            YtdlError::ConnectionFailure => ErrorView::ConnectionFailure,
            YtdlError::Io(detail) => ErrorView::Io(detail@),
        }
    }
}

/// An outcome, as contracts see it: the value by its deep view, the failure
/// by its view.
pub open spec fn viewed<T: DeepView>(outcome: Result<T, YtdlError>) -> Result<T::V, ErrorView> {
    match outcome {
        Ok(value) => Ok(value.deep_view()),
        Err(error) => Err(error@),
    }
}

impl ErrorView {
    /// The sentence that describes the failure to a person.
    pub open spec fn message(self) -> Seq<char> {
        match self {
            ErrorView::NotInstalled => "Failed to start youtube-dl. is it installed?"@,
            ErrorView::NotInstalledFfmpeg =>
                "Failed to start youtube-dl or ffmpeg. are they installed?"@,
            ErrorView::Runtime(detail) => "Encountered an error while running youtube-dl: "@
                + detail,
            ErrorView::MalformedOutput => "Failed to read the output of youtube-dl"@,
            ErrorView::ConnectionFailure => "Error joining the channel"@,
            ErrorView::Io(detail) => detail,
        }
    }
}

impl YtdlError {
    /// The sentence that describes the failure to a person.
    pub fn message(&self) -> (text: String)
        ensures
            text@ == self@.message(),
    {
        match self {
            YtdlError::NotInstalled => String::from_str(
                "Failed to start youtube-dl. is it installed?",
            ),
            YtdlError::NotInstalledFfmpeg => String::from_str(
                "Failed to start youtube-dl or ffmpeg. are they installed?",
            ),
            YtdlError::Runtime(detail) => String::from_str(
                "Encountered an error while running youtube-dl: ",
            ).concat(detail.as_str()),
            YtdlError::MalformedOutput => String::from_str(
                "Failed to read the output of youtube-dl",
            ),
            YtdlError::ConnectionFailure => String::from_str("Error joining the channel"),
            YtdlError::Io(detail) => detail.clone(),
        }
    }
}

} // verus!
