//! The errors of a recording.
use vstd::prelude::*;

use crate::text::{concat2, copy_str};

verus! {

/// `std::io::Error`, carried through unchanged.
#[verifier::external_type_specification]
#[verifier::external_body]
pub struct ExIoError(std::io::Error);

/// Calls `ToString::to_string` on an I/O error. The text comes from the
/// operating system, so nothing is stated of it.
#[verifier::external_body]
fn io_error_text(e: &std::io::Error) -> String {
    e.to_string()
}

/// Why a recording failed or stopped.
#[derive(Debug)]
pub enum RecordingError {
    FFmpegError(String),
    FormatError(String),
    IoError(std::io::Error),
    NetworkError(String),
    InvalidUrl(String),
    StoppedByUser,
    AlreadyRecording,
    StreamInterrupted,
    OpenInputError(String),
    FindStreamInfoError(String),
    WriteHeaderError(String),
    WriteFrameError(String),
    WriteTrailerError(String),
    NoStreamFound,
    TimeoutError(String),
    DiskSpaceError(String),
    Unknown(String),
}

/// The message of an error that carries a text: its label, then the text.
pub open spec fn labelled(label: Seq<char>, detail: Seq<char>) -> Seq<char> {
    label + detail
}

impl RecordingError {
    /// The message of the error, for every variant but `IoError`, whose
    /// text comes from the operating system.
    pub open spec fn spec_message(self) -> Option<Seq<char>> {
        match self {
            RecordingError::FFmpegError(s) => Some(labelled("FFmpeg error: "@, s@)),
            RecordingError::FormatError(s) => Some(labelled("Format error: "@, s@)),
            RecordingError::IoError(_) => None,
            RecordingError::NetworkError(s) => Some(labelled("Network error: "@, s@)),
            RecordingError::InvalidUrl(s) => Some(labelled("Invalid URL: "@, s@)),
            RecordingError::StoppedByUser => Some("Recording stopped by user"@),
            RecordingError::AlreadyRecording => Some("Recording already in progress"@),
            RecordingError::StreamInterrupted => Some("Recording was interrupted by callback"@),
            RecordingError::OpenInputError(s) => Some(labelled("Open input error: "@, s@)),
            RecordingError::FindStreamInfoError(s) => Some(
                labelled("Find stream info error: "@, s@),
            ),
            RecordingError::WriteHeaderError(s) => Some(labelled("Write header error: "@, s@)),
            RecordingError::WriteFrameError(s) => Some(labelled("Write frame error: "@, s@)),
            RecordingError::WriteTrailerError(s) => Some(labelled("Write trailer error: "@, s@)),
            RecordingError::NoStreamFound => Some("No stream found"@),
            RecordingError::TimeoutError(s) => Some(labelled("Timeout error: "@, s@)),
            RecordingError::DiskSpaceError(s) => Some(labelled("Disk space error: "@, s@)),
            RecordingError::Unknown(s) => Some(labelled("Unknown error: "@, s@)),
        }
    }

    /// The message of the error, as its `Display` shows it.
    pub fn message(&self) -> (r: String)
        ensures
            self.spec_message() matches Some(m) ==> r@ == m,
            self is IoError ==> r@.len() >= "IO error: "@.len() && r@.subrange(
                0,
                "IO error: "@.len() as int,
            ) == "IO error: "@,
    {
        match self {
            RecordingError::FFmpegError(s) => concat2("FFmpeg error: ", s.as_str()),
            RecordingError::FormatError(s) => concat2("Format error: ", s.as_str()),
            RecordingError::IoError(e) => {
                let t = io_error_text(e);
                let r = concat2("IO error: ", t.as_str());
                assert(r@.subrange(0, "IO error: "@.len() as int) =~= "IO error: "@);
                r
            },
            RecordingError::NetworkError(s) => concat2("Network error: ", s.as_str()),
            RecordingError::InvalidUrl(s) => concat2("Invalid URL: ", s.as_str()),
            RecordingError::StoppedByUser => copy_str("Recording stopped by user"),
            RecordingError::AlreadyRecording => copy_str("Recording already in progress"),
            RecordingError::StreamInterrupted => copy_str("Recording was interrupted by callback"),
            RecordingError::OpenInputError(s) => concat2("Open input error: ", s.as_str()),
            RecordingError::FindStreamInfoError(s) => concat2(
                "Find stream info error: ",
                s.as_str(),
            ),
            RecordingError::WriteHeaderError(s) => concat2("Write header error: ", s.as_str()),
            RecordingError::WriteFrameError(s) => concat2("Write frame error: ", s.as_str()),
            RecordingError::WriteTrailerError(s) => concat2("Write trailer error: ", s.as_str()),
            RecordingError::NoStreamFound => copy_str("No stream found"),
            RecordingError::TimeoutError(s) => concat2("Timeout error: ", s.as_str()),
            RecordingError::DiskSpaceError(s) => concat2("Disk space error: ", s.as_str()),
            RecordingError::Unknown(s) => concat2("Unknown error: ", s.as_str()),
        }
    }
}

impl From<std::io::Error> for RecordingError {
    fn from(e: std::io::Error) -> (r: RecordingError) {
        RecordingError::IoError(e)
    }
}

impl vstd::std_specs::convert::FromSpecImpl<std::io::Error> for RecordingError {
    open spec fn obeys_from_spec() -> bool {
        true
    }

    open spec fn from_spec(e: std::io::Error) -> RecordingError {
        RecordingError::IoError(e)
    }
}

} // verus!
