//! The error taxonomy of a ripping run. Cooperative cancellation travels
//! the same channel but is not a failure; callers must tell it apart.

use vstd::prelude::*;

verus! {

/// Everything that can end a track or a batch early.
#[derive(Debug)]
pub enum RipError {
    /// The drive could not be identified or opened.
    Drive(String),
    /// A track's TOC bounds are invalid (negative or inverted sectors).
    InvalidTrack,
    /// A processing stage could not be instantiated or linked.
    PipelineBuild(String),
    /// A stage failed while running; carries the captured message.
    Processing(String),
    /// The destination exists and overwriting was not allowed; carries the
    /// path.
    FileExists(String),
    /// The user cancelled; not a failure.
    AbortedByUser,
}

impl RipError {
    /// A short human-readable description.
    pub fn message(&self) -> (r: String)
        ensures
            self is Drive ==> r@ == "drive error: "@ + self->Drive_0@,
            self is InvalidTrack ==> r@ == "invalid track sectors"@,
            self is PipelineBuild ==> r@ == "failed to build pipeline: "@ + self->PipelineBuild_0@,
            self is Processing ==> r@ == "processing error: "@ + self->Processing_0@,
            self is FileExists ==> r@ == "file exists: "@ + self->FileExists_0@,
            self is AbortedByUser ==> r@ == "aborted"@,
    {
        match self {
            RipError::Drive(m) => {
                let mut r = String::from_str("drive error: ");
                r.append(m.as_str());
                r
            },
            RipError::InvalidTrack => String::from_str("invalid track sectors"),
            RipError::PipelineBuild(m) => {
                let mut r = String::from_str("failed to build pipeline: ");
                r.append(m.as_str());
                r
            },
            RipError::Processing(m) => {
                let mut r = String::from_str("processing error: ");
                r.append(m.as_str());
                r
            },
            RipError::FileExists(p) => {
                let mut r = String::from_str("file exists: ");
                r.append(p.as_str());
                r
            },
            RipError::AbortedByUser => String::from_str("aborted"),
        }
    }
}

} // verus!
