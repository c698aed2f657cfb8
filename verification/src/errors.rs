use vstd::prelude::*;

verus! {

/// What went wrong while one file moved through the pipeline.
#[derive(Clone, Copy, Debug, PartialEq, Eq, Structural)]
pub enum FailureKind {
    /// Unreadable, corrupt or unsupported image bytes.
    DecodeFailure,
    /// Any failure talking to the external tagging service, whatever the
    /// underlying transport or parse cause.
    ClassificationServiceError,
    /// Storage-layer error during insert or query.
    PersistenceFailure,
    /// Write error while relocating the image body after a successful
    /// persist.
    RelocationFailure,
    /// Failure while producing or recording the thumbnail.
    ThumbnailFailure,
}

/// What the failure router does with the source file of a failed unit.
#[derive(Clone, Copy, Debug, PartialEq, Eq, Structural)]
pub enum FileDisposition {
    /// Move the file to the discard root under a fresh name.
    Discard,
    /// Leave the file untouched, to be retried by the next cycle.
    LeaveInPlace,
}

impl FailureKind {
    /// A transient failure is attributable to a collaborator's temporary
    /// unavailability; only the classification service is assumed
    /// transient, every other kind is final for the file.
    pub open spec fn spec_is_transient(self) -> bool {
        self is ClassificationServiceError
    }

    pub fn is_transient(&self) -> (t: bool)
        ensures
            t == self.spec_is_transient(),
    {
        matches!(self, FailureKind::ClassificationServiceError)
    }

    /// Failure routing: a transient failure leaves the source file in
    /// place; every other failure moves it to the discard root.
    pub fn disposition(&self) -> (d: FileDisposition)
        ensures
            d == FileDisposition::LeaveInPlace <==> self.spec_is_transient(),
            d == FileDisposition::Discard <==> !self.spec_is_transient(),
    {
        if self.is_transient() {
            FileDisposition::LeaveInPlace
        } else {
            FileDisposition::Discard
        }
    }
}

/// Error of the classification client: one uniform kind, whether the cause
/// was connection refusal, a timeout, a non-success response or a body that
/// would not parse.
#[derive(Clone, Debug)]
pub struct ImageFetcherError {
    message: String,
}

impl ImageFetcherError {
    /// The view of an `ImageFetcherError` is its message text.
    pub closed spec fn view(self) -> Seq<char> {
        self.message@
    }

    pub fn new(message: String) -> (e: Self)
        ensures
            e@ == message@,
    {
        ImageFetcherError { message }
    }

    /// The wrapped cause, as text.
    pub fn message(&self) -> (m: &str)
        ensures
            m@ == self@,
    {
        self.message.as_str()
    }
}

} // verus!
