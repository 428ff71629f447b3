//! The kinds of failure a scan can meet, and which of them end it.

use vstd::prelude::*;

verus! {

/// A failure met while scanning.
///
/// Fatal kinds end the whole scan and reach the caller. The other kinds are
/// absorbed by the scan unit that met them and count as "nothing found".
#[derive(Clone, Copy, Debug, PartialEq, Eq, Structural)]
pub enum ScanError {
    /// The deprecation table could not be obtained as a whole.
    SourceUnavailable,
    /// The API server could not be reached while resolving a kind.
    ConnectionError,
    /// The API server serves no resource of the requested group, version and kind.
    KindNotFound,
    /// Listing the instances of a resolved kind failed.
    ListFailure,
    /// An instance carries a last-applied configuration that is not a JSON
    /// object with a textual `apiVersion`.
    MalformedAnnotation,
}

impl ScanError {
    /// What a diagnostic says of this kind of failure.
    pub open spec fn description(self) -> Seq<char> {
        match self {
            ScanError::SourceUnavailable => "the deprecation table could not be loaded"@,
            ScanError::ConnectionError => "the API server could not be reached"@,
            ScanError::KindNotFound => "the API server does not serve this kind"@,
            ScanError::ListFailure => "the instances of a kind could not be listed"@,
            ScanError::MalformedAnnotation =>
                "a last-applied configuration is not a JSON object with a textual apiVersion"@,
        }
    }

    /// Whether this kind of failure ends the scan.
    pub open spec fn is_fatal(self) -> bool {
        self is SourceUnavailable || self is ConnectionError || self is MalformedAnnotation
    }

    /// Whether this kind of failure ends the scan.
    pub fn fatal(&self) -> (fatal: bool)
        ensures
            fatal == self.is_fatal(),
    {
        match self {
            ScanError::SourceUnavailable => true,
            ScanError::ConnectionError => true,
            ScanError::KindNotFound => false,
            ScanError::ListFailure => false,
            ScanError::MalformedAnnotation => true,
        }
    }

    /// What a diagnostic says of this kind of failure.
    pub fn describe(&self) -> (text: &'static str)
        ensures
            text@ == self.description(),
    {
        match self {
            ScanError::SourceUnavailable => "the deprecation table could not be loaded",
            ScanError::ConnectionError => "the API server could not be reached",
            ScanError::KindNotFound => "the API server does not serve this kind",
            ScanError::ListFailure => "the instances of a kind could not be listed",
            ScanError::MalformedAnnotation =>
                "a last-applied configuration is not a JSON object with a textual apiVersion",
        }
    }
}

} // verus!
