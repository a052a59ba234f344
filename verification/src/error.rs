//! What can go wrong while a manifest is resolved.

use vstd::prelude::*;

verus! {

/// A failure that ends a resolution run. Each carries the text that names
/// what was involved.
#[derive(Clone, Debug, PartialEq, Eq)]
pub enum ManifestError {
    /// The coordinate has fewer than three segments.
    MalformedCoordinate(String),
    /// The version index holds no entry with this id.
    VersionNotFound(String),
    /// An upstream catalog at this address could not be reached.
    SourceUnavailable(String),
    /// An upstream answer did not have the expected shape.
    MalformedResponse(String),
    /// The installer process ended with this non-zero status.
    InstallerFailure(i32),
}

/// A `ManifestError` with its texts as character sequences.
pub enum ManifestErrorView {
    MalformedCoordinate(Seq<char>),
    VersionNotFound(Seq<char>),
    SourceUnavailable(Seq<char>),
    MalformedResponse(Seq<char>),
    InstallerFailure(i32),
}

impl View for ManifestError {
    type V = ManifestErrorView;

    open spec fn view(&self) -> ManifestErrorView {
        match self {
            ManifestError::MalformedCoordinate(s) => ManifestErrorView::MalformedCoordinate(s@),
            ManifestError::VersionNotFound(s) => ManifestErrorView::VersionNotFound(s@),
            ManifestError::SourceUnavailable(s) => ManifestErrorView::SourceUnavailable(s@),
            ManifestError::MalformedResponse(s) => ManifestErrorView::MalformedResponse(s@),
            ManifestError::InstallerFailure(status) => ManifestErrorView::InstallerFailure(
                *status,
            ),
        }
    }
}

/// The view of a text or of the error in its place.
pub open spec fn outcome_view(outcome: Result<String, ManifestError>) -> Result<
    Seq<char>,
    ManifestErrorView,
> {
    match outcome {
        Ok(text) => Ok(text@),
        Err(e) => Err(e@),
    }
}

} // verus!
