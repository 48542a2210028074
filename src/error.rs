use vstd::prelude::*;

use crate::platform::Architecture;

verus! {

/// Why a resolution failed. Each kind is terminal for the call that met it;
/// the message of an outside failure is carried unchanged.
#[derive(Debug)]
pub enum ResolveError {
    /// The host architecture has no published artifact.
    UnsupportedArchitecture(Architecture),
    /// The release service failed or had no qualifying release.
    ReleaseLookup(String),
    /// The release holds no archive of this name.
    AssetNotFound(String),
    /// Fetching or unpacking the archive failed.
    Download(String),
    /// The extracted binary could not be marked executable.
    MakeExecutable(String),
    /// The working directory could not be listed.
    DirectoryList(String),
}

/// A `ResolveError` with its texts seen as character sequences.
pub enum ErrorView {
    UnsupportedArchitecture(Architecture),
    ReleaseLookup(Seq<char>),
    AssetNotFound(Seq<char>),
    Download(Seq<char>),
    MakeExecutable(Seq<char>),
    DirectoryList(Seq<char>),
}

impl View for ResolveError {
    type V = ErrorView;

    open spec fn view(&self) -> ErrorView {
        match self {
            ResolveError::UnsupportedArchitecture(a) => ErrorView::UnsupportedArchitecture(*a),
            ResolveError::ReleaseLookup(s) => ErrorView::ReleaseLookup(s@),
            ResolveError::AssetNotFound(s) => ErrorView::AssetNotFound(s@),
            ResolveError::Download(s) => ErrorView::Download(s@),
            ResolveError::MakeExecutable(s) => ErrorView::MakeExecutable(s@),
            ResolveError::DirectoryList(s) => ErrorView::DirectoryList(s@),
        }
    }
}

} // verus!
