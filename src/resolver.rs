use vstd::prelude::*;

use crate::error::{ErrorView, ResolveError};
use crate::install::{
    binary_path, binary_path_spec, names_view, stale_entries, stale_entries_spec, version_dir,
    version_dir_spec,
};
use crate::platform::{
    archive_kind, archive_kind_spec, arch_token_spec, asset_name, expected_asset_name,
    Architecture, ArchiveKind, Os,
};
use crate::release::{
    find_asset, first_asset_named, has_asset_named, lemma_first_named_unique, Release, ReleaseView,
};

verus! {

/// The name under which the server is looked up on the search path.
pub open spec fn server_name() -> Seq<char> {
    "kcl-language-server"@
}

/// The upstream project whose releases carry the server.
pub open spec fn upstream_repo() -> Seq<char> {
    "kcl-lang/kcl"@
}

/// A progress signal for the host.
#[derive(Clone, Copy, Debug, PartialEq, Eq, Structural)]
pub enum Status {
    CheckingForUpdate,
    Downloading,
}

/// Where a resolution stands: what the resolver waits to hear about.
#[derive(Clone, Copy, Debug, PartialEq, Eq, Structural)]
pub enum Phase {
    Idle,
    LookingUpPath,
    CheckingCache,
    ReportingCheck,
    FetchingRelease,
    CheckingBinary,
    ReportingDownload,
    Downloading,
    MakingExecutable,
    Listing,
    Removing,
}

/// The outcome of the last action, handed back by the host.
#[derive(Debug)]
pub enum Event {
    /// Result of a search-path lookup.
    PathFound(Option<String>),
    /// Whether the path asked about is an existing regular file.
    FileChecked(bool),
    /// A status report was passed on.
    Reported,
    /// The latest qualifying release, or why there is none.
    ReleaseFetched(Result<Release, String>),
    /// Download and extraction finished or failed.
    Downloaded(Result<(), String>),
    /// The binary was marked executable, or why not.
    MadeExecutable(Result<(), String>),
    /// The names of the working directory's entries, or why they could not be read.
    Listed(Result<Vec<String>, String>),
    /// Stale entries were removed as far as possible.
    Removed,
}

/// What the host is to do next.
#[derive(Debug)]
pub enum Action {
    /// Look up an executable of this name on the search path.
    LookUpPath(String),
    /// Tell whether this path is an existing regular file.
    CheckFile(String),
    /// Report a status; failures of the report are ignored.
    Report(Status),
    /// Fetch the latest release with assets, excluding pre-releases, of this project.
    FetchRelease(String),
    /// Download `url` and unpack it as `kind` into `dir`.
    Download { url: String, dir: String, kind: ArchiveKind },
    /// Mark this file executable.
    MakeExecutable(String),
    /// List the names of the working directory's entries.
    ListDirectory,
    /// Remove these entries of the working directory, ignoring failures.
    RemoveEntries(Vec<String>),
    /// The resolution is over with this outcome.
    Finish(Result<String, ResolveError>),
}

pub enum EventView {
    PathFound(Option<Seq<char>>),
    FileChecked(bool),
    Reported,
    ReleaseFetched(Result<ReleaseView, Seq<char>>),
    Downloaded(Result<(), Seq<char>>),
    MadeExecutable(Result<(), Seq<char>>),
    Listed(Result<Seq<Seq<char>>, Seq<char>>),
    Removed,
}

pub enum ActionView {
    LookUpPath(Seq<char>),
    CheckFile(Seq<char>),
    Report(Status),
    FetchRelease(Seq<char>),
    Download { url: Seq<char>, dir: Seq<char>, kind: ArchiveKind },
    MakeExecutable(Seq<char>),
    ListDirectory,
    RemoveEntries(Seq<Seq<char>>),
    Finish(Result<Seq<char>, ErrorView>),
}

impl View for Event {
    type V = EventView;

    open spec fn view(&self) -> EventView {
        match self {
            Event::PathFound(p) => EventView::PathFound(
                match p {
                    Some(s) => Some(s@),
                    None => None,
                },
            ),
            Event::FileChecked(b) => EventView::FileChecked(*b),
            Event::Reported => EventView::Reported,
            Event::ReleaseFetched(r) => EventView::ReleaseFetched(
                match r {
                    Ok(rel) => Ok(rel@),
                    Err(e) => Err(e@),
                },
            ),
            Event::Downloaded(r) => EventView::Downloaded(
                match r {
                    Ok(u) => Ok(*u),
                    Err(e) => Err(e@),
                },
            ),
            Event::MadeExecutable(r) => EventView::MadeExecutable(
                match r {
                    Ok(u) => Ok(*u),
                    Err(e) => Err(e@),
                },
            ),
            Event::Listed(r) => EventView::Listed(
                match r {
                    Ok(names) => Ok(names_view(names@)),
                    Err(e) => Err(e@),
                },
            ),
            Event::Removed => EventView::Removed,
        }
    }
}

impl View for Action {
    type V = ActionView;

    open spec fn view(&self) -> ActionView {
        match self {
            Action::LookUpPath(s) => ActionView::LookUpPath(s@),
            Action::CheckFile(s) => ActionView::CheckFile(s@),
            Action::Report(st) => ActionView::Report(*st),
            Action::FetchRelease(s) => ActionView::FetchRelease(s@),
            Action::Download { url, dir, kind } => ActionView::Download {
                url: url@,
                dir: dir@,
                kind: *kind,
            },
            Action::MakeExecutable(s) => ActionView::MakeExecutable(s@),
            Action::ListDirectory => ActionView::ListDirectory,
            Action::RemoveEntries(v) => ActionView::RemoveEntries(names_view(v@)),
            Action::Finish(r) => ActionView::Finish(
                match r {
                    Ok(p) => Ok(p@),
                    Err(e) => Err(e@),
                },
            ),
        }
    }
}

/// Resolves the path of the language server binary: on the search path,
/// in the path remembered from an earlier call, or by installing the latest
/// release. The host drives it: it performs each returned action and hands
/// the outcome back as an event, until an action finishes the resolution.
pub struct KclExtension {
    /// The last path that a resolution produced, kept across resolutions.
    pub cached_binary_path: Option<String>,
    pub os: Os,
    pub arch: Architecture,
    pub phase: Phase,
    /// The version directory of the release being installed.
    pub version_dir: String,
    /// The binary inside `version_dir`.
    pub binary_path: String,
    /// Where the archive of the release being installed is fetched from.
    pub download_url: String,
}

pub struct ExtensionView {
    pub cached: Option<Seq<char>>,
    pub os: Os,
    pub arch: Architecture,
    pub phase: Phase,
    pub version_dir: Seq<char>,
    pub binary_path: Seq<char>,
    pub download_url: Seq<char>,
}

impl View for KclExtension {
    type V = ExtensionView;

    open spec fn view(&self) -> ExtensionView {
        ExtensionView {
            cached: match self.cached_binary_path {
                Some(s) => Some(s@),
                None => None,
            },
            os: self.os,
            arch: self.arch,
            phase: self.phase,
            version_dir: self.version_dir@,
            binary_path: self.binary_path@,
            download_url: self.download_url@,
        }
    }
}

impl ExtensionView {
    /// A path is remembered whenever the resolver asks about it.
    pub open spec fn wf(self) -> bool {
        self.phase == Phase::CheckingCache ==> self.cached is Some
    }
}

/// The event that answers the action taken in `phase`.
pub open spec fn accepts(phase: Phase, e: EventView) -> bool {
    match phase {
        Phase::Idle => false,
        Phase::LookingUpPath => e is PathFound,
        Phase::CheckingCache | Phase::CheckingBinary => e is FileChecked,
        Phase::ReportingCheck | Phase::ReportingDownload => e is Reported,
        Phase::FetchingRelease => e is ReleaseFetched,
        Phase::Downloading => e is Downloaded,
        Phase::MakingExecutable => e is MadeExecutable,
        Phase::Listing => e is Listed,
        Phase::Removing => e is Removed,
    }
}

/// Ends the resolution with `r`.
pub open spec fn finish(s: ExtensionView, r: Result<Seq<char>, ErrorView>) -> (
    ExtensionView,
    ActionView,
) {
    (ExtensionView { phase: Phase::Idle, ..s }, ActionView::Finish(r))
}

/// Remembers the installed binary and returns its path.
pub open spec fn commit(s: ExtensionView) -> (ExtensionView, ActionView) {
    (
        ExtensionView { phase: Phase::Idle, cached: Some(s.binary_path), ..s },
        ActionView::Finish(Ok(s.binary_path)),
    )
}

/// Nothing usable was found locally: refuse an unsupported architecture
/// before any network use, else announce the update check.
pub open spec fn after_local_miss(s: ExtensionView) -> (ExtensionView, ActionView) {
    if arch_token_spec(s.arch) is None {
        finish(s, Err(ErrorView::UnsupportedArchitecture(s.arch)))
    } else {
        (
            ExtensionView { phase: Phase::ReportingCheck, ..s },
            ActionView::Report(Status::CheckingForUpdate),
        )
    }
}

/// Picks the archive for this platform out of the release and asks whether
/// its binary is already unpacked.
pub open spec fn after_release(s: ExtensionView, rel: ReleaseView) -> (ExtensionView, ActionView) {
    match expected_asset_name(rel.version, s.os, s.arch) {
        None => finish(s, Err(ErrorView::UnsupportedArchitecture(s.arch))),
        Some(name) => if !has_asset_named(rel.assets, name) {
            finish(s, Err(ErrorView::AssetNotFound(name)))
        } else {
            let dir = version_dir_spec(rel.version);
            (
                ExtensionView {
                    phase: Phase::CheckingBinary,
                    version_dir: dir,
                    binary_path: binary_path_spec(dir),
                    download_url: rel.assets[first_asset_named(rel.assets, name)].download_url,
                    ..s
                },
                ActionView::CheckFile(binary_path_spec(dir)),
            )
        },
    }
}

/// The first step of a resolution on the platform `(os, arch)`.
pub open spec fn start(s: ExtensionView, os: Os, arch: Architecture) -> (
    ExtensionView,
    ActionView,
) {
    (
        ExtensionView { phase: Phase::LookingUpPath, os, arch, ..s },
        ActionView::LookUpPath(server_name()),
    )
}

/// The step that follows from state `s` on event `e`.
pub open spec fn next(s: ExtensionView, e: EventView) -> (ExtensionView, ActionView) {
    match (s.phase, e) {
        (Phase::LookingUpPath, EventView::PathFound(Some(p))) => finish(s, Ok(p)),
        (Phase::LookingUpPath, EventView::PathFound(None)) => match s.cached {
            Some(c) => (ExtensionView { phase: Phase::CheckingCache, ..s }, ActionView::CheckFile(c)),
            None => after_local_miss(s),
        },
        (Phase::CheckingCache, EventView::FileChecked(true)) => finish(s, Ok(s.cached->0)),
        (Phase::CheckingCache, EventView::FileChecked(false)) => after_local_miss(s),
        (Phase::ReportingCheck, EventView::Reported) => (
            ExtensionView { phase: Phase::FetchingRelease, ..s },
            ActionView::FetchRelease(upstream_repo()),
        ),
        (Phase::FetchingRelease, EventView::ReleaseFetched(Err(m))) => finish(
            s,
            Err(ErrorView::ReleaseLookup(m)),
        ),
        (Phase::FetchingRelease, EventView::ReleaseFetched(Ok(rel))) => after_release(s, rel),
        (Phase::CheckingBinary, EventView::FileChecked(true)) => commit(s),
        (Phase::CheckingBinary, EventView::FileChecked(false)) => (
            ExtensionView { phase: Phase::ReportingDownload, ..s },
            ActionView::Report(Status::Downloading),
        ),
        (Phase::ReportingDownload, EventView::Reported) => (
            ExtensionView { phase: Phase::Downloading, ..s },
            ActionView::Download {
                url: s.download_url,
                dir: s.version_dir,
                kind: archive_kind_spec(s.os),
            },
        ),
        (Phase::Downloading, EventView::Downloaded(Err(m))) => finish(
            s,
            Err(ErrorView::Download(m)),
        ),
        (Phase::Downloading, EventView::Downloaded(Ok(_))) => (
            ExtensionView { phase: Phase::MakingExecutable, ..s },
            ActionView::MakeExecutable(s.binary_path),
        ),
        (Phase::MakingExecutable, EventView::MadeExecutable(Err(m))) => finish(
            s,
            Err(ErrorView::MakeExecutable(m)),
        ),
        (Phase::MakingExecutable, EventView::MadeExecutable(Ok(_))) => (
            ExtensionView { phase: Phase::Listing, ..s },
            ActionView::ListDirectory,
        ),
        (Phase::Listing, EventView::Listed(Err(m))) => finish(s, Err(ErrorView::DirectoryList(m))),
        (Phase::Listing, EventView::Listed(Ok(names))) => (
            ExtensionView { phase: Phase::Removing, ..s },
            ActionView::RemoveEntries(stale_entries_spec(names, s.version_dir)),
        ),
        (Phase::Removing, EventView::Removed) => commit(s),
        // an event that the phase does not accept: `step` is never given one
        _ => (s, ActionView::ListDirectory),
    }
}

impl KclExtension {
    /// A resolver that remembers no path yet.
    pub fn new() -> (r: KclExtension)
        ensures
            r@.wf(),
            r@.cached is None,
            r@.phase == Phase::Idle,
    {
        KclExtension {
            cached_binary_path: None,
            os: Os::Linux,
            arch: Architecture::X86,
            phase: Phase::Idle,
            version_dir: String::new(),
            binary_path: String::new(),
            download_url: String::new(),
        }
    }

    /// Tells whether `step` takes this event now.
    pub fn accepts(&self, event: &Event) -> (r: bool)
        ensures
            r == accepts(self.phase, event@),
    {
        match self.phase {
            Phase::Idle => false,
            Phase::LookingUpPath => matches!(event, Event::PathFound(_)),
            Phase::CheckingCache | Phase::CheckingBinary => matches!(event, Event::FileChecked(_)),
            Phase::ReportingCheck | Phase::ReportingDownload => matches!(event, Event::Reported),
            Phase::FetchingRelease => matches!(event, Event::ReleaseFetched(_)),
            Phase::Downloading => matches!(event, Event::Downloaded(_)),
            Phase::MakingExecutable => matches!(event, Event::MadeExecutable(_)),
            Phase::Listing => matches!(event, Event::Listed(_)),
            Phase::Removing => matches!(event, Event::Removed),
        }
    }

    /// Starts a resolution on the platform `(os, arch)`, dropping any
    /// unfinished one; the remembered path is kept.
    pub fn begin(&mut self, os: Os, arch: Architecture) -> (r: Action)
        ensures
            final(self)@.wf(),
            (final(self)@, r@) == start(old(self)@, os, arch),
    {
        self.os = os;
        self.arch = arch;
        self.phase = Phase::LookingUpPath;
        Action::LookUpPath(String::from_str("kcl-language-server"))
    }

    fn finish(&mut self, r: Result<String, ResolveError>) -> (a: Action)
        ensures
            final(self)@ == (ExtensionView { phase: Phase::Idle, ..old(self)@ }),
            a == Action::Finish(r),
    {
        self.phase = Phase::Idle;
        Action::Finish(r)
    }

    fn commit(&mut self) -> (a: Action)
        ensures
            (final(self)@, a@) == commit(old(self)@),
    {
        self.phase = Phase::Idle;
        self.cached_binary_path = Some(self.binary_path.clone());
        Action::Finish(Ok(self.binary_path.clone()))
    }

    fn after_local_miss(&mut self) -> (a: Action)
        ensures
            (final(self)@, a@) == after_local_miss(old(self)@),
    {
        if self.arch == Architecture::X8664 {
            self.finish(Err(ResolveError::UnsupportedArchitecture(self.arch)))
        } else {
            self.phase = Phase::ReportingCheck;
            Action::Report(Status::CheckingForUpdate)
        }
    }

    fn after_release(&mut self, release: Release) -> (a: Action)
        ensures
            (final(self)@, a@) == after_release(old(self)@, release@),
    {
        let name = match asset_name(release.version.as_str(), self.os, self.arch) {
            Ok(n) => n,
            Err(e) => return self.finish(Err(e)),
        };
        let ghost assets = release@.assets;
        assert(assets == release.assets@.map_values(|a: crate::release::Asset| a@));
        match find_asset(&release.assets, &name) {
            None => self.finish(Err(ResolveError::AssetNotFound(name))),
            Some(i) => {
                proof {
                    lemma_first_named_unique(assets, name@, i as int);
                }
                let dir = version_dir(release.version.as_str());
                let bin = binary_path(dir.as_str());
                self.download_url = release.assets[i].download_url.clone();
                self.version_dir = dir;
                self.binary_path = bin.clone();
                self.phase = Phase::CheckingBinary;
                Action::CheckFile(bin)
            },
        }
    }

    /// Takes the outcome of the last action and returns the next one.
    pub fn step(&mut self, event: Event) -> (r: Action)
        requires
            old(self)@.wf(),
            accepts(old(self).phase, event@),
        ensures
            final(self)@.wf(),
            (final(self)@, r@) == next(old(self)@, event@),
    {
        match event {
            Event::PathFound(Some(p)) => self.finish(Ok(p)),
            Event::PathFound(None) => match &self.cached_binary_path {
                Some(c) => {
                    let a = Action::CheckFile(c.clone());
                    self.phase = Phase::CheckingCache;
                    a
                },
                None => self.after_local_miss(),
            },
            Event::FileChecked(exists) => {
                if self.phase == Phase::CheckingCache {
                    if exists {
                        let p = match &self.cached_binary_path {
                            Some(c) => c.clone(),
                            None => String::new(),
                        };
                        self.finish(Ok(p))
                    } else {
                        self.after_local_miss()
                    }
                } else if exists {
                    self.commit()
                } else {
                    self.phase = Phase::ReportingDownload;
                    Action::Report(Status::Downloading)
                }
            },
            Event::Reported => {
                if self.phase == Phase::ReportingCheck {
                    self.phase = Phase::FetchingRelease;
                    Action::FetchRelease(String::from_str("kcl-lang/kcl"))
                } else {
                    self.phase = Phase::Downloading;
                    Action::Download {
                        url: self.download_url.clone(),
                        dir: self.version_dir.clone(),
                        kind: archive_kind(self.os),
                    }
                }
            },
            Event::ReleaseFetched(Err(m)) => self.finish(Err(ResolveError::ReleaseLookup(m))),
            Event::ReleaseFetched(Ok(release)) => self.after_release(release),
            Event::Downloaded(Err(m)) => self.finish(Err(ResolveError::Download(m))),
            Event::Downloaded(Ok(())) => {
                self.phase = Phase::MakingExecutable;
                Action::MakeExecutable(self.binary_path.clone())
            },
            Event::MadeExecutable(Err(m)) => self.finish(Err(ResolveError::MakeExecutable(m))),
            Event::MadeExecutable(Ok(())) => {
                self.phase = Phase::Listing;
                Action::ListDirectory
            },
            Event::Listed(Err(m)) => self.finish(Err(ResolveError::DirectoryList(m))),
            Event::Listed(Ok(names)) => {
                let stale = stale_entries(&names, &self.version_dir);
                self.phase = Phase::Removing;
                Action::RemoveEntries(stale)
            },
            Event::Removed => self.commit(),
        }
    }
}

} // verus!
