use vstd::prelude::*;

use crate::error::ErrorView;
use crate::install::{other_than, stale_entries_spec};
use crate::platform::{expected_asset_name, Architecture, Os};
use crate::resolver::{next, start, upstream_repo, ActionView, EventView, ExtensionView, Phase, Status};

verus! {

/// Whether an action reaches the network or reports progress to the host.
pub open spec fn is_outward(a: ActionView) -> bool {
    a is Report || a is FetchRelease || a is Download
}

/// The phases in which a resolution has not yet reached the network.
pub open spec fn is_local_phase(p: Phase) -> bool {
    p == Phase::Idle || p == Phase::LookingUpPath || p == Phase::CheckingCache
}

/// On a supported architecture the archive name is a function of the
/// version and the platform alone: equal inputs give one and the same name.
pub proof fn asset_name_is_determined(v1: Seq<char>, v2: Seq<char>, os: Os, arch: Architecture)
    requires
        v1 == v2,
        arch != Architecture::X8664,
    ensures
        expected_asset_name(v1, os, arch) is Some,
        expected_asset_name(v1, os, arch) == expected_asset_name(v2, os, arch),
{
}

/// On Windows the archive name does not depend on the architecture token:
/// every supported architecture gets `kclvm-<version>-windows.zip`.
pub proof fn windows_name_ignores_arch(version: Seq<char>, arch: Architecture)
    requires
        arch != Architecture::X8664,
    ensures
        expected_asset_name(version, Os::Windows, arch) == Some(
            "kclvm-"@ + version + "-"@ + "windows"@ + ".zip"@,
        ),
        expected_asset_name(version, Os::Windows, arch) == expected_asset_name(
            version,
            Os::Windows,
            Architecture::Aarch64,
        ),
{
}

/// An `x86_64` host has no archive name on any operating system.
pub proof fn x86_64_has_no_asset(version: Seq<char>, os: Os)
    ensures
        expected_asset_name(version, os, Architecture::X8664) is None,
{
}

/// A resolution on an `x86_64` host never leaves the local phases: no step
/// reports progress or reaches the network, and a local miss ends it with
/// the unsupported-architecture error.
pub proof fn x86_64_stays_local(s: ExtensionView, e: EventView)
    requires
        s.arch == Architecture::X8664,
        is_local_phase(s.phase),
        s.phase != Phase::Idle,
    ensures
        is_local_phase(next(s, e).0.phase),
        !is_outward(next(s, e).1),
        next(s, e).0.phase == Phase::Idle && next(s, e).1 is Finish && next(s, e).1->Finish_0
            is Err ==> next(s, e).1 == ActionView::Finish(
            Err(ErrorView::UnsupportedArchitecture(Architecture::X8664)),
        ),
{
}

/// Every resolution starts in a local phase.
pub proof fn resolution_starts_locally(s: ExtensionView, os: Os, arch: Architecture)
    ensures
        start(s, os, arch).0.phase == Phase::LookingUpPath,
        !is_outward(start(s, os, arch).1),
{
}

/// A hit on the search path ends the resolution with that path, without
/// reporting, fetching or touching the remembered path.
pub proof fn path_hit_returns_at_once(s: ExtensionView, p: Seq<char>)
    requires
        s.phase == Phase::LookingUpPath,
    ensures
        next(s, EventView::PathFound(Some(p))).1 == ActionView::Finish(Ok(p)),
        next(s, EventView::PathFound(Some(p))).0.phase == Phase::Idle,
        next(s, EventView::PathFound(Some(p))).0.cached == s.cached,
{
}

/// With no hit on the search path, a remembered path that still names a
/// file is returned as it is, without reporting or fetching.
pub proof fn cache_hit_returns_cached(s: ExtensionView, c: Seq<char>)
    requires
        s.phase == Phase::LookingUpPath,
        s.cached == Some(c),
    ensures
        next(s, EventView::PathFound(None)).1 == ActionView::CheckFile(c),
        next(next(s, EventView::PathFound(None)).0, EventView::FileChecked(true)).1
            == ActionView::Finish(Ok(c)),
        next(next(s, EventView::PathFound(None)).0, EventView::FileChecked(true)).0.cached == Some(
            c,
        ),
{
}

/// A remembered path whose file is gone is no error: on a supported
/// architecture the resolver goes on to look for a release.
pub proof fn stale_cache_goes_to_release(s: ExtensionView)
    requires
        s.phase == Phase::CheckingCache,
        s.arch != Architecture::X8664,
    ensures
        next(s, EventView::FileChecked(false)).1 == ActionView::Report(Status::CheckingForUpdate),
        next(next(s, EventView::FileChecked(false)).0, EventView::Reported).1
            == ActionView::FetchRelease(upstream_repo()),
{
}

/// A binary already unpacked at the version path is not downloaded again:
/// it is remembered and returned.
pub proof fn unpacked_binary_is_reused(s: ExtensionView)
    requires
        s.phase == Phase::CheckingBinary,
    ensures
        next(s, EventView::FileChecked(true)).1 == ActionView::Finish(Ok(s.binary_path)),
        next(s, EventView::FileChecked(true)).0.cached == Some(s.binary_path),
        next(s, EventView::FileChecked(true)).0.phase == Phase::Idle,
{
}

/// After a fresh install the resolver removes every entry of the working
/// directory but the current version directory, which it keeps: once the
/// removals are done, no other entry remains.
pub proof fn cleanup_leaves_only_version_dir(s: ExtensionView, names: Seq<Seq<char>>)
    requires
        s.phase == Phase::Listing,
    ensures
        next(s, EventView::Listed(Ok(names))).1 == ActionView::RemoveEntries(
            stale_entries_spec(names, s.version_dir),
        ),
        !stale_entries_spec(names, s.version_dir).contains(s.version_dir),
        forall|n: Seq<char>|
            names.contains(n) && !stale_entries_spec(names, s.version_dir).contains(n) ==> n
                == s.version_dir,
        forall|n: Seq<char>| stale_entries_spec(names, s.version_dir).contains(n) ==> names.contains(n),
{
    let pred = other_than(s.version_dir);
    broadcast use vstd::seq_lib::group_filter_ensures;


    assert forall|n: Seq<char>|
        names.contains(n) && !stale_entries_spec(names, s.version_dir).contains(n) implies n
        == s.version_dir by {
        if n != s.version_dir {
            let i = choose|i: int| 0 <= i < names.len() && names[i] == n;
            names.lemma_filter_contains(pred, i);
        }
    }
    assert forall|n: Seq<char>| stale_entries_spec(names, s.version_dir).contains(n) implies names.contains(n) by {
        names.lemma_filter_contains_rev(pred, n);
    }
}

} // verus!
