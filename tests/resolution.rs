use kcl_resolver::error::ResolveError;
use kcl_resolver::platform::{Architecture, ArchiveKind, Os};
use kcl_resolver::release::{Asset, Release};
use kcl_resolver::resolver::{Action, Event, KclExtension, Phase, Status};

fn release(version: &str, names: &[&str]) -> Release {
    Release {
        version: version.to_string(),
        assets: names
            .iter()
            .map(|n| Asset { name: n.to_string(), download_url: format!("https://dl.invalid/{n}") })
            .collect(),
    }
}

fn step(ext: &mut KclExtension, event: Event) -> Action {
    assert!(ext.accepts(&event), "event {event:?} not accepted in {:?}", ext.phase);
    ext.step(event)
}

fn finished(action: Action) -> Result<String, ResolveError> {
    match action {
        Action::Finish(r) => r,
        other => panic!("expected the end, got {other:?}"),
    }
}

/// Runs a resolution up to the release lookup with nothing found locally.
fn up_to_release(ext: &mut KclExtension, os: Os, arch: Architecture) {
    assert!(matches!(ext.begin(os, arch), Action::LookUpPath(n) if n == "kcl-language-server"));
    assert!(matches!(step(ext, Event::PathFound(None)), Action::Report(Status::CheckingForUpdate)));
    assert!(matches!(step(ext, Event::Reported), Action::FetchRelease(r) if r == "kcl-lang/kcl"));
}

#[test]
fn path_hit_returns_without_reporting() {
    let mut ext = KclExtension::new();
    ext.begin(Os::Linux, Architecture::X86);
    let r = finished(step(&mut ext, Event::PathFound(Some("/usr/bin/kcl-language-server".to_string()))));
    assert_eq!(r.unwrap(), "/usr/bin/kcl-language-server");
    assert_eq!(ext.phase, Phase::Idle);
    assert!(ext.cached_binary_path.is_none());
}

#[test]
fn path_hit_wins_on_x86_64() {
    let mut ext = KclExtension::new();
    ext.begin(Os::Linux, Architecture::X8664);
    let r = finished(step(&mut ext, Event::PathFound(Some("/opt/kcl".to_string()))));
    assert_eq!(r.unwrap(), "/opt/kcl");
}

#[test]
fn x86_64_fails_before_any_network_action() {
    let mut ext = KclExtension::new();
    ext.begin(Os::Mac, Architecture::X8664);
    match finished(step(&mut ext, Event::PathFound(None))) {
        Err(ResolveError::UnsupportedArchitecture(Architecture::X8664)) => {}
        other => panic!("unexpected {other:?}"),
    }
}

#[test]
fn fresh_install_then_cache_hit() {
    let mut ext = KclExtension::new();
    up_to_release(&mut ext, Os::Mac, Architecture::Aarch64);
    let rel = release("1.2.0", &["kclvm-1.2.0-linux-amd64.tar.gz", "kclvm-1.2.0-darwin-arm64.tar.gz"]);
    let bin = "kcl-language-server-1.2.0/kclvm/bin/kcl-language-server";
    assert!(matches!(step(&mut ext, Event::ReleaseFetched(Ok(rel))), Action::CheckFile(p) if p == bin));
    assert!(matches!(step(&mut ext, Event::FileChecked(false)), Action::Report(Status::Downloading)));
    match step(&mut ext, Event::Reported) {
        Action::Download { url, dir, kind } => {
            assert_eq!(url, "https://dl.invalid/kclvm-1.2.0-darwin-arm64.tar.gz");
            assert_eq!(dir, "kcl-language-server-1.2.0");
            assert_eq!(kind, ArchiveKind::GzipTar);
        }
        other => panic!("unexpected {other:?}"),
    }
    assert!(matches!(step(&mut ext, Event::Downloaded(Ok(()))), Action::MakeExecutable(p) if p == bin));
    assert!(matches!(step(&mut ext, Event::MadeExecutable(Ok(()))), Action::ListDirectory));
    let listing = vec![
        "kcl-language-server-1.0.0".to_string(),
        "kcl-language-server-1.2.0".to_string(),
        "kcl-language-server-1.1.0".to_string(),
    ];
    match step(&mut ext, Event::Listed(Ok(listing))) {
        Action::RemoveEntries(stale) => {
            assert_eq!(stale, vec!["kcl-language-server-1.0.0", "kcl-language-server-1.1.0"]);
        }
        other => panic!("unexpected {other:?}"),
    }
    assert_eq!(finished(step(&mut ext, Event::Removed)).unwrap(), bin);
    assert_eq!(ext.cached_binary_path.as_deref(), Some(bin));

    // a second resolution finds the remembered file
    ext.begin(Os::Mac, Architecture::Aarch64);
    assert!(matches!(step(&mut ext, Event::PathFound(None)), Action::CheckFile(p) if p == bin));
    assert_eq!(finished(step(&mut ext, Event::FileChecked(true))).unwrap(), bin);
}

#[test]
fn stale_cache_goes_on_to_release_lookup() {
    let mut ext = KclExtension::new();
    ext.cached_binary_path = Some("gone/kcl-language-server".to_string());
    ext.begin(Os::Linux, Architecture::X86);
    assert!(matches!(step(&mut ext, Event::PathFound(None)), Action::CheckFile(p) if p == "gone/kcl-language-server"));
    assert!(matches!(step(&mut ext, Event::FileChecked(false)), Action::Report(Status::CheckingForUpdate)));
    assert!(matches!(step(&mut ext, Event::Reported), Action::FetchRelease(_)));
}

#[test]
fn unpacked_binary_skips_download() {
    let mut ext = KclExtension::new();
    up_to_release(&mut ext, Os::Windows, Architecture::X86);
    let rel = release("2.0.0", &["kclvm-2.0.0-windows.zip"]);
    let bin = "kcl-language-server-2.0.0/kclvm/bin/kcl-language-server";
    assert!(matches!(step(&mut ext, Event::ReleaseFetched(Ok(rel))), Action::CheckFile(p) if p == bin));
    assert_eq!(finished(step(&mut ext, Event::FileChecked(true))).unwrap(), bin);
    assert_eq!(ext.cached_binary_path.as_deref(), Some(bin));
}

#[test]
fn windows_download_is_zip() {
    let mut ext = KclExtension::new();
    up_to_release(&mut ext, Os::Windows, Architecture::Aarch64);
    step(&mut ext, Event::ReleaseFetched(Ok(release("2.0.0", &["kclvm-2.0.0-windows.zip"]))));
    step(&mut ext, Event::FileChecked(false));
    match step(&mut ext, Event::Reported) {
        Action::Download { url, dir, kind } => {
            assert_eq!(url, "https://dl.invalid/kclvm-2.0.0-windows.zip");
            assert_eq!(dir, "kcl-language-server-2.0.0");
            assert_eq!(kind, ArchiveKind::Zip);
        }
        other => panic!("unexpected {other:?}"),
    }
}

#[test]
fn missing_asset_names_the_searched_file() {
    let mut ext = KclExtension::new();
    up_to_release(&mut ext, Os::Mac, Architecture::X86);
    let rel = release("1.2.0", &["kclvm-1.2.0-darwin-arm64.tar.gz"]);
    match finished(step(&mut ext, Event::ReleaseFetched(Ok(rel)))) {
        Err(ResolveError::AssetNotFound(n)) => assert_eq!(n, "kclvm-1.2.0-darwin-amd64.tar.gz"),
        other => panic!("unexpected {other:?}"),
    }
    assert_eq!(ext.phase, Phase::Idle);
}

#[test]
fn release_lookup_error() {
    let mut ext = KclExtension::new();
    up_to_release(&mut ext, Os::Linux, Architecture::X86);
    match finished(step(&mut ext, Event::ReleaseFetched(Err("rate limited".to_string())))) {
        Err(ResolveError::ReleaseLookup(m)) => assert_eq!(m, "rate limited"),
        other => panic!("unexpected {other:?}"),
    }
}

fn up_to_download(ext: &mut KclExtension) {
    up_to_release(ext, Os::Linux, Architecture::X86);
    step(ext, Event::ReleaseFetched(Ok(release("1.0.0", &["kclvm-1.0.0-linux-amd64.tar.gz"]))));
    step(ext, Event::FileChecked(false));
    assert!(matches!(step(ext, Event::Reported), Action::Download { .. }));
}

#[test]
fn download_error() {
    let mut ext = KclExtension::new();
    up_to_download(&mut ext);
    match finished(step(&mut ext, Event::Downloaded(Err("timeout".to_string())))) {
        Err(ResolveError::Download(m)) => assert_eq!(m, "timeout"),
        other => panic!("unexpected {other:?}"),
    }
    assert!(ext.cached_binary_path.is_none());
}

#[test]
fn make_executable_error() {
    let mut ext = KclExtension::new();
    up_to_download(&mut ext);
    step(&mut ext, Event::Downloaded(Ok(())));
    match finished(step(&mut ext, Event::MadeExecutable(Err("denied".to_string())))) {
        Err(ResolveError::MakeExecutable(m)) => assert_eq!(m, "denied"),
        other => panic!("unexpected {other:?}"),
    }
}

#[test]
fn directory_list_error() {
    let mut ext = KclExtension::new();
    up_to_download(&mut ext);
    step(&mut ext, Event::Downloaded(Ok(())));
    step(&mut ext, Event::MadeExecutable(Ok(())));
    match finished(step(&mut ext, Event::Listed(Err("unreadable".to_string())))) {
        Err(ResolveError::DirectoryList(m)) => assert_eq!(m, "unreadable"),
        other => panic!("unexpected {other:?}"),
    }
    assert!(ext.cached_binary_path.is_none());
}

#[test]
fn events_out_of_turn_are_refused() {
    let mut ext = KclExtension::new();
    assert!(!ext.accepts(&Event::Reported));
    ext.begin(Os::Linux, Architecture::X86);
    assert!(!ext.accepts(&Event::Removed));
    assert!(ext.accepts(&Event::PathFound(None)));
}
