use comrade::descriptor::PackageDescriptor;
use comrade::machine::{Action, ErrorKind, Event, Installer, Mode, Outcome, Package, select_mode};

fn desc(deps: &[&str], repository: &str, version: &str, download: bool) -> PackageDescriptor {
    PackageDescriptor {
        dependencies: deps.iter().map(|d| d.to_string()).collect(),
        language: "rust".to_string(),
        repository: repository.to_string(),
        capacity: 1024,
        version: version.to_string(),
        download,
    }
}

fn s(x: &str) -> String {
    x.to_string()
}

#[test]
fn end_to_end_build_with_dependency() {
    // Catalog: pkgA depends on pkgB; both are source builds.
    let desc_a = desc(&["pkgB"], "https://example.test/a.git", "1.0", false);
    let desc_b = desc(&[], "https://example.test/b.git", "0.3", false);

    let mut m: Installer = Package::install("pkgA", false);
    let a = m.step(Event::Start);
    assert_eq!(a, Action::ResolvePackage { name: s("pkgA") });
    // pkgA resolves; its dependency is dispatched before pkgA acquires.
    let a = m.step(Event::Resolved { found: true, descriptor: desc_a });
    assert_eq!(a, Action::ResolvePackage { name: s("pkgB") });
    // pkgB: full build cycle in its own staging directory.
    let a = m.step(Event::Resolved { found: true, descriptor: desc_b });
    assert_eq!(a, Action::ClearStaging { dir: s("build/pkgB") });
    let a = m.step(Event::StagingCleared);
    assert_eq!(
        a,
        Action::ClonePackage { repository: s("https://example.test/b.git"), dir: s("build/pkgB") }
    );
    let a = m.step(Event::CloneFinished { ok: true });
    assert_eq!(a, Action::ReadExeMarker { dir: s("build/pkgB") });
    let a = m.step(Event::MarkerRead { contents: None });
    assert_eq!(a, Action::CheckPresence { exe: s("pkgB"), on_search_path: true });
    let a = m.step(Event::PresenceChecked { present: false });
    // A dependency installs without a confirmation prompt.
    assert_eq!(a, Action::RunBuildScript { dir: s("build/pkgB") });
    let a = m.step(Event::BuildFinished { ok: true });
    assert_eq!(a, Action::MoveBinary { dir: s("build/pkgB"), exe: s("pkgB") });
    let a = m.step(Event::BinaryMoved);
    assert_eq!(a, Action::ClearStaging { dir: s("build/pkgB") });
    let a = m.step(Event::StagingCleared);
    assert_eq!(
        a,
        Action::WriteLog {
            name: s("pkgB"),
            exe: s("pkgB"),
            repository: s("https://example.test/b.git"),
            version: s("0.3"),
        }
    );
    // pkgB logged; only now does pkgA start acquiring, in the root staging.
    let a = m.step(Event::LogWritten);
    assert_eq!(a, Action::ClearStaging { dir: s("build") });
    let a = m.step(Event::StagingCleared);
    assert_eq!(
        a,
        Action::ClonePackage { repository: s("https://example.test/a.git"), dir: s("build") }
    );
    let a = m.step(Event::CloneFinished { ok: true });
    assert_eq!(a, Action::ReadExeMarker { dir: s("build") });
    let a = m.step(Event::MarkerRead { contents: None });
    assert_eq!(a, Action::CheckPresence { exe: s("pkgA"), on_search_path: false });
    let a = m.step(Event::PresenceChecked { present: false });
    // The root invocation asks for confirmation.
    assert_eq!(a, Action::AskConfirmation { name: s("pkgA") });
    let a = m.step(Event::ConfirmAnswer { answer: s("y") });
    assert_eq!(a, Action::RunBuildScript { dir: s("build") });
    let a = m.step(Event::BuildFinished { ok: true });
    assert_eq!(a, Action::MoveBinary { dir: s("build"), exe: s("pkgA") });
    let a = m.step(Event::BinaryMoved);
    assert_eq!(a, Action::ClearStaging { dir: s("build") });
    let a = m.step(Event::StagingCleared);
    assert_eq!(
        a,
        Action::WriteLog {
            name: s("pkgA"),
            exe: s("pkgA"),
            repository: s("https://example.test/a.git"),
            version: s("1.0"),
        }
    );
    let a = m.step(Event::LogWritten);
    assert_eq!(a, Action::Finished { outcome: Outcome::Installed });
}

#[test]
fn dependency_order_is_declared_order() {
    let desc_a = desc(&["d1", "d2"], "https://example.test/a.git", "1.0", false);

    let mut m = Package::install("pkgA", false);
    m.step(Event::Start);
    let a = m.step(Event::Resolved { found: true, descriptor: desc_a });
    assert_eq!(a, Action::ResolvePackage { name: s("d1") });
    // d1 runs to completion first (depth-first), ...
    m.step(Event::Resolved {
        found: true,
        descriptor: desc(&[], "https://example.test/d.git", "0.1", false),
    });
    m.step(Event::StagingCleared);
    m.step(Event::CloneFinished { ok: true });
    m.step(Event::MarkerRead { contents: None });
    m.step(Event::PresenceChecked { present: false });
    m.step(Event::BuildFinished { ok: true });
    m.step(Event::BinaryMoved);
    m.step(Event::StagingCleared);
    // ... then d2 is dispatched, and only after d2 does pkgA itself stage.
    let a = m.step(Event::LogWritten);
    assert_eq!(a, Action::ResolvePackage { name: s("d2") });
    let a = m.step(Event::Resolved {
        found: true,
        descriptor: desc(&[], "https://example.test/d.git", "0.1", false),
    });
    assert_eq!(a, Action::ClearStaging { dir: s("build/d2") });
}

#[test]
fn presence_short_circuit_writes_no_log() {
    // Root install, no force: the executable is already in the binary
    // directory, so after the clone the machine only cleans up.
    let d = desc(&[], "https://example.test/p.git", "2.0", false);
    let mut m = Package::install("pkg", false);
    m.step(Event::Start);
    m.step(Event::Resolved { found: true, descriptor: d });
    m.step(Event::StagingCleared);
    m.step(Event::CloneFinished { ok: true });
    let a = m.step(Event::MarkerRead { contents: None });
    assert_eq!(a, Action::CheckPresence { exe: s("pkg"), on_search_path: false });
    let a = m.step(Event::PresenceChecked { present: true });
    assert_eq!(a, Action::ClearStaging { dir: s("build") });
    let a = m.step(Event::StagingCleared);
    // No build, no move, no log entry: the run ends at once.
    assert_eq!(a, Action::Finished { outcome: Outcome::AlreadyInstalled });
}

#[test]
fn force_source_bypasses_short_circuit_and_prompt() {
    let d = desc(&[], "https://example.test/p.git", "2.0", false);
    let mut m = Package::install("pkg", true);
    m.step(Event::Start);
    m.step(Event::Resolved { found: true, descriptor: d });
    m.step(Event::StagingCleared);
    m.step(Event::CloneFinished { ok: true });
    m.step(Event::MarkerRead { contents: None });
    // Present, but the forced reinstall proceeds straight to the build,
    // with no confirmation prompt.
    let a = m.step(Event::PresenceChecked { present: true });
    assert_eq!(a, Action::RunBuildScript { dir: s("build") });
}

#[test]
fn mode_selection() {
    assert_eq!(select_mode(true, false, false), Mode::Build);
    assert_eq!(select_mode(true, false, true), Mode::Build);
    assert_eq!(select_mode(true, true, false), Mode::Fetch);
    assert_eq!(select_mode(false, true, false), Mode::Fetch);
    assert_eq!(select_mode(true, true, true), Mode::Build);
    assert_eq!(select_mode(false, false, false), Mode::Skip);
    assert_eq!(select_mode(false, false, true), Mode::Skip);
}

#[test]
fn soft_dependency_is_a_silent_noop() {
    // pkgA depends on "ghost", which is not in the catalog and not
    // fetchable: no error, no staging for ghost, no log entry; pkgA
    // simply moves on to its own acquisition.
    let desc_a = desc(&["ghost"], "https://example.test/a.git", "1.0", false);
    let ghost = desc(&[], "", "0.0", false);
    let mut m = Package::install("pkgA", false);
    m.step(Event::Start);
    let a = m.step(Event::Resolved { found: true, descriptor: desc_a });
    assert_eq!(a, Action::ResolvePackage { name: s("ghost") });
    let a = m.step(Event::Resolved { found: false, descriptor: ghost });
    assert_eq!(a, Action::ClearStaging { dir: s("build") });
}

#[test]
fn root_not_found_finishes_quietly() {
    let ghost = desc(&[], "", "0.0", false);
    let mut m = Package::install("ghost", false);
    m.step(Event::Start);
    let a = m.step(Event::Resolved { found: false, descriptor: ghost });
    assert_eq!(a, Action::Finished { outcome: Outcome::NotFound });
}

#[test]
fn dependency_sentinel_means_no_dependencies() {
    // A dependency list holding one empty name is defensive metadata for
    // "no dependencies": acquisition starts at once.
    let d = desc(&[""], "https://example.test/p.git", "1.0", false);
    let mut m = Package::install("pkg", false);
    m.step(Event::Start);
    let a = m.step(Event::Resolved { found: true, descriptor: d });
    assert_eq!(a, Action::ClearStaging { dir: s("build") });
}

#[test]
fn fetch_path_end_to_end() {
    let d = desc(&[], "https://example.test/t.git", "3.1", true);
    let mut m = Package::install("tool", false);
    m.step(Event::Start);
    let a = m.step(Event::Resolved { found: true, descriptor: d });
    assert_eq!(a, Action::ResolveFetchExeName { name: s("tool") });
    let a = m.step(Event::ExeNameResolved { name: Some(s("tool-bin")) });
    assert_eq!(a, Action::CheckPresence { exe: s("tool-bin"), on_search_path: false });
    let a = m.step(Event::PresenceChecked { present: false });
    assert_eq!(a, Action::AskConfirmation { name: s("tool") });
    let a = m.step(Event::ConfirmAnswer { answer: s("") });
    assert_eq!(a, Action::DownloadAndUnpack { name: s("tool"), exe: s("tool-bin") });
    let a = m.step(Event::Downloaded { ok: true });
    assert_eq!(
        a,
        Action::WriteLog {
            name: s("tool"),
            exe: s("tool-bin"),
            repository: s("https://example.test/t.git"),
            version: s("3.1"),
        }
    );
    let a = m.step(Event::LogWritten);
    assert_eq!(a, Action::Finished { outcome: Outcome::Installed });
}

#[test]
fn fetch_presence_short_circuit() {
    let d = desc(&[], "https://example.test/t.git", "3.1", true);
    let mut m = Package::install("tool", false);
    m.step(Event::Start);
    m.step(Event::Resolved { found: true, descriptor: d });
    m.step(Event::ExeNameResolved { name: Some(s("tool-bin")) });
    let a = m.step(Event::PresenceChecked { present: true });
    assert_eq!(a, Action::Finished { outcome: Outcome::AlreadyInstalled });
}

#[test]
fn declined_confirmation_cleans_up() {
    let d = desc(&[], "https://example.test/p.git", "1.0", false);
    let mut m = Package::install("pkg", false);
    m.step(Event::Start);
    m.step(Event::Resolved { found: true, descriptor: d });
    m.step(Event::StagingCleared);
    m.step(Event::CloneFinished { ok: true });
    m.step(Event::MarkerRead { contents: None });
    m.step(Event::PresenceChecked { present: false });
    let a = m.step(Event::ConfirmAnswer { answer: s("n") });
    assert_eq!(a, Action::ClearStaging { dir: s("build") });
    let a = m.step(Event::StagingCleared);
    assert_eq!(a, Action::Finished { outcome: Outcome::Declined });
}

#[test]
fn clone_failure_clears_staging_then_stops() {
    let d = desc(&[], "https://example.test/p.git", "1.0", false);
    let mut m = Package::install("pkg", false);
    m.step(Event::Start);
    m.step(Event::Resolved { found: true, descriptor: d });
    m.step(Event::StagingCleared);
    let a = m.step(Event::CloneFinished { ok: false });
    assert_eq!(a, Action::ClearStaging { dir: s("build") });
    let a = m.step(Event::StagingCleared);
    assert_eq!(a, Action::Failed { error: ErrorKind::CloneFailed });
}

#[test]
fn build_failure_clears_staging_then_stops() {
    let d = desc(&[], "https://example.test/p.git", "1.0", false);
    let mut m = Package::install("pkg", true);
    m.step(Event::Start);
    m.step(Event::Resolved { found: true, descriptor: d });
    m.step(Event::StagingCleared);
    m.step(Event::CloneFinished { ok: true });
    m.step(Event::MarkerRead { contents: None });
    m.step(Event::PresenceChecked { present: false });
    let a = m.step(Event::BuildFinished { ok: false });
    assert_eq!(a, Action::ClearStaging { dir: s("build") });
    let a = m.step(Event::StagingCleared);
    assert_eq!(a, Action::Failed { error: ErrorKind::BuildFailed });
}

#[test]
fn self_dependency_is_a_cycle() {
    let d = desc(&["pkg"], "https://example.test/p.git", "1.0", false);
    let mut m = Package::install("pkg", false);
    m.step(Event::Start);
    let a = m.step(Event::Resolved { found: true, descriptor: d });
    assert_eq!(a, Action::Failed { error: ErrorKind::CycleDetected });
}

#[test]
fn marker_overrides_executable_name() {
    let d = desc(&[], "https://example.test/p.git", "1.0", false);
    let mut m = Package::install("pkg", false);
    m.step(Event::Start);
    m.step(Event::Resolved { found: true, descriptor: d });
    m.step(Event::StagingCleared);
    m.step(Event::CloneFinished { ok: true });
    let a = m.step(Event::MarkerRead { contents: Some(s("foo\n")) });
    assert_eq!(a, Action::CheckPresence { exe: s("foo"), on_search_path: false });
}

#[test]
fn dependency_install_entry_point() {
    // The dependency entry point: silent, forced source build, probed on
    // the search path, but still short-circuited when already present.
    let d = desc(&[], "https://example.test/p.git", "1.0", false);
    let mut m = Package::install_for_dependence("pkg");
    m.step(Event::Start);
    m.step(Event::Resolved { found: true, descriptor: d });
    m.step(Event::StagingCleared);
    m.step(Event::CloneFinished { ok: true });
    let a = m.step(Event::MarkerRead { contents: None });
    assert_eq!(a, Action::CheckPresence { exe: s("pkg"), on_search_path: true });
    let a = m.step(Event::PresenceChecked { present: true });
    assert_eq!(a, Action::ClearStaging { dir: s("build/pkg") });
    let a = m.step(Event::StagingCleared);
    assert_eq!(a, Action::Finished { outcome: Outcome::AlreadyInstalled });
}

#[test]
fn unexpected_event_stops_the_run() {
    let mut m = Package::install("pkg", false);
    let a = m.step(Event::LogWritten);
    assert_eq!(a, Action::Failed { error: ErrorKind::ProtocolViolation });
}

#[test]
fn resolve_failure_is_fatal() {
    let mut m = Package::install("pkg", false);
    m.step(Event::Start);
    let a = m.step(Event::ResolveFailed);
    assert_eq!(a, Action::Failed { error: ErrorKind::CatalogUnreadable });
}
