//! The install orchestrator: an event-driven state machine.
//!
//! One [`Installer`] walks a package and its dependency tree depth-first,
//! in declared order. Each call of [`Installer::step`] consumes the outcome
//! of the previous external operation (an [`Event`]) and returns the next
//! operation to perform (an [`Action`]). The machine holds an explicit
//! stack of frames, one per package install in progress; a dependency is
//! pushed on top of its parent and must finish before the parent goes on.
//! Every transition is pinned by [`step_spec`].

use vstd::prelude::*;
use crate::descriptor::{PackageDescriptor, effective_deps};
use crate::naming::{affirmative, is_affirmative, program_name_of, staging_dir_of, staging_dir_name,
    get_program_name};

verus! {

/// How one package is acquired, selected per package from the catalog-found
/// signal, the descriptor's download flag, and the force-source override.
#[derive(Debug, PartialEq, Eq, Clone, Copy)]
pub enum Mode {
    /// Clone the source repository and run its build script.
    Build,
    /// Download a prebuilt archive and unpack it.
    Fetch,
    /// Not in the catalog and not fetchable: a silent no-op.
    Skip,
}

/// The acquisition mode for a package.
pub open spec fn mode_of(catalog_found: bool, download: bool, force_source: bool) -> Mode {
    if (catalog_found && !download) || (download && force_source) {
        Mode::Build
    } else if download {
        Mode::Fetch
    } else {
        Mode::Skip
    }
}

/// Selects the acquisition mode for a package.
pub fn select_mode(catalog_found: bool, download: bool, force_source: bool) -> (m: Mode)
    ensures
        m == mode_of(catalog_found, download, force_source),
{
    if (catalog_found && !download) || (download && force_source) {
        Mode::Build
    } else if download {
        Mode::Fetch
    } else {
        Mode::Skip
    }
}

/// A fatal condition: the run stops and the caller reports it.
#[derive(Debug, PartialEq, Eq, Clone, Copy)]
pub enum ErrorKind {
    /// The catalog entry or its metadata file could not be read or parsed.
    CatalogUnreadable,
    /// Cloning the source repository failed.
    CloneFailed,
    /// The build script exited with a nonzero status.
    BuildFailed,
    /// Downloading or unpacking the prebuilt archive failed, or its
    /// executable name could not be resolved.
    DownloadFailed,
    /// A dependency chain reached a package that is already being installed.
    CycleDetected,
    /// The caller handed the machine an event it was not waiting for.
    ProtocolViolation,
}

/// How one package install ended.
#[derive(Debug, PartialEq, Eq, Clone, Copy)]
pub enum Outcome {
    /// The package was acquired and logged.
    Installed,
    /// The executable was already present; nothing was done.
    AlreadyInstalled,
    /// The package is not in the catalog and not fetchable; nothing was done.
    NotFound,
    /// The user declined the confirmation prompt.
    Declined,
}

/// What the caller reports back to the machine after each operation.
#[derive(Debug)]
pub enum Event {
    /// Begin the run; only valid as the first event.
    Start,
    /// Metadata lookup finished: whether the catalog holds a directory
    /// entry for the package, and its parsed descriptor.
    Resolved { found: bool, descriptor: PackageDescriptor },
    /// The catalog entry or its metadata could not be read or parsed.
    ResolveFailed,
    /// The requested staging directory no longer exists.
    StagingCleared,
    /// The clone of the source repository finished.
    CloneFinished { ok: bool },
    /// The optional executable-name marker was read from the cloned tree.
    MarkerRead { contents: Option<String> },
    /// The presence probe for the executable finished.
    PresenceChecked { present: bool },
    /// The user answered the confirmation prompt.
    ConfirmAnswer { answer: String },
    /// The build script exited.
    BuildFinished { ok: bool },
    /// The produced binary was moved into the binary directory.
    BinaryMoved,
    /// The install-log entry was appended.
    LogWritten,
    /// The fetch-specific executable name was resolved, if possible.
    ExeNameResolved { name: Option<String> },
    /// The archive download-and-unpack finished.
    Downloaded { ok: bool },
}

/// The next operation the caller must perform. Directories are relative to
/// the tool's home directory.
#[derive(Debug, PartialEq, Eq)]
pub enum Action {
    /// Look the package up in the catalog and parse its descriptor.
    ResolvePackage { name: String },
    /// Remove the staging directory if it exists.
    ClearStaging { dir: String },
    /// Clone the repository into the staging directory.
    ClonePackage { repository: String, dir: String },
    /// Read the optional executable-name marker inside the cloned tree.
    ReadExeMarker { dir: String },
    /// Probe whether the executable is already installed: on the command
    /// search path for a dependency, in the binary directory for the root.
    CheckPresence { exe: String, on_search_path: bool },
    /// Ask the user to confirm installing the package.
    AskConfirmation { name: String },
    /// Run the staged build script with the staging directory as its
    /// working directory.
    RunBuildScript { dir: String },
    /// Move the produced executable from staging into the binary directory.
    MoveBinary { dir: String, exe: String },
    /// Append one install record to the log.
    WriteLog { name: String, exe: String, repository: String, version: String },
    /// Resolve the fetch-specific executable name for the package.
    ResolveFetchExeName { name: String },
    /// Download the prebuilt archive and unpack it into the binary
    /// directory.
    DownloadAndUnpack { name: String, exe: String },
    /// The whole run finished; `outcome` is the root package's outcome.
    Finished { outcome: Outcome },
    /// The run stopped on a fatal condition.
    Failed { error: ErrorKind },
}

/// Where one package install stands; each variant waits for one event.
#[derive(Debug)]
pub enum Phase {
    /// Waiting for the catalog lookup.
    Resolve,
    /// Installing the dependencies; `next` counts how many were dispatched.
    InstallDeps { desc: PackageDescriptor, fetch: bool, next: usize },
    /// Build path: waiting for the pre-clone staging clearance.
    ClearBefore { desc: PackageDescriptor },
    /// Waiting for the clone to finish.
    Cloning { desc: PackageDescriptor },
    /// The clone failed; waiting for staging clearance before stopping.
    ClearAfterCloneFail,
    /// Waiting for the executable-name marker.
    ReadingMarker { desc: PackageDescriptor },
    /// Waiting for the presence probe.
    CheckingPresence { desc: PackageDescriptor, exe: String },
    /// Already installed; waiting for staging clearance before finishing.
    ClearAfterAbort,
    /// Waiting for the confirmation answer (root invocations only).
    Confirming { desc: PackageDescriptor, exe: String },
    /// Declined; waiting for staging clearance before finishing.
    ClearAfterDecline,
    /// Waiting for the build script.
    Building { desc: PackageDescriptor, exe: String },
    /// The build script failed; waiting for staging clearance before
    /// stopping.
    ClearAfterBuildFail,
    /// Waiting for the binary move.
    Moving { desc: PackageDescriptor, exe: String },
    /// Waiting for the post-build staging clearance.
    ClearAfterMove { desc: PackageDescriptor, exe: String },
    /// Waiting for the log entry.
    Logging,
    /// Fetch path: waiting for the fetch-specific executable name.
    FetchResolvingExe { desc: PackageDescriptor },
    /// Fetch path: waiting for the presence probe.
    FetchCheckingPresence { desc: PackageDescriptor, exe: String },
    /// Fetch path: waiting for the confirmation answer (root only).
    FetchConfirming { desc: PackageDescriptor, exe: String },
    /// Waiting for the archive download-and-unpack.
    Downloading { desc: PackageDescriptor, exe: String },
}

/// One package install in progress.
#[derive(Debug)]
pub struct Frame {
    /// The package name.
    pub name: String,
    /// Whether this is the root invocation (interactive, binary-directory
    /// presence probe) or a dependency (silent, search-path probe).
    pub is_root: bool,
    /// Whether a source build is forced, bypassing the already-installed
    /// short-circuit at the root.
    pub force: bool,
    /// What the frame waits for.
    pub phase: Phase,
}

/// The orchestrator: a stack of frames, the root at the bottom.
#[derive(Debug)]
pub struct Installer {
    pub frames: Vec<Frame>,
    pub started: bool,
}

/// Whether some frame on the stack installs `name`.
pub open spec fn name_on_stack(frames: Seq<Frame>, name: Seq<char>) -> bool {
    exists|i: int| #![auto] 0 <= i < frames.len() && frames[i].name@ == name
}

fn contains_name(frames: &Vec<Frame>, name: &str) -> (r: bool)
    ensures
        r == name_on_stack(frames@, name@),
{
    let target: String = name.to_owned();
    let n = frames.len();
    let mut k: usize = 0;
    while k < n
        invariant
            0 <= k <= n,
            n == frames@.len(),
            target@ == name@,
            forall|i: int| #![auto] 0 <= i < k ==> frames@[i].name@ != name@,
        decreases n - k,
    {
        if frames[k].name == target {
            proof {
                assert(0 <= k < frames@.len() && frames@[k as int].name@ == name@);
            }
            return true;
        }
        k = k + 1;
    }
    false
}

/// The run has stopped on `error` with the stack emptied.
pub open spec fn failed_frames(post: Seq<Frame>, a: Action, error: ErrorKind) -> bool {
    &&& post.len() == 0
    &&& a == (Action::Failed { error })
}

/// What happens when the frame on top of `pre` has finished with `outcome`
/// and was removed: the run finishes, or the parent dispatches its next
/// dependency (guarding against cycles), or — all dependencies done — the
/// parent starts its own acquisition.
pub open spec fn advance_spec(pre: Seq<Frame>, outcome: Outcome, post: Seq<Frame>, a: Action) -> bool {
    if pre.len() == 0 {
        &&& post == pre
        &&& a == (Action::Finished { outcome })
    } else {
        let parent = pre.last();
        let rest = pre.drop_last();
        match parent.phase {
            Phase::InstallDeps { desc, fetch, next } => {
                if next < effective_deps(desc).len() {
                    let dep = effective_deps(desc)[next as int];
                    let parent2 = Frame {
                        name: parent.name,
                        is_root: parent.is_root,
                        force: parent.force,
                        phase: Phase::InstallDeps { desc, fetch, next: (next + 1) as usize },
                    };
                    if name_on_stack(rest.push(parent2), dep) {
                        failed_frames(post, a, ErrorKind::CycleDetected)
                    } else {
                        &&& post.len() == pre.len() + 1
                        &&& post.drop_last() == rest.push(parent2)
                        &&& post.last().name@ == dep
                        &&& post.last().is_root == false
                        &&& post.last().force == true
                        &&& post.last().phase == Phase::Resolve
                        &&& (a matches Action::ResolvePackage { name } && name@ == dep)
                    }
                } else {
                    if fetch {
                        &&& post == rest.push(Frame {
                            name: parent.name,
                            is_root: parent.is_root,
                            force: parent.force,
                            phase: Phase::FetchResolvingExe { desc },
                        })
                        &&& (a matches Action::ResolveFetchExeName { name } && name == parent.name)
                    } else {
                        &&& post == rest.push(Frame {
                            name: parent.name,
                            is_root: parent.is_root,
                            force: parent.force,
                            phase: Phase::ClearBefore { desc },
                        })
                        &&& (a matches Action::ClearStaging { dir }
                            && dir@ == staging_dir_of(parent.name@, parent.is_root))
                    }
                }
            }
            _ => failed_frames(post, a, ErrorKind::ProtocolViolation),
        }
    }
}

/// The transition relation of the machine while it is running: `pre` is the
/// non-empty frame stack, `event` the report that arrived, `post` the stack
/// afterwards and `a` the action handed back. Exactly one case applies per
/// (phase, event) pair; any event the top frame is not waiting for stops
/// the run.
pub open spec fn frames_step_spec(pre: Seq<Frame>, event: Event, post: Seq<Frame>, a: Action) -> bool {
    let f = pre.last();
    let rest = pre.drop_last();
    match f.phase {
        Phase::Resolve => match event {
            Event::Resolved { found, descriptor } => {
                let m = mode_of(found, descriptor.download, f.force);
                if m == Mode::Skip {
                    advance_spec(rest, Outcome::NotFound, post, a)
                } else {
                    advance_spec(
                        rest.push(Frame {
                            name: f.name,
                            is_root: f.is_root,
                            force: f.force,
                            phase: Phase::InstallDeps {
                                desc: descriptor,
                                fetch: m == Mode::Fetch,
                                next: 0,
                            },
                        }),
                        Outcome::Installed,
                        post,
                        a,
                    )
                }
            }
            Event::ResolveFailed => failed_frames(post, a, ErrorKind::CatalogUnreadable),
            _ => failed_frames(post, a, ErrorKind::ProtocolViolation),
        },
        Phase::InstallDeps { .. } => failed_frames(post, a, ErrorKind::ProtocolViolation),
        Phase::ClearBefore { desc } => match event {
            Event::StagingCleared => {
                &&& post == rest.push(Frame {
                    name: f.name,
                    is_root: f.is_root,
                    force: f.force,
                    phase: Phase::Cloning { desc },
                })
                &&& (a matches Action::ClonePackage { repository, dir }
                    && repository == desc.repository
                    && dir@ == staging_dir_of(f.name@, f.is_root))
            }
            _ => failed_frames(post, a, ErrorKind::ProtocolViolation),
        },
        Phase::Cloning { desc } => match event {
            Event::CloneFinished { ok } => {
                if ok {
                    &&& post == rest.push(Frame {
                        name: f.name,
                        is_root: f.is_root,
                        force: f.force,
                        phase: Phase::ReadingMarker { desc },
                    })
                    &&& (a matches Action::ReadExeMarker { dir }
                        && dir@ == staging_dir_of(f.name@, f.is_root))
                } else {
                    &&& post == rest.push(Frame {
                        name: f.name,
                        is_root: f.is_root,
                        force: f.force,
                        phase: Phase::ClearAfterCloneFail,
                    })
                    &&& (a matches Action::ClearStaging { dir }
                        && dir@ == staging_dir_of(f.name@, f.is_root))
                }
            }
            _ => failed_frames(post, a, ErrorKind::ProtocolViolation),
        },
        Phase::ClearAfterCloneFail => match event {
            Event::StagingCleared => failed_frames(post, a, ErrorKind::CloneFailed),
            _ => failed_frames(post, a, ErrorKind::ProtocolViolation),
        },
        Phase::ReadingMarker { desc } => match event {
            Event::MarkerRead { contents } => {
                let exe_view = program_name_of(
                    match contents {
                        Option::Some(m) => Option::Some(m@),
                        Option::None => Option::None,
                    },
                    f.name@,
                );
                &&& post.len() == pre.len()
                &&& post.drop_last() == rest
                &&& post.last().name == f.name
                &&& post.last().is_root == f.is_root
                &&& post.last().force == f.force
                &&& (post.last().phase matches Phase::CheckingPresence { desc: d2, exe }
                    && d2 == desc
                    && exe@ == exe_view)
                &&& (a matches Action::CheckPresence { exe, on_search_path }
                    && exe@ == exe_view
                    && on_search_path == !f.is_root)
            }
            _ => failed_frames(post, a, ErrorKind::ProtocolViolation),
        },
        Phase::CheckingPresence { desc, exe } => match event {
            Event::PresenceChecked { present } => {
                if present && !(f.is_root && f.force) {
                    &&& post == rest.push(Frame {
                        name: f.name,
                        is_root: f.is_root,
                        force: f.force,
                        phase: Phase::ClearAfterAbort,
                    })
                    &&& (a matches Action::ClearStaging { dir }
                        && dir@ == staging_dir_of(f.name@, f.is_root))
                } else if f.is_root && !f.force {
                    &&& post == rest.push(Frame {
                        name: f.name,
                        is_root: f.is_root,
                        force: f.force,
                        phase: Phase::Confirming { desc, exe },
                    })
                    &&& (a matches Action::AskConfirmation { name } && name == f.name)
                } else {
                    &&& post == rest.push(Frame {
                        name: f.name,
                        is_root: f.is_root,
                        force: f.force,
                        phase: Phase::Building { desc, exe },
                    })
                    &&& (a matches Action::RunBuildScript { dir }
                        && dir@ == staging_dir_of(f.name@, f.is_root))
                }
            }
            _ => failed_frames(post, a, ErrorKind::ProtocolViolation),
        },
        Phase::ClearAfterAbort => match event {
            Event::StagingCleared => advance_spec(rest, Outcome::AlreadyInstalled, post, a),
            _ => failed_frames(post, a, ErrorKind::ProtocolViolation),
        },
        Phase::Confirming { desc, exe } => match event {
            Event::ConfirmAnswer { answer } => {
                if affirmative(answer@) {
                    &&& post == rest.push(Frame {
                        name: f.name,
                        is_root: f.is_root,
                        force: f.force,
                        phase: Phase::Building { desc, exe },
                    })
                    &&& (a matches Action::RunBuildScript { dir }
                        && dir@ == staging_dir_of(f.name@, f.is_root))
                } else {
                    &&& post == rest.push(Frame {
                        name: f.name,
                        is_root: f.is_root,
                        force: f.force,
                        phase: Phase::ClearAfterDecline,
                    })
                    &&& (a matches Action::ClearStaging { dir }
                        && dir@ == staging_dir_of(f.name@, f.is_root))
                }
            }
            _ => failed_frames(post, a, ErrorKind::ProtocolViolation),
        },
        Phase::ClearAfterDecline => match event {
            Event::StagingCleared => advance_spec(rest, Outcome::Declined, post, a),
            _ => failed_frames(post, a, ErrorKind::ProtocolViolation),
        },
        Phase::Building { desc, exe } => match event {
            Event::BuildFinished { ok } => {
                if ok {
                    &&& post == rest.push(Frame {
                        name: f.name,
                        is_root: f.is_root,
                        force: f.force,
                        phase: Phase::Moving { desc, exe },
                    })
                    &&& (a matches Action::MoveBinary { dir, exe: e2 }
                        && dir@ == staging_dir_of(f.name@, f.is_root)
                        && e2 == exe)
                } else {
                    &&& post == rest.push(Frame {
                        name: f.name,
                        is_root: f.is_root,
                        force: f.force,
                        phase: Phase::ClearAfterBuildFail,
                    })
                    &&& (a matches Action::ClearStaging { dir }
                        && dir@ == staging_dir_of(f.name@, f.is_root))
                }
            }
            _ => failed_frames(post, a, ErrorKind::ProtocolViolation),
        },
        Phase::ClearAfterBuildFail => match event {
            Event::StagingCleared => failed_frames(post, a, ErrorKind::BuildFailed),
            _ => failed_frames(post, a, ErrorKind::ProtocolViolation),
        },
        Phase::Moving { desc, exe } => match event {
            Event::BinaryMoved => {
                &&& post == rest.push(Frame {
                    name: f.name,
                    is_root: f.is_root,
                    force: f.force,
                    phase: Phase::ClearAfterMove { desc, exe },
                })
                &&& (a matches Action::ClearStaging { dir }
                    && dir@ == staging_dir_of(f.name@, f.is_root))
            }
            _ => failed_frames(post, a, ErrorKind::ProtocolViolation),
        },
        Phase::ClearAfterMove { desc, exe } => match event {
            Event::StagingCleared => {
                &&& post == rest.push(Frame {
                    name: f.name,
                    is_root: f.is_root,
                    force: f.force,
                    phase: Phase::Logging,
                })
                &&& (a matches Action::WriteLog { name, exe: e2, repository, version }
                    && name == f.name
                    && e2 == exe
                    && repository == desc.repository
                    && version == desc.version)
            }
            _ => failed_frames(post, a, ErrorKind::ProtocolViolation),
        },
        Phase::Logging => match event {
            Event::LogWritten => advance_spec(rest, Outcome::Installed, post, a),
            _ => failed_frames(post, a, ErrorKind::ProtocolViolation),
        },
        Phase::FetchResolvingExe { desc } => match event {
            Event::ExeNameResolved { name } => match name {
                Option::Some(exe) => {
                    &&& post == rest.push(Frame {
                        name: f.name,
                        is_root: f.is_root,
                        force: f.force,
                        phase: Phase::FetchCheckingPresence { desc, exe },
                    })
                    &&& (a matches Action::CheckPresence { exe: e2, on_search_path }
                        && e2 == exe
                        && on_search_path == !f.is_root)
                }
                Option::None => failed_frames(post, a, ErrorKind::DownloadFailed),
            },
            _ => failed_frames(post, a, ErrorKind::ProtocolViolation),
        },
        Phase::FetchCheckingPresence { desc, exe } => match event {
            Event::PresenceChecked { present } => {
                if present && !(f.is_root && f.force) {
                    advance_spec(rest, Outcome::AlreadyInstalled, post, a)
                } else if f.is_root && !f.force {
                    &&& post == rest.push(Frame {
                        name: f.name,
                        is_root: f.is_root,
                        force: f.force,
                        phase: Phase::FetchConfirming { desc, exe },
                    })
                    &&& (a matches Action::AskConfirmation { name } && name == f.name)
                } else {
                    &&& post == rest.push(Frame {
                        name: f.name,
                        is_root: f.is_root,
                        force: f.force,
                        phase: Phase::Downloading { desc, exe },
                    })
                    &&& (a matches Action::DownloadAndUnpack { name, exe: e2 }
                        && name == f.name
                        && e2 == exe)
                }
            }
            _ => failed_frames(post, a, ErrorKind::ProtocolViolation),
        },
        Phase::FetchConfirming { desc, exe } => match event {
            Event::ConfirmAnswer { answer } => {
                if affirmative(answer@) {
                    &&& post == rest.push(Frame {
                        name: f.name,
                        is_root: f.is_root,
                        force: f.force,
                        phase: Phase::Downloading { desc, exe },
                    })
                    &&& (a matches Action::DownloadAndUnpack { name, exe: e2 }
                        && name == f.name
                        && e2 == exe)
                } else {
                    advance_spec(rest, Outcome::Declined, post, a)
                }
            }
            _ => failed_frames(post, a, ErrorKind::ProtocolViolation),
        },
        Phase::Downloading { desc, exe } => match event {
            Event::Downloaded { ok } => {
                if ok {
                    &&& post == rest.push(Frame {
                        name: f.name,
                        is_root: f.is_root,
                        force: f.force,
                        phase: Phase::Logging,
                    })
                    &&& (a matches Action::WriteLog { name, exe: e2, repository, version }
                        && name == f.name
                        && e2 == exe
                        && repository == desc.repository
                        && version == desc.version)
                } else {
                    failed_frames(post, a, ErrorKind::DownloadFailed)
                }
            }
            _ => failed_frames(post, a, ErrorKind::ProtocolViolation),
        },
    }
}

/// The full transition relation of [`Installer::step`].
pub open spec fn step_spec(pre: Installer, event: Event, post: Installer, a: Action) -> bool {
    if !pre.started {
        match event {
            Event::Start => {
                if pre.frames@.len() > 0 {
                    &&& post.started == true
                    &&& post.frames@ == pre.frames@
                    &&& (a matches Action::ResolvePackage { name }
                        && name@ == pre.frames@[0].name@)
                } else {
                    &&& post.started == pre.started
                    &&& failed_frames(post.frames@, a, ErrorKind::ProtocolViolation)
                }
            }
            _ => {
                &&& post.started == pre.started
                &&& failed_frames(post.frames@, a, ErrorKind::ProtocolViolation)
            }
        }
    } else if pre.frames@.len() == 0 {
        &&& post.started == pre.started
        &&& failed_frames(post.frames@, a, ErrorKind::ProtocolViolation)
    } else {
        &&& post.started == pre.started
        &&& frames_step_spec(pre.frames@, event, post.frames@, a)
    }
}

impl Installer {
    /// Empties the stack and stops the run on `error`.
    fn fail(&mut self, error: ErrorKind) -> (a: Action)
        ensures
            final(self).frames@.len() == 0,
            final(self).started == old(self).started,
            a == (Action::Failed { error }),
    {
        self.frames = Vec::new();
        Action::Failed { error }
    }

    /// The frame on top has finished with `outcome`: finish the run, or
    /// let the parent dispatch its next dependency or start acquiring.
    fn advance(&mut self, outcome: Outcome) -> (a: Action)
        ensures
            advance_spec(old(self).frames@, outcome, final(self).frames@, a),
            final(self).started == old(self).started,
    {
        let ghost pre = self.frames@;
        match self.frames.pop() {
            Option::None => Action::Finished { outcome },
            Option::Some(parent) => {
                let Frame { name, is_root, force, phase } = parent;
                match phase {
                    Phase::InstallDeps { desc, fetch, next } => {
                        let count = desc.dep_count();
                        if next < count {
                            let dep = desc.dep_at(next);
                            self.frames.push(Frame {
                                name,
                                is_root,
                                force,
                                phase: Phase::InstallDeps { desc, fetch, next: next + 1 },
                            });
                            if contains_name(&self.frames, dep.as_str()) {
                                self.frames = Vec::new();
                                Action::Failed { error: ErrorKind::CycleDetected }
                            } else {
                                let ghost mid = self.frames@;
                                let action_name = dep.clone();
                                self.frames.push(Frame {
                                    name: dep,
                                    is_root: false,
                                    force: true,
                                    phase: Phase::Resolve,
                                });
                                proof {
                                    assert(self.frames@.drop_last() =~= mid);
                                }
                                Action::ResolvePackage { name: action_name }
                            }
                        } else {
                            if fetch {
                                let action_name = name.clone();
                                self.frames.push(Frame {
                                    name,
                                    is_root,
                                    force,
                                    phase: Phase::FetchResolvingExe { desc },
                                });
                                Action::ResolveFetchExeName { name: action_name }
                            } else {
                                let dir = staging_dir_name(name.as_str(), is_root);
                                self.frames.push(Frame {
                                    name,
                                    is_root,
                                    force,
                                    phase: Phase::ClearBefore { desc },
                                });
                                Action::ClearStaging { dir }
                            }
                        }
                    }
                    _ => {
                        self.frames = Vec::new();
                        Action::Failed { error: ErrorKind::ProtocolViolation }
                    }
                }
            }
        }
    }

    /// Consumes the outcome of the previous operation and returns the next
    /// one. The first event must be [`Event::Start`]; after an
    /// [`Action::Finished`] or [`Action::Failed`] the run is over.
    #[verifier::rlimit(100)]
    #[verifier::spinoff_prover]
    pub fn step(&mut self, event: Event) -> (a: Action)
        ensures
            step_spec(*old(self), event, *final(self), a),
    {
        if !self.started {
            match event {
                Event::Start => {
                    if self.frames.len() > 0 {
                        self.started = true;
                        let name = self.frames[0].name.clone();
                        Action::ResolvePackage { name }
                    } else {
                        self.fail(ErrorKind::ProtocolViolation)
                    }
                }
                _ => self.fail(ErrorKind::ProtocolViolation),
            }
        } else {
            match self.frames.pop() {
                Option::None => self.fail(ErrorKind::ProtocolViolation),
                Option::Some(frame) => {
                    let Frame { name, is_root, force, phase } = frame;
                    match phase {
                        Phase::Resolve => match event {
                            Event::Resolved { found, descriptor } => {
                                let m = select_mode(found, descriptor.download, force);
                                match m {
                                    Mode::Skip => self.advance(Outcome::NotFound),
                                    Mode::Build => {
                                        self.frames.push(Frame {
                                            name,
                                            is_root,
                                            force,
                                            phase: Phase::InstallDeps {
                                                desc: descriptor,
                                                fetch: false,
                                                next: 0,
                                            },
                                        });
                                        self.advance(Outcome::Installed)
                                    }
                                    Mode::Fetch => {
                                        self.frames.push(Frame {
                                            name,
                                            is_root,
                                            force,
                                            phase: Phase::InstallDeps {
                                                desc: descriptor,
                                                fetch: true,
                                                next: 0,
                                            },
                                        });
                                        self.advance(Outcome::Installed)
                                    }
                                }
                            }
                            Event::ResolveFailed => self.fail(ErrorKind::CatalogUnreadable),
                            _ => self.fail(ErrorKind::ProtocolViolation),
                        },
                        Phase::InstallDeps { .. } => self.fail(ErrorKind::ProtocolViolation),
                        Phase::ClearBefore { desc } => match event {
                            Event::StagingCleared => {
                                let dir = staging_dir_name(name.as_str(), is_root);
                                let repository = desc.repository.clone();
                                self.frames.push(Frame {
                                    name,
                                    is_root,
                                    force,
                                    phase: Phase::Cloning { desc },
                                });
                                Action::ClonePackage { repository, dir }
                            }
                            _ => self.fail(ErrorKind::ProtocolViolation),
                        },
                        Phase::Cloning { desc } => match event {
                            Event::CloneFinished { ok } => {
                                let dir = staging_dir_name(name.as_str(), is_root);
                                if ok {
                                    self.frames.push(Frame {
                                        name,
                                        is_root,
                                        force,
                                        phase: Phase::ReadingMarker { desc },
                                    });
                                    Action::ReadExeMarker { dir }
                                } else {
                                    self.frames.push(Frame {
                                        name,
                                        is_root,
                                        force,
                                        phase: Phase::ClearAfterCloneFail,
                                    });
                                    Action::ClearStaging { dir }
                                }
                            }
                            _ => self.fail(ErrorKind::ProtocolViolation),
                        },
                        Phase::ClearAfterCloneFail => match event {
                            Event::StagingCleared => self.fail(ErrorKind::CloneFailed),
                            _ => self.fail(ErrorKind::ProtocolViolation),
                        },
                        Phase::ReadingMarker { desc } => match event {
                            Event::MarkerRead { contents } => {
                                let exe = get_program_name(contents, name.as_str());
                                let exe2 = exe.clone();
                                let on_search_path = !is_root;
                                let ghost rest = self.frames@;
                                self.frames.push(Frame {
                                    name,
                                    is_root,
                                    force,
                                    phase: Phase::CheckingPresence { desc, exe },
                                });
                                proof {
                                    assert(self.frames@.drop_last() =~= rest);
                                }
                                Action::CheckPresence { exe: exe2, on_search_path }
                            }
                            _ => self.fail(ErrorKind::ProtocolViolation),
                        },
                        Phase::CheckingPresence { desc, exe } => match event {
                            Event::PresenceChecked { present } => {
                                if present && !(is_root && force) {
                                    let dir = staging_dir_name(name.as_str(), is_root);
                                    self.frames.push(Frame {
                                        name,
                                        is_root,
                                        force,
                                        phase: Phase::ClearAfterAbort,
                                    });
                                    Action::ClearStaging { dir }
                                } else if is_root && !force {
                                    let action_name = name.clone();
                                    self.frames.push(Frame {
                                        name,
                                        is_root,
                                        force,
                                        phase: Phase::Confirming { desc, exe },
                                    });
                                    Action::AskConfirmation { name: action_name }
                                } else {
                                    let dir = staging_dir_name(name.as_str(), is_root);
                                    self.frames.push(Frame {
                                        name,
                                        is_root,
                                        force,
                                        phase: Phase::Building { desc, exe },
                                    });
                                    Action::RunBuildScript { dir }
                                }
                            }
                            _ => self.fail(ErrorKind::ProtocolViolation),
                        },
                        Phase::ClearAfterAbort => match event {
                            Event::StagingCleared => self.advance(Outcome::AlreadyInstalled),
                            _ => self.fail(ErrorKind::ProtocolViolation),
                        },
                        Phase::Confirming { desc, exe } => match event {
                            Event::ConfirmAnswer { answer } => {
                                let dir = staging_dir_name(name.as_str(), is_root);
                                if is_affirmative(answer.as_str()) {
                                    self.frames.push(Frame {
                                        name,
                                        is_root,
                                        force,
                                        phase: Phase::Building { desc, exe },
                                    });
                                    Action::RunBuildScript { dir }
                                } else {
                                    self.frames.push(Frame {
                                        name,
                                        is_root,
                                        force,
                                        phase: Phase::ClearAfterDecline,
                                    });
                                    Action::ClearStaging { dir }
                                }
                            }
                            _ => self.fail(ErrorKind::ProtocolViolation),
                        },
                        Phase::ClearAfterDecline => match event {
                            Event::StagingCleared => self.advance(Outcome::Declined),
                            _ => self.fail(ErrorKind::ProtocolViolation),
                        },
                        Phase::Building { desc, exe } => match event {
                            Event::BuildFinished { ok } => {
                                let dir = staging_dir_name(name.as_str(), is_root);
                                if ok {
                                    let exe2 = exe.clone();
                                    self.frames.push(Frame {
                                        name,
                                        is_root,
                                        force,
                                        phase: Phase::Moving { desc, exe },
                                    });
                                    Action::MoveBinary { dir, exe: exe2 }
                                } else {
                                    self.frames.push(Frame {
                                        name,
                                        is_root,
                                        force,
                                        phase: Phase::ClearAfterBuildFail,
                                    });
                                    Action::ClearStaging { dir }
                                }
                            }
                            _ => self.fail(ErrorKind::ProtocolViolation),
                        },
                        Phase::ClearAfterBuildFail => match event {
                            Event::StagingCleared => self.fail(ErrorKind::BuildFailed),
                            _ => self.fail(ErrorKind::ProtocolViolation),
                        },
                        Phase::Moving { desc, exe } => match event {
                            Event::BinaryMoved => {
                                let dir = staging_dir_name(name.as_str(), is_root);
                                self.frames.push(Frame {
                                    name,
                                    is_root,
                                    force,
                                    phase: Phase::ClearAfterMove { desc, exe },
                                });
                                Action::ClearStaging { dir }
                            }
                            _ => self.fail(ErrorKind::ProtocolViolation),
                        },
                        Phase::ClearAfterMove { desc, exe } => match event {
                            Event::StagingCleared => {
                                let log_name = name.clone();
                                let repository = desc.repository.clone();
                                let version = desc.version.clone();
                                self.frames.push(Frame {
                                    name,
                                    is_root,
                                    force,
                                    phase: Phase::Logging,
                                });
                                Action::WriteLog { name: log_name, exe, repository, version }
                            }
                            _ => self.fail(ErrorKind::ProtocolViolation),
                        },
                        Phase::Logging => match event {
                            Event::LogWritten => self.advance(Outcome::Installed),
                            _ => self.fail(ErrorKind::ProtocolViolation),
                        },
                        Phase::FetchResolvingExe { desc } => match event {
                            Event::ExeNameResolved { name: resolved } => match resolved {
                                Option::Some(exe) => {
                                    let exe2 = exe.clone();
                                    let on_search_path = !is_root;
                                    self.frames.push(Frame {
                                        name,
                                        is_root,
                                        force,
                                        phase: Phase::FetchCheckingPresence { desc, exe },
                                    });
                                    Action::CheckPresence { exe: exe2, on_search_path }
                                }
                                Option::None => self.fail(ErrorKind::DownloadFailed),
                            },
                            _ => self.fail(ErrorKind::ProtocolViolation),
                        },
                        Phase::FetchCheckingPresence { desc, exe } => match event {
                            Event::PresenceChecked { present } => {
                                if present && !(is_root && force) {
                                    self.advance(Outcome::AlreadyInstalled)
                                } else if is_root && !force {
                                    let action_name = name.clone();
                                    self.frames.push(Frame {
                                        name,
                                        is_root,
                                        force,
                                        phase: Phase::FetchConfirming { desc, exe },
                                    });
                                    Action::AskConfirmation { name: action_name }
                                } else {
                                    let action_name = name.clone();
                                    let exe2 = exe.clone();
                                    self.frames.push(Frame {
                                        name,
                                        is_root,
                                        force,
                                        phase: Phase::Downloading { desc, exe },
                                    });
                                    Action::DownloadAndUnpack { name: action_name, exe: exe2 }
                                }
                            }
                            _ => self.fail(ErrorKind::ProtocolViolation),
                        },
                        Phase::FetchConfirming { desc, exe } => match event {
                            Event::ConfirmAnswer { answer } => {
                                if is_affirmative(answer.as_str()) {
                                    let action_name = name.clone();
                                    let exe2 = exe.clone();
                                    self.frames.push(Frame {
                                        name,
                                        is_root,
                                        force,
                                        phase: Phase::Downloading { desc, exe },
                                    });
                                    Action::DownloadAndUnpack { name: action_name, exe: exe2 }
                                } else {
                                    self.advance(Outcome::Declined)
                                }
                            }
                            _ => self.fail(ErrorKind::ProtocolViolation),
                        },
                        Phase::Downloading { desc, exe } => match event {
                            Event::Downloaded { ok } => {
                                if ok {
                                    let log_name = name.clone();
                                    let repository = desc.repository.clone();
                                    let version = desc.version.clone();
                                    self.frames.push(Frame {
                                        name,
                                        is_root,
                                        force,
                                        phase: Phase::Logging,
                                    });
                                    Action::WriteLog { name: log_name, exe, repository, version }
                                } else {
                                    self.fail(ErrorKind::DownloadFailed)
                                }
                            }
                            _ => self.fail(ErrorKind::ProtocolViolation),
                        },
                    }
                }
            }
        }
    }
}

/// The install entry points, as the command layer calls them.
pub struct Package;

impl Package {
    /// Starts an install of `program` as the root invocation.
    /// `force_source` forces a source build even for a fetch-mode package,
    /// bypasses the already-installed short-circuit and skips the
    /// confirmation prompt.
    pub fn install(program: &str, force_source: bool) -> (m: Installer)
        ensures
            !m.started,
            m.frames@.len() == 1,
            m.frames@[0].name@ == program@,
            m.frames@[0].is_root == true,
            m.frames@[0].force == force_source,
            m.frames@[0].phase == Phase::Resolve,
    {
        let mut frames: Vec<Frame> = Vec::new();
        frames.push(Frame {
            name: program.to_owned(),
            is_root: true,
            force: force_source,
            phase: Phase::Resolve,
        });
        Installer { frames, started: false }
    }

    /// Starts an install of `program` as a dependency: forced source
    /// build, non-interactive, presence probed on the command search path.
    pub fn install_for_dependence(program: &str) -> (m: Installer)
        ensures
            !m.started,
            m.frames@.len() == 1,
            m.frames@[0].name@ == program@,
            m.frames@[0].is_root == false,
            m.frames@[0].force == true,
            m.frames@[0].phase == Phase::Resolve,
    {
        let mut frames: Vec<Frame> = Vec::new();
        frames.push(Frame {
            name: program.to_owned(),
            is_root: false,
            force: true,
            phase: Phase::Resolve,
        });
        Installer { frames, started: false }
    }
}

} // verus!
