//! The guarantees the orchestrator gives across transitions, proved from
//! the transition relation itself.

use vstd::prelude::*;
use crate::descriptor::{PackageDescriptor, effective_deps};
use crate::machine::{Action, Event, Frame, Installer, Mode, Outcome, Phase, advance_spec,
    frames_step_spec, mode_of, name_on_stack, step_spec};
use crate::naming::{affirmative, staging_dir_of};

verus! {

/// Dependencies are installed in declared order, depth-first, before the
/// package's own acquisition begins: when a finished install hands control
/// back to a parent that has dispatched `next` of its dependencies, the
/// machine opens an install for dependency `next` exactly — as a new frame
/// on top, which must finish before the parent moves again — and only once
/// every dependency was dispatched does the parent start acquiring.
pub proof fn lemma_dependency_order(
    pre: Seq<Frame>,
    outcome: Outcome,
    post: Seq<Frame>,
    a: Action,
    desc: PackageDescriptor,
    fetch: bool,
    next: usize,
)
    requires
        advance_spec(pre, outcome, post, a),
        pre.len() > 0,
        pre.last().phase == (Phase::InstallDeps { desc, fetch, next }),
        !(a matches Action::Failed { .. }),
    ensures
        next < effective_deps(desc).len() ==> {
            &&& (a matches Action::ResolvePackage { name }
                && name@ == effective_deps(desc)[next as int])
            &&& post.len() == pre.len() + 1
            &&& post.last().name@ == effective_deps(desc)[next as int]
            &&& post.last().phase == Phase::Resolve
            &&& post.last().is_root == false
            &&& post.drop_last() == pre.drop_last().push(Frame {
                name: pre.last().name,
                is_root: pre.last().is_root,
                force: pre.last().force,
                phase: Phase::InstallDeps { desc, fetch, next: (next + 1) as usize },
            })
        },
        next >= effective_deps(desc).len() && !fetch ==> (a matches Action::ClearStaging { dir }
            && dir@ == staging_dir_of(pre.last().name@, pre.last().is_root)),
        next >= effective_deps(desc).len() && fetch ==> (a
            matches Action::ResolveFetchExeName { name } && name == pre.last().name),
{
}

/// Presence short-circuit, build path: when the probe finds the executable
/// already installed and no forced reinstall is under way, the machine
/// only asks to clear the staging directory — it never builds, moves,
/// downloads or logs for this package.
pub proof fn lemma_presence_short_circuit_build(
    pre: Seq<Frame>,
    post: Seq<Frame>,
    a: Action,
    desc: PackageDescriptor,
    exe: String,
)
    requires
        frames_step_spec(pre, Event::PresenceChecked { present: true }, post, a),
        pre.len() > 0,
        pre.last().phase == (Phase::CheckingPresence { desc, exe }),
        !(pre.last().is_root && pre.last().force),
    ensures
        (a matches Action::ClearStaging { dir }
            && dir@ == staging_dir_of(pre.last().name@, pre.last().is_root)),
        post == pre.drop_last().push(Frame {
            name: pre.last().name,
            is_root: pre.last().is_root,
            force: pre.last().force,
            phase: Phase::ClearAfterAbort,
        }),
{
}

/// After that clearance the install finishes as already installed: the
/// step writes no log entry and starts no clone, build, move or download.
pub proof fn lemma_abort_finishes_quietly(pre: Seq<Frame>, post: Seq<Frame>, a: Action)
    requires
        frames_step_spec(pre, Event::StagingCleared, post, a),
        pre.len() > 0,
        pre.last().phase == Phase::ClearAfterAbort,
    ensures
        advance_spec(pre.drop_last(), Outcome::AlreadyInstalled, post, a),
        !(a matches Action::WriteLog { .. }),
        !(a matches Action::RunBuildScript { .. }),
        !(a matches Action::ClonePackage { .. }),
        !(a matches Action::MoveBinary { .. }),
        !(a matches Action::DownloadAndUnpack { .. }),
{
}

/// Presence short-circuit, fetch path: a present executable ends the
/// install at once — nothing is downloaded and no log entry is written.
pub proof fn lemma_presence_short_circuit_fetch(
    pre: Seq<Frame>,
    post: Seq<Frame>,
    a: Action,
    desc: PackageDescriptor,
    exe: String,
)
    requires
        frames_step_spec(pre, Event::PresenceChecked { present: true }, post, a),
        pre.len() > 0,
        pre.last().phase == (Phase::FetchCheckingPresence { desc, exe }),
        !(pre.last().is_root && pre.last().force),
    ensures
        advance_spec(pre.drop_last(), Outcome::AlreadyInstalled, post, a),
        !(a matches Action::WriteLog { .. }),
        !(a matches Action::RunBuildScript { .. }),
        !(a matches Action::ClonePackage { .. }),
        !(a matches Action::MoveBinary { .. }),
        !(a matches Action::DownloadAndUnpack { .. }),
{
}

/// Mode selection: a catalogued package without the download flag always
/// takes the build path; the download flag without force always takes the
/// fetch path; download plus force takes the build path.
pub proof fn lemma_mode_selection(catalog_found: bool, download: bool, force_source: bool)
    ensures
        catalog_found && !download ==> mode_of(catalog_found, download, force_source)
            == Mode::Build,
        download && !force_source ==> mode_of(catalog_found, download, force_source) == Mode::Fetch,
        download && force_source ==> mode_of(catalog_found, download, force_source) == Mode::Build,
        !catalog_found && !download ==> mode_of(catalog_found, download, force_source)
            == Mode::Skip,
{
}

/// The force-source override at the root bypasses the already-installed
/// short-circuit: even with the executable present, the machine proceeds
/// straight to the build script (no prompt, no abort).
pub proof fn lemma_force_bypasses_short_circuit(
    pre: Seq<Frame>,
    post: Seq<Frame>,
    a: Action,
    desc: PackageDescriptor,
    exe: String,
)
    requires
        frames_step_spec(pre, Event::PresenceChecked { present: true }, post, a),
        pre.len() > 0,
        pre.last().phase == (Phase::CheckingPresence { desc, exe }),
        pre.last().is_root,
        pre.last().force,
    ensures
        (a matches Action::RunBuildScript { dir }
            && dir@ == staging_dir_of(pre.last().name@, pre.last().is_root)),
        post == pre.drop_last().push(Frame {
            name: pre.last().name,
            is_root: pre.last().is_root,
            force: pre.last().force,
            phase: Phase::Building { desc, exe },
        }),
{
}

/// A name absent from the catalog and without the download flag is a
/// silent no-op: its frame is removed at once, and the step clones
/// nothing, stages nothing for it, downloads nothing and writes no log
/// entry — any staging clearance it asks for belongs to the waiting
/// parent, not to the skipped package.
pub proof fn lemma_soft_dependency_noop(
    pre: Seq<Frame>,
    post: Seq<Frame>,
    a: Action,
    descriptor: PackageDescriptor,
)
    requires
        frames_step_spec(pre, Event::Resolved { found: false, descriptor }, post, a),
        pre.len() > 0,
        pre.last().phase == Phase::Resolve,
        !descriptor.download,
    ensures
        advance_spec(pre.drop_last(), Outcome::NotFound, post, a),
        !(a matches Action::WriteLog { .. }),
        !(a matches Action::ClonePackage { .. }),
        !(a matches Action::RunBuildScript { .. }),
        !(a matches Action::DownloadAndUnpack { .. }),
        !(a matches Action::ReadExeMarker { .. }),
        (a matches Action::ClearStaging { dir } ==> pre.len() > 1 && dir@ == staging_dir_of(
            pre.drop_last().last().name@,
            pre.drop_last().last().is_root,
        )),
{
}

/// Which phases stand over a live staging directory: from the moment the
/// clone is requested until the machine has been told it was cleared.
pub open spec fn staging_live(p: Phase) -> bool {
    match p {
        Phase::Cloning { .. } => true,
        Phase::ClearAfterCloneFail => true,
        Phase::ReadingMarker { .. } => true,
        Phase::CheckingPresence { .. } => true,
        Phase::ClearAfterAbort => true,
        Phase::Confirming { .. } => true,
        Phase::ClearAfterDecline => true,
        Phase::Building { .. } => true,
        Phase::ClearAfterBuildFail => true,
        Phase::Moving { .. } => true,
        Phase::ClearAfterMove { .. } => true,
        _ => false,
    }
}

/// Staging isolation over time: while a source build's staging directory
/// is live, its frame leaves the stack only through a staging-clearance
/// event (or a fatal stop). Every ordinary exit of a build-path install —
/// success, already-installed, declined — therefore happens only after
/// its staging directory was removed.
pub proof fn lemma_staging_cleared_before_exit(
    pre: Seq<Frame>,
    event: Event,
    post: Seq<Frame>,
    a: Action,
)
    requires
        frames_step_spec(pre, event, post, a),
        pre.len() > 0,
        staging_live(pre.last().phase),
        !(a matches Action::Failed { .. }),
    ensures
        !(event matches Event::StagingCleared) ==> {
            &&& post.len() == pre.len()
            &&& post.drop_last() == pre.drop_last()
            &&& post.last().name == pre.last().name
        },
{
}


/// A well-formed stack: no two frames install the same package — the
/// cycle guard's doing — and only the bottom frame can be the root
/// invocation.
pub open spec fn wf_stack(frames: Seq<Frame>) -> bool {
    &&& forall|i: int, j: int| 0 <= i < j < frames.len() ==> frames[i].name@ != frames[j].name@
    &&& forall|i: int| #![auto] 1 <= i < frames.len() ==> !frames[i].is_root
}

proof fn lemma_wf_drop_last(frames: Seq<Frame>)
    requires
        wf_stack(frames),
        frames.len() > 0,
    ensures
        wf_stack(frames.drop_last()),
{
    let rest = frames.drop_last();
    assert forall|i: int| 0 <= i < rest.len() implies rest[i] == frames[i] by {
    }
}

proof fn lemma_top_renewed_wf(pre: Seq<Frame>, post: Seq<Frame>)
    requires
        pre.len() > 0,
        post.len() == pre.len(),
        post.drop_last() == pre.drop_last(),
        post.last().name@ == pre.last().name@,
        post.last().is_root == pre.last().is_root,
        wf_stack(pre),
    ensures
        wf_stack(post),
{
    let n = pre.len();
    assert forall|i: int| 0 <= i < n implies post[i].name@ == pre[i].name@ && post[i].is_root
        == pre[i].is_root by {
        if i < n - 1 {
            assert(post[i] == post.drop_last()[i]);
            assert(pre.drop_last()[i] == pre[i]);
        } else {
            assert(post[i] == post.last());
            assert(pre[i] == pre.last());
        }
    }
    assert forall|i: int, j: int| 0 <= i < j < post.len() implies post[i].name@
        != post[j].name@ by {
        assert(pre[i].name@ != pre[j].name@);
    }
    assert forall|i: int| #![auto] 1 <= i < post.len() implies !post[i].is_root by {
        assert(!pre[i].is_root);
    }
}

proof fn lemma_advance_preserves_wf(pre: Seq<Frame>, outcome: Outcome, post: Seq<Frame>, a: Action)
    requires
        advance_spec(pre, outcome, post, a),
        wf_stack(pre),
    ensures
        wf_stack(post),
{
    if pre.len() > 0 && post.len() > 0 {
        let parent = pre.last();
        let rest = pre.drop_last();
        match parent.phase {
            Phase::InstallDeps { desc, fetch, next } => {
                if next < effective_deps(desc).len() {
                    let dep = effective_deps(desc)[next as int];
                    let parent2 = Frame {
                        name: parent.name,
                        is_root: parent.is_root,
                        force: parent.force,
                        phase: Phase::InstallDeps { desc, fetch, next: (next + 1) as usize },
                    };
                    let mid = rest.push(parent2);
                    assert(mid.drop_last() =~= rest);
                    lemma_top_renewed_wf(pre, mid);
                    assert(!name_on_stack(mid, dep));
                    assert forall|i: int, j: int| 0 <= i < j < post.len() implies post[i].name@
                        != post[j].name@ by {
                        if j < post.len() - 1 {
                            assert(post[i] == post.drop_last()[i]);
                            assert(post[j] == post.drop_last()[j]);
                        } else {
                            assert(post[i] == post.drop_last()[i]);
                            assert(post[j] == post.last());
                            assert(mid[i].name@ != dep) by {
                                if mid[i].name@ == dep {
                                    assert(0 <= i < mid.len() && mid[i].name@ == dep);
                                }
                            }
                        }
                    }
                    assert forall|i: int| #![auto] 1 <= i < post.len() implies !post[i].is_root by {
                        if i < post.len() - 1 {
                            assert(post[i] == post.drop_last()[i]);
                        } else {
                            assert(post[i] == post.last());
                        }
                    }
                } else {
                    assert(post.drop_last() =~= rest);
                    lemma_top_renewed_wf(pre, post);
                }
            }
            _ => {
            }
        }
    }
}

/// Every reachable stack is well formed: the step relation preserves
/// [`wf_stack`], so no package is ever being installed twice at once and
/// the root invocation stays at the bottom.
pub proof fn lemma_step_preserves_wf(pre: Installer, event: Event, post: Installer, a: Action)
    requires
        step_spec(pre, event, post, a),
        wf_stack(pre.frames@),
    ensures
        wf_stack(post.frames@),
{
    if pre.started && pre.frames@.len() > 0 && post.frames@.len() > 0 {
        let frames = pre.frames@;
        let f = frames.last();
        let rest = frames.drop_last();
        match f.phase {
            Phase::Resolve => match event {
                Event::Resolved { found, descriptor } => {
                    let m = mode_of(found, descriptor.download, f.force);
                    if m == Mode::Skip {
                        lemma_wf_drop_last(frames);
                        lemma_advance_preserves_wf(rest, Outcome::NotFound, post.frames@, a);
                    } else {
                        let mid = rest.push(Frame {
                            name: f.name,
                            is_root: f.is_root,
                            force: f.force,
                            phase: Phase::InstallDeps {
                                desc: descriptor,
                                fetch: m == Mode::Fetch,
                                next: 0,
                            },
                        });
                        assert(mid.drop_last() =~= rest);
                        lemma_top_renewed_wf(frames, mid);
                        lemma_advance_preserves_wf(mid, Outcome::Installed, post.frames@, a);
                    }
                }
                _ => {
                }
            },
            Phase::ClearAfterAbort => match event {
                Event::StagingCleared => {
                    lemma_wf_drop_last(frames);
                    lemma_advance_preserves_wf(rest, Outcome::AlreadyInstalled, post.frames@, a);
                }
                _ => {
                }
            },
            Phase::ClearAfterDecline => match event {
                Event::StagingCleared => {
                    lemma_wf_drop_last(frames);
                    lemma_advance_preserves_wf(rest, Outcome::Declined, post.frames@, a);
                }
                _ => {
                }
            },
            Phase::Logging => match event {
                Event::LogWritten => {
                    lemma_wf_drop_last(frames);
                    lemma_advance_preserves_wf(rest, Outcome::Installed, post.frames@, a);
                }
                _ => {
                }
            },
            Phase::FetchCheckingPresence { .. } => match event {
                Event::PresenceChecked { present } => {
                    if present && !(f.is_root && f.force) {
                        lemma_wf_drop_last(frames);
                        lemma_advance_preserves_wf(
                            rest,
                            Outcome::AlreadyInstalled,
                            post.frames@,
                            a,
                        );
                    } else {
                        assert(post.frames@.drop_last() =~= rest);
                        lemma_top_renewed_wf(frames, post.frames@);
                    }
                }
                _ => {
                }
            },
            Phase::FetchConfirming { .. } => match event {
                Event::ConfirmAnswer { answer } => {
                    if affirmative(answer@) {
                        assert(post.frames@.drop_last() =~= rest);
                        lemma_top_renewed_wf(frames, post.frames@);
                    } else {
                        lemma_wf_drop_last(frames);
                        lemma_advance_preserves_wf(rest, Outcome::Declined, post.frames@, a);
                    }
                }
                _ => {
                }
            },
            _ => {
                assert(post.frames@.drop_last() =~= rest);
                lemma_top_renewed_wf(frames, post.frames@);
            }
        }
    }
}

/// Staging isolation across the whole stack: on a well-formed stack no
/// two installs in progress share a staging directory — dependencies have
/// distinct per-package directories, and the root's fixed directory is
/// distinct from every dependency's.
pub proof fn lemma_stack_staging_isolated(frames: Seq<Frame>, i: int, j: int)
    requires
        wf_stack(frames),
        0 <= i < j < frames.len(),
    ensures
        staging_dir_of(frames[i].name@, frames[i].is_root) != staging_dir_of(
            frames[j].name@,
            frames[j].is_root,
        ),
{
    assert(!frames[j].is_root);
    if frames[i].is_root {
        crate::naming::lemma_root_staging_distinct(frames[j].name@);
    } else {
        crate::naming::lemma_staging_dirs_distinct(frames[i].name@, frames[j].name@);
    }
}


} // verus!
