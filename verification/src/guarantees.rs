//! What holds of every resolution, whatever the caller observes.

use vstd::prelude::*;
use crate::bitmap::conversion_error;
use crate::classify::{classify, AppKind};
use crate::codec::loaded_image;
use crate::manifest::logo_reference;
use crate::path::{file_name, join, parent};
use crate::resolver::{
    fail, manifest_path, may_wait, next, shortcut_path, ActionView, Event, PhaseView,
    ResolverView, WRAPPER_BUDGET_MS, WRAPPER_WAIT_MS,
};
use crate::scale::{matched_icon, DirEntry};

verus! {

/// The event is the answer that the phase waits for.
pub open spec fn answers(phase: PhaseView, event: Event) -> bool {
    match (phase, event) {
        (PhaseView::WindowOwner { .. }, Event::WindowOwner(_)) => true,
        (PhaseView::ChildOwners { .. }, Event::ChildOwners(_)) => true,
        (PhaseView::Backoff { .. }, Event::Slept) => true,
        (PhaseView::ProcessPath { .. }, Event::ProcessPath(_)) => true,
        (PhaseView::WrapperWait { .. }, Event::Slept) => true,
        (PhaseView::ShortcutCheck { .. }, Event::FileExists(_)) => true,
        (PhaseView::Manifest { .. }, Event::Text(_)) => true,
        (PhaseView::Listing { .. }, Event::Listing(_)) => true,
        (PhaseView::Asset, Event::Bytes(_)) => true,
        (PhaseView::NativeIcon, Event::NativeIcon(_)) => true,
        _ => false,
    }
}

/// The event tells of a failure: a process, a window owner, a manifest, a
/// file or a native icon that is not there, a manifest without a logo, an
/// asset that is no image, or a bitmap that cannot be converted.
pub open spec fn tells_failure(event: Event) -> bool {
    match event {
        Event::WindowOwner(None) => true,
        Event::ProcessPath(None) => true,
        Event::Text(None) => true,
        Event::Bytes(None) => true,
        Event::NativeIcon(None) => true,
        Event::Text(Some(text)) => logo_reference(text@) is None,
        Event::Bytes(Some(bytes)) => loaded_image(bytes@) is None,
        Event::NativeIcon(Some(bitmap)) => conversion_error(bitmap) is Some,
        _ => false,
    }
}

/// Absent on failure: an event that tells of a failure, or that is not the
/// answer to what was asked, ends the resolution at once and without an
/// outcome, in whatever phase it arrives.
pub proof fn failure_is_absent(state: ResolverView, event: Event)
    requires
        tells_failure(event) || !answers(state.phase, event),
    ensures
        next(state, event) == fail(state),
        next(state, event).1 == ActionView::Finish(None),
        next(state, event).0.phase == PhaseView::Finished,
{
}

/// A resolution that is over stays over: every further step ends without
/// an outcome.
pub proof fn finished_stays_finished(state: ResolverView, event: Event)
    requires
        state.phase == PhaseView::Finished,
    ensures
        next(state, event) == fail(state),
{
}

/// The shortcut icon short-circuits the package: where it exists, it is
/// the next and the last file that is read. The step after it ends the
/// resolution, so the manifest is never asked for.
pub proof fn shortcut_short_circuits(state: ResolverView, after: Event)
    requires
        state.phase is ShortcutCheck,
    ensures
        next(state, Event::FileExists(true)).1 == (ActionView::ReadBytes {
            path: state.phase->shortcut,
        }),
        next(state, Event::FileExists(true)).0.phase == PhaseView::Asset,
        next(next(state, Event::FileExists(true)).0, after).1 is Finish,
        next(next(state, Event::FileExists(true)).0, after).0.phase == PhaseView::Finished,
{
}

/// The child windows of a host wrapper are looked at twice at most: the
/// second look never leads to another backoff.
pub proof fn one_backoff_at_most(state: ResolverView, event: Event)
    requires
        state.phase matches PhaseView::ChildOwners { retried, .. } && retried,
    ensures
        !(next(state, event).1 is Sleep),
        !(next(state, event).0.phase is Backoff),
{
}

/// How much of the wait budget is left in `state`, in milliseconds.
pub open spec fn budget_left(state: ResolverView) -> int {
    match state.phase {
        PhaseView::ProcessPath { waited, .. } => WRAPPER_BUDGET_MS - waited,
        PhaseView::WrapperWait { waited, .. } => WRAPPER_BUDGET_MS - waited,
        _ => 0,
    }
}

/// The resolver after `rounds` rounds of waiting: in each round it hears
/// the next of `paths` as the path of the process, and then that the time
/// asked for has passed.
pub open spec fn after_rounds(state: ResolverView, paths: Seq<String>, rounds: nat) -> ResolverView
    decreases rounds,
{
    if rounds == 0 {
        state
    } else {
        let before = after_rounds(state, paths, (rounds - 1) as nat);
        let asked = next(before, Event::ProcessPath(Some(paths[rounds - 1])));
        next(asked.0, Event::Slept).0
    }
}

/// The action that follows `rounds` rounds of waiting and one more path.
pub open spec fn action_after(state: ResolverView, paths: Seq<String>, rounds: nat) -> ActionView {
    next(after_rounds(state, paths, rounds), Event::ProcessPath(Some(paths[rounds as int]))).1
}

/// The wait for a host wrapper is bounded. Where the path of the process
/// names the host wrapper every time it is asked for, the resolver sleeps
/// one interval for each interval that its budget still holds, and asks
/// again after each. With the budget used up it asks for the icon of the
/// wrapper itself, at the path it heard last. From the start that is after
/// ten sleeps of a second each.
pub proof fn wrapper_wait_is_bounded(state: ResolverView, paths: Seq<String>)
    requires
        state.phase is ProcessPath,
        0 <= budget_left(state) <= WRAPPER_BUDGET_MS,
        paths.len() > budget_left(state) / (WRAPPER_WAIT_MS as int),
        forall|i: int| 0 <= i < paths.len() ==> classify((#[trigger] paths[i])@) == AppKind::HostWrapper,
    ensures
        ({
            let rounds = (budget_left(state) / (WRAPPER_WAIT_MS as int)) as nat;
            &&& rounds * WRAPPER_WAIT_MS <= WRAPPER_BUDGET_MS
            &&& forall|i: nat|
                i < rounds ==> #[trigger] action_after(state, paths, i) == (ActionView::Sleep {
                    millis: WRAPPER_WAIT_MS,
                })
            &&& action_after(state, paths, rounds) == (ActionView::LoadNativeIcon {
                path: paths[rounds as int]@,
            })
        }),
{
    let rounds = (budget_left(state) / (WRAPPER_WAIT_MS as int)) as nat;
    assert forall|i: nat| i <= rounds implies ({
        let at = #[trigger] after_rounds(state, paths, i);
        &&& at.phase is ProcessPath
        &&& budget_left(at) == budget_left(state) - i * WRAPPER_WAIT_MS
    }) by {
        waiting_uses_budget(state, paths, i);
    }
    assert forall|i: nat| i < rounds implies #[trigger] action_after(state, paths, i) == (
    ActionView::Sleep { millis: WRAPPER_WAIT_MS }) by {
        let at = after_rounds(state, paths, i);
        assert(at.phase is ProcessPath);
        assert(budget_left(at) >= WRAPPER_WAIT_MS) by (nonlinear_arith)
            requires
                budget_left(at) == budget_left(state) - i * WRAPPER_WAIT_MS,
                i < rounds,
                rounds == budget_left(state) / (WRAPPER_WAIT_MS as int),
                budget_left(state) >= 0,
                WRAPPER_WAIT_MS == 1000,
        ;
        assert(classify(paths[i as int]@) == AppKind::HostWrapper);
    }
    let last = after_rounds(state, paths, rounds);
    assert(last.phase is ProcessPath);
    assert(budget_left(last) < WRAPPER_WAIT_MS) by (nonlinear_arith)
        requires
            budget_left(last) == budget_left(state) - rounds * WRAPPER_WAIT_MS,
            rounds == budget_left(state) / (WRAPPER_WAIT_MS as int),
            budget_left(state) >= 0,
            WRAPPER_WAIT_MS == 1000,
    ;
    assert(classify(paths[rounds as int]@) == AppKind::HostWrapper);
    assert(rounds * WRAPPER_WAIT_MS <= WRAPPER_BUDGET_MS) by (nonlinear_arith)
        requires
            rounds == budget_left(state) / (WRAPPER_WAIT_MS as int),
            0 <= budget_left(state) <= WRAPPER_BUDGET_MS,
            WRAPPER_WAIT_MS == 1000,
    ;
}

/// Each round of waiting uses up one interval of the budget.
proof fn waiting_uses_budget(state: ResolverView, paths: Seq<String>, rounds: nat)
    requires
        state.phase is ProcessPath,
        0 <= budget_left(state) <= WRAPPER_BUDGET_MS,
        rounds <= budget_left(state) / (WRAPPER_WAIT_MS as int),
        paths.len() > budget_left(state) / (WRAPPER_WAIT_MS as int),
        forall|i: int| 0 <= i < paths.len() ==> classify((#[trigger] paths[i])@) == AppKind::HostWrapper,
    ensures
        after_rounds(state, paths, rounds).phase is ProcessPath,
        budget_left(after_rounds(state, paths, rounds)) == budget_left(state) - rounds
            * WRAPPER_WAIT_MS,
    decreases rounds,
{
    if rounds > 0 {
        let earlier = (rounds - 1) as nat;
        waiting_uses_budget(state, paths, earlier);
        let before = after_rounds(state, paths, earlier);
        assert(budget_left(before) >= WRAPPER_WAIT_MS) by (nonlinear_arith)
            requires
                budget_left(before) == budget_left(state) - earlier * WRAPPER_WAIT_MS,
                earlier < budget_left(state) / (WRAPPER_WAIT_MS as int),
                budget_left(state) >= 0,
                WRAPPER_WAIT_MS == 1000,
        ;
        assert(classify(paths[rounds - 1]@) == AppKind::HostWrapper);
        assert(may_wait(before.phase->ProcessPath_waited));
        assert(rounds * WRAPPER_WAIT_MS == earlier * WRAPPER_WAIT_MS + WRAPPER_WAIT_MS)
            by (nonlinear_arith)
            requires
                rounds == earlier + 1,
        ;
    }
}

/// How many more waits for a host wrapper the budget holds after `waited`
/// milliseconds.
pub open spec fn waits_left(waited: u32) -> int {
    if waited <= WRAPPER_BUDGET_MS {
        (WRAPPER_BUDGET_MS - waited) / (WRAPPER_WAIT_MS as int)
    } else {
        0
    }
}

/// A bound on the number of steps that a resolution can still take.
pub open spec fn steps_left(phase: PhaseView) -> int {
    match phase {
        PhaseView::Finished => 0,
        PhaseView::Asset => 1,
        PhaseView::NativeIcon => 1,
        PhaseView::Listing { .. } => 2,
        PhaseView::Manifest { .. } => 3,
        PhaseView::ShortcutCheck { .. } => 4,
        PhaseView::ProcessPath { waited, .. } => 6 + 2 * waits_left(waited),
        PhaseView::WrapperWait { waited, .. } => 7 + 2 * waits_left(waited),
        PhaseView::ChildOwners { retried, .. } => if retried {
            27
        } else {
            29
        },
        PhaseView::Backoff { .. } => 28,
        PhaseView::WindowOwner { .. } => 30,
    }
}

/// Every resolution ends. Each step brings the resolver nearer to its end
/// by one at least, whatever the event, and no resolver is more than
/// thirty steps away from it. The step that ends the resolution is the one
/// whose action is `Finish`, and no other.
pub proof fn every_step_advances(state: ResolverView, event: Event)
    ensures
        0 <= steps_left(state.phase) <= 30,
        state.phase != PhaseView::Finished ==> steps_left(next(state, event).0.phase) < steps_left(
            state.phase,
        ),
        next(state, event).1 is Finish <==> next(state, event).0.phase == PhaseView::Finished,
{
    let wait = WRAPPER_WAIT_MS as int;
    assert forall|waited: u32| 0 <= #[trigger] waits_left(waited) <= 10 by {
        if waited <= WRAPPER_BUDGET_MS {
            assert(0 <= (WRAPPER_BUDGET_MS - waited) / wait <= 10) by (nonlinear_arith)
                requires
                    wait == 1000,
                    0 <= WRAPPER_BUDGET_MS - waited <= 10000,
            ;
        }
    }
    assert forall|waited: u32| may_wait(waited) implies waits_left(
        (waited + WRAPPER_WAIT_MS) as u32,
    ) == #[trigger] waits_left(waited) - 1 by {
        let left = WRAPPER_BUDGET_MS - waited;
        assert((left - wait) / wait == left / wait - 1) by (nonlinear_arith)
            requires
                wait == 1000,
                left >= wait,
        ;
    }
    match state.phase {
        PhaseView::ProcessPath { waited, .. } => {
            assert(0 <= waits_left(waited) <= 10);
            if may_wait(waited) {
                assert(waits_left((waited + WRAPPER_WAIT_MS) as u32) == waits_left(waited) - 1);
            }
        },
        PhaseView::WrapperWait { waited, .. } => {
            assert(0 <= waits_left(waited) <= 10);
        },
        _ => {
            assert(0 <= waits_left(0) <= 10);
        },
    }
}

/// A packaged application from end to end. Where the path of the process
/// names a packaged application, the package has no shortcut icon, its
/// manifest declares the logo `logo`, and scale matching chooses `chosen`
/// among the entries of the logo's directory, the resolver asks in turn
/// for the shortcut icon, the manifest, the directory of the nominal icon
/// and the bytes of `chosen`.
pub proof fn packaged_application_is_resolved(
    state: ResolverView,
    path: String,
    manifest: String,
    logo: Seq<char>,
    entries: Vec<DirEntry>,
    chosen: Seq<char>,
)
    requires
        state.phase is ProcessPath,
        classify(path@) == AppKind::PackagedApplication,
        file_name(path@).len() > 0,
        logo_reference(manifest@) == Some(logo),
        matched_icon(join(parent(path@), logo), entries@, state.scale) == Some(chosen),
    ensures
        ({
            let package = parent(path@);
            let found = next(state, Event::ProcessPath(Some(path)));
            let checked = next(found.0, Event::FileExists(false));
            let read = next(checked.0, Event::Text(Some(manifest)));
            let listed = next(read.0, Event::Listing(Some(entries)));
            &&& found.1 == ActionView::CheckFile { path: shortcut_path(package) }
            &&& checked.1 == ActionView::ReadText { path: manifest_path(package) }
            &&& read.1 == ActionView::ListDirectory { path: parent(join(package, logo)) }
            &&& listed.1 == ActionView::ReadBytes { path: chosen }
            &&& listed.0.phase == PhaseView::Asset
        }),
{
}

} // verus!
