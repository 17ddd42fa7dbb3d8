use vstd::prelude::*;

use crate::handoff::{
    lemma_labels_distinct, plan, Handoff, HandoffError, Operation, Step, WindowLabel,
};
use crate::registry::WindowRegistry;

verus! {

/// What a step does to a registry whose view is `m`: whether it succeeds,
/// and the registry after it.
pub open spec fn step_effect(step: Step, m: Map<Seq<char>, bool>) -> (bool, Map<Seq<char>, bool>) {
    let name = step.spec_label().spec_name();
    match step {
        Step::Resolve(_) => (m.contains_key(name), m),
        Step::Close(_) => if m.contains_key(name) {
            (true, m.remove(name))
        } else {
            (false, m)
        },
        Step::Show(_) => if m.contains_key(name) {
            (true, m.insert(name, true))
        } else {
            (false, m)
        },
    }
}

/// Runs `steps` from index `i` on `m`, stopping at the first that fails.
pub open spec fn run_from(steps: Seq<Step>, i: nat, m: Map<Seq<char>, bool>) -> (
    Result<(), HandoffError>,
    Map<Seq<char>, bool>,
)
    decreases steps.len() - i,
{
    if i >= steps.len() {
        (Ok(()), m)
    } else {
        let (ok, next) = step_effect(steps[i as int], m);
        if ok {
            run_from(steps, i + 1, next)
        } else {
            (Err(steps[i as int].failure()), next)
        }
    }
}

/// The result of `op` on a registry whose view is `m`, and the registry after it.
pub open spec fn handoff_outcome(op: Operation, m: Map<Seq<char>, bool>) -> (
    Result<(), HandoffError>,
    Map<Seq<char>, bool>,
) {
    run_from(plan(op), 0, m)
}

/// The closing handoff in closed form: it fails on the first missing window,
/// splash window first, without changing anything; otherwise the splash window
/// is gone and the main window is visible.
pub proof fn lemma_close_splash_outcome(m: Map<Seq<char>, bool>)
    ensures
        ({
            let (r, after) = handoff_outcome(Operation::CloseSplashAndShowMain, m);
            let splash = WindowLabel::Splashscreen.spec_name();
            let main = WindowLabel::Main.spec_name();
            &&& !m.contains_key(splash) ==> r == Err::<(), HandoffError>(
                HandoffError::WindowNotFound(WindowLabel::Splashscreen),
            ) && after == m
            &&& m.contains_key(splash) && !m.contains_key(main) ==> r == Err::<(), HandoffError>(
                HandoffError::WindowNotFound(WindowLabel::Main),
            ) && after == m
            &&& m.contains_key(splash) && m.contains_key(main) ==> r == Ok::<(), HandoffError>(())
                && after == m.remove(splash).insert(main, true)
        }),
{
    lemma_labels_distinct();
    let steps = plan(Operation::CloseSplashAndShowMain);
    let splash = WindowLabel::Splashscreen.spec_name();
    let main = WindowLabel::Main.spec_name();
    assert(steps.len() == 4);
    assert(steps[0] == Step::Resolve(WindowLabel::Splashscreen));
    assert(steps[1] == Step::Resolve(WindowLabel::Main));
    assert(steps[2] == Step::Close(WindowLabel::Splashscreen));
    assert(steps[3] == Step::Show(WindowLabel::Main));
    let m2 = m.remove(splash);
    let m3 = m2.insert(main, true);
    assert(m2.contains_key(main) == m.contains_key(main));
    assert(run_from(steps, 4, m3) == (Ok::<(), HandoffError>(()), m3));
    if m2.contains_key(main) {
        assert(run_from(steps, 3, m2) == run_from(steps, 4, m3));
    }
    if m.contains_key(splash) {
        assert(run_from(steps, 2, m) == run_from(steps, 3, m2));
    }
    if m.contains_key(main) {
        assert(run_from(steps, 1, m) == run_from(steps, 2, m));
    } else {
        assert(run_from(steps, 1, m) == (
            Err::<(), HandoffError>(HandoffError::WindowNotFound(WindowLabel::Main)),
            m,
        ));
    }
    if m.contains_key(splash) {
        assert(run_from(steps, 0, m) == run_from(steps, 1, m));
    } else {
        assert(run_from(steps, 0, m) == (
            Err::<(), HandoffError>(HandoffError::WindowNotFound(WindowLabel::Splashscreen)),
            m,
        ));
    }
}

/// Showing the main window in closed form: it fails without changing
/// anything when the main window is missing; otherwise the main window is
/// visible and every other window is as it was.
pub proof fn lemma_show_main_outcome(m: Map<Seq<char>, bool>)
    ensures
        ({
            let (r, after) = handoff_outcome(Operation::ShowMainWindow, m);
            let main = WindowLabel::Main.spec_name();
            &&& !m.contains_key(main) ==> r == Err::<(), HandoffError>(
                HandoffError::WindowNotFound(WindowLabel::Main),
            ) && after == m
            &&& m.contains_key(main) ==> r == Ok::<(), HandoffError>(()) && after == m.insert(
                main,
                true,
            )
        }),
{
    let steps = plan(Operation::ShowMainWindow);
    let main = WindowLabel::Main.spec_name();
    assert(steps.len() == 2);
    assert(steps[0] == Step::Resolve(WindowLabel::Main));
    assert(steps[1] == Step::Show(WindowLabel::Main));
    let m1 = m.insert(main, true);
    assert(run_from(steps, 2, m1) == (Ok::<(), HandoffError>(()), m1));
    if m.contains_key(main) {
        assert(run_from(steps, 1, m) == run_from(steps, 2, m1));
        assert(run_from(steps, 0, m) == run_from(steps, 1, m));
    } else {
        assert(run_from(steps, 0, m) == (
            Err::<(), HandoffError>(HandoffError::WindowNotFound(WindowLabel::Main)),
            m,
        ));
    }
}

/// Performs one step on the registry.
pub fn perform(registry: &mut WindowRegistry, step: Step) -> (ok: bool)
    requires
        old(registry).wf(),
    ensures
        final(registry).wf(),
        (ok, final(registry)@) == step_effect(step, old(registry)@),
{
    let name = step.label().name();
    match step {
        Step::Resolve(_) => registry.contains(name),
        Step::Close(_) => registry.close(name),
        Step::Show(_) => registry.set_visible(name, true),
    }
}

/// Runs `op` on the registry, one step after another, until it succeeds or a
/// step fails.
pub fn run_operation(registry: &mut WindowRegistry, op: Operation) -> (r: Result<
    (),
    HandoffError,
>)
    requires
        old(registry).wf(),
    ensures
        final(registry).wf(),
        (r, final(registry)@) == handoff_outcome(op, old(registry)@),
{
    let ghost start = registry@;
    let mut handoff = Handoff::new(op);
    loop
        invariant
            start == old(registry)@,
            registry.wf(),
            handoff.wf(),
            handoff.spec_operation() == op,
            run_from(plan(op), handoff.spec_completed(), registry@) == handoff_outcome(op, start),
        decreases plan(op).len() - handoff.spec_completed(),
    {
        let step = handoff.current();
        let ghost before = registry@;
        let ghost done = handoff.spec_completed();
        let ok = perform(registry, step);
        assert(run_from(plan(op), done, before) == (if ok {
            run_from(plan(op), done + 1, registry@)
        } else {
            (Err::<(), HandoffError>(step.failure()), registry@)
        }));
        match handoff.record(ok) {
            Some(r) => {
                if ok {
                    assert(run_from(plan(op), done + 1, registry@) == (
                        Ok::<(), HandoffError>(()),
                        registry@,
                    ));
                }
                return r;
            },
            None => {},
        }
    }
}

/// Closes the splash window and shows the main window. Both windows are
/// resolved before either is changed: where one is missing, its
/// `WindowNotFound` comes back (the splash window's first) and no window
/// changes.
pub fn close_splash_and_show_main(registry: &mut WindowRegistry) -> (r: Result<(), HandoffError>)
    requires
        old(registry).wf(),
    ensures
        final(registry).wf(),
        (r, final(registry)@) == handoff_outcome(
            Operation::CloseSplashAndShowMain,
            old(registry)@,
        ),
        !old(registry)@.contains_key(WindowLabel::Splashscreen.spec_name()) ==> r == Err::<
            (),
            HandoffError,
        >(HandoffError::WindowNotFound(WindowLabel::Splashscreen)) && final(registry)@ == old(
            registry,
        )@,
        old(registry)@.contains_key(WindowLabel::Splashscreen.spec_name()) && !old(
            registry,
        )@.contains_key(WindowLabel::Main.spec_name()) ==> r == Err::<(), HandoffError>(
            HandoffError::WindowNotFound(WindowLabel::Main),
        ) && final(registry)@ == old(registry)@,
        old(registry)@.contains_key(WindowLabel::Splashscreen.spec_name()) && old(
            registry,
        )@.contains_key(WindowLabel::Main.spec_name()) ==> r == Ok::<(), HandoffError>(())
            && final(registry)@ == old(registry)@.remove(
            WindowLabel::Splashscreen.spec_name(),
        ).insert(WindowLabel::Main.spec_name(), true)
            && !final(registry)@.contains_key(WindowLabel::Splashscreen.spec_name())
            && final(registry)@[WindowLabel::Main.spec_name()],
{
    proof {
        lemma_close_splash_outcome(registry@);
        lemma_labels_distinct();
    }
    run_operation(registry, Operation::CloseSplashAndShowMain)
}

/// Shows the main window. Where it is missing, `WindowNotFound` comes back
/// and no window changes; otherwise it is visible and every other window,
/// the splash window among them, is as it was.
pub fn show_main_window(registry: &mut WindowRegistry) -> (r: Result<(), HandoffError>)
    requires
        old(registry).wf(),
    ensures
        final(registry).wf(),
        (r, final(registry)@) == handoff_outcome(Operation::ShowMainWindow, old(registry)@),
        !old(registry)@.contains_key(WindowLabel::Main.spec_name()) ==> r == Err::<
            (),
            HandoffError,
        >(HandoffError::WindowNotFound(WindowLabel::Main)) && final(registry)@ == old(
            registry,
        )@,
        old(registry)@.contains_key(WindowLabel::Main.spec_name()) ==> r == Ok::<
            (),
            HandoffError,
        >(()) && final(registry)@ == old(registry)@.insert(WindowLabel::Main.spec_name(), true)
            && final(registry)@[WindowLabel::Main.spec_name()],
{
    proof {
        lemma_show_main_outcome(registry@);
    }
    run_operation(registry, Operation::ShowMainWindow)
}

/// The closing handoff is not idempotent: once it has succeeded, running it
/// again fails on the splash window, which is gone, and changes nothing.
pub proof fn lemma_second_close_fails(m: Map<Seq<char>, bool>)
    requires
        m.contains_key(WindowLabel::Splashscreen.spec_name()),
        m.contains_key(WindowLabel::Main.spec_name()),
    ensures
        ({
            let (first, after) = handoff_outcome(Operation::CloseSplashAndShowMain, m);
            let (second, again) = handoff_outcome(Operation::CloseSplashAndShowMain, after);
            &&& first == Ok::<(), HandoffError>(())
            &&& second == Err::<(), HandoffError>(
                HandoffError::WindowNotFound(WindowLabel::Splashscreen),
            )
            &&& again == after
        }),
{
    lemma_labels_distinct();
    lemma_close_splash_outcome(m);
    let after = handoff_outcome(Operation::CloseSplashAndShowMain, m).1;
    assert(!after.contains_key(WindowLabel::Splashscreen.spec_name()));
    lemma_close_splash_outcome(after);
}

} // verus!
