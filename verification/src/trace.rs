//! Whole runs of the start-up machine, and what holds of every run.
//!
//! A run is the sequence of events that the embedding program reported,
//! accepted or not. The laws below speak of every such sequence, so they
//! also hold of a program that reports events out of turn.

use vstd::prelude::*;
use crate::bootstrap::{Action, Bootstrap, CaptureCapability, Event, Stage};
use crate::config::{lemma_chain_positions, Plugin};

verus! {

/// The machine after all of `events`, taken in order from `b`.
pub open spec fn run(b: Bootstrap, events: Seq<Event>) -> Bootstrap
    decreases events.len(),
{
    if events.len() == 0 {
        b
    } else {
        run(b, events.drop_last()).after(events.last())
    }
}

/// The calls that the machine names in answer to `events`, one for each
/// event.
pub open spec fn actions(b: Bootstrap, events: Seq<Event>) -> Seq<Action>
    decreases events.len(),
{
    if events.len() == 0 {
        Seq::empty()
    } else {
        actions(b, events.drop_last()).push(run(b, events.drop_last()).response(events.last()))
    }
}

/// The plugins whose registration `actions` asks for, in order.
pub open spec fn registrations(actions: Seq<Action>) -> Seq<Plugin>
    decreases actions.len(),
{
    if actions.len() == 0 {
        Seq::empty()
    } else {
        match actions.last() {
            Action::RegisterPlugin(p) => registrations(actions.drop_last()).push(p),
            _ => registrations(actions.drop_last()),
        }
    }
}

/// How many registrations have been asked for once the machine is in
/// `stage`.
pub open spec fn registered(stage: Stage) -> nat {
    match stage {
        Stage::Init => 0,
        Stage::RegisteringPlugin(p) => p.position() + 1,
        _ => 4,
    }
}

/// Feeds `events` to a fresh machine and returns it together with the call
/// named for each event.
pub fn replay(capability: CaptureCapability, events: &Vec<Event>) -> (r: (Bootstrap, Vec<Action>))
    ensures
        r.0 == run(Bootstrap::initial(capability), events@),
        r.1@ == actions(Bootstrap::initial(capability), events@),
{
    let mut machine = Bootstrap::new(capability);
    let mut named: Vec<Action> = Vec::new();
    let mut i: usize = 0;
    while i < events.len()
        invariant
            i <= events.len(),
            machine == run(Bootstrap::initial(capability), events@.take(i as int)),
            named@ == actions(Bootstrap::initial(capability), events@.take(i as int)),
        decreases events.len() - i,
    {
        proof {
            assert(events@.take(i + 1).drop_last() == events@.take(i as int));
        }
        let action = machine.step(events[i]);
        named.push(action);
        i = i + 1;
    }
    proof {
        assert(events@.take(i as int) == events@);
    }
    (machine, named)
}

/// Every event is answered by one call, and the capability never changes.
pub proof fn lemma_run_shape(b: Bootstrap, events: Seq<Event>)
    ensures
        actions(b, events).len() == events.len(),
        run(b, events).capability == b.capability,
    decreases events.len(),
{
    if events.len() > 0 {
        lemma_run_shape(b, events.drop_last());
    }
}

/// Unless the display was resolved, no window setting is set: in a run
/// without the event `MonitorResolved`, no call sets the size, the position
/// or the always-on-top flag.
pub proof fn law_no_setter_without_monitor(capability: CaptureCapability, events: Seq<Event>)
    requires
        forall|i: int| 0 <= i < events.len() ==> events[i] != Event::MonitorResolved,
    ensures
        actions(Bootstrap::initial(capability), events).len() == events.len(),
        forall|i: int|
            0 <= i < events.len() ==> !(#[trigger] actions(
                Bootstrap::initial(capability),
                events,
            )[i]).is_setter(),
        !(run(Bootstrap::initial(capability), events).stage is Applying),
    decreases events.len(),
{
    let b = Bootstrap::initial(capability);
    if events.len() > 0 {
        let front = events.drop_last();
        law_no_setter_without_monitor(capability, front);
        assert forall|i: int| 0 <= i < events.len() implies !(#[trigger] actions(b, events)[i]).is_setter() by {
            if i < events.len() - 1 {
                assert(actions(b, events)[i] == actions(b, front)[i]);
            }
        }
    }
}

/// Without the window, start-up touches nothing: in a run without the event
/// `WindowFound`, no call asks for capture exclusion, resolves the display
/// or sets a window setting.
pub proof fn law_absent_window_touches_nothing(capability: CaptureCapability, events: Seq<Event>)
    requires
        forall|i: int| 0 <= i < events.len() ==> events[i] != Event::WindowFound,
    ensures
        actions(Bootstrap::initial(capability), events).len() == events.len(),
        forall|i: int|
            0 <= i < events.len() ==> !(#[trigger] actions(
                Bootstrap::initial(capability),
                events,
            )[i]).touches_window(),
        !run(Bootstrap::initial(capability), events).stage.duty().touches_window(),
    decreases events.len(),
{
    let b = Bootstrap::initial(capability);
    if events.len() > 0 {
        let front = events.drop_last();
        law_absent_window_touches_nothing(capability, front);
        assert forall|i: int| 0 <= i < events.len() implies !(#[trigger] actions(
            b,
            events,
        )[i]).touches_window() by {
            if i < events.len() - 1 {
                assert(actions(b, events)[i] == actions(b, front)[i]);
            }
        }
    }
}

/// On a platform without capture exclusion the adapter does nothing: no run
/// names a call of the capture-exclusion request, and finding the window
/// leads straight to resolving the display.
pub proof fn law_no_op_capability_skips_capture(events: Seq<Event>)
    ensures
        actions(Bootstrap::initial(CaptureCapability::NoOp), events).len() == events.len(),
        forall|i: int|
            0 <= i < events.len() ==> !(#[trigger] actions(
                Bootstrap::initial(CaptureCapability::NoOp),
                events,
            )[i]).is_capture(),
        !run(Bootstrap::initial(CaptureCapability::NoOp), events).stage.duty().is_capture(),
        (Bootstrap { capability: CaptureCapability::NoOp, stage: Stage::LookingUpWindow }).response(
            Event::WindowFound,
        ) == Action::ResolveMonitor,
    decreases events.len(),
{
    let b = Bootstrap::initial(CaptureCapability::NoOp);
    if events.len() > 0 {
        let front = events.drop_last();
        law_no_op_capability_skips_capture(front);
        lemma_run_shape(b, front);
        assert forall|i: int| 0 <= i < events.len() implies !(#[trigger] actions(b, events)[i]).is_capture() by {
            if i < events.len() - 1 {
                assert(actions(b, events)[i] == actions(b, front)[i]);
            }
        }
    }
}

/// Each plugin is registered at most once and in the order of the chain:
/// the registrations that a run asks for are the first members of the
/// chain, as many as the stage reached accounts for.
pub proof fn law_plugins_registered_once_in_order(capability: CaptureCapability, events: Seq<Event>)
    ensures
        registered(run(Bootstrap::initial(capability), events).stage) <= Plugin::chain().len(),
        registrations(actions(Bootstrap::initial(capability), events)) == Plugin::chain().take(
            registered(run(Bootstrap::initial(capability), events).stage) as int,
        ),
    decreases events.len(),
{
    let b = Bootstrap::initial(capability);
    if events.len() > 0 {
        let front = events.drop_last();
        law_plugins_registered_once_in_order(capability, front);
        let before = run(b, front);
        let n = registered(before.stage) as int;
        assert(actions(b, events).drop_last() == actions(b, front));
        if let Action::RegisterPlugin(p) = before.response(events.last()) {
            lemma_chain_positions(p);
            assert(Plugin::chain().take(n + 1) == Plugin::chain().take(n).push(p));
        }
    }
}

/// Start-up is bounded: a run in which every event is accepted has at most
/// fourteen events, and each of them brings the end nearer.
pub proof fn law_bootstrap_is_bounded(capability: CaptureCapability, events: Seq<Event>)
    requires
        forall|i: int|
            0 <= i < events.len() ==> (#[trigger] run(
                Bootstrap::initial(capability),
                events.take(i),
            )).accepts(events[i]),
    ensures
        run(Bootstrap::initial(capability), events).stage.remaining() + events.len() <= 14,
    decreases events.len(),
{
    let b = Bootstrap::initial(capability);
    if events.len() > 0 {
        let front = events.drop_last();
        assert forall|i: int| 0 <= i < front.len() implies (#[trigger] run(b, front.take(i))).accepts(
            front[i],
        ) by {
            assert(front.take(i) == events.take(i));
        }
        law_bootstrap_is_bounded(capability, front);
    }
}

/// The call named for the event at `index` is the machine's response to it
/// after the events before it.
pub proof fn lemma_action_at(b: Bootstrap, events: Seq<Event>, index: int)
    requires
        0 <= index < events.len(),
    ensures
        actions(b, events).len() == events.len(),
        actions(b, events)[index] == run(b, events.take(index)).response(events[index]),
    decreases events.len(),
{
    lemma_run_shape(b, events);
    let front = events.drop_last();
    if index < events.len() - 1 {
        lemma_action_at(b, front, index);
        assert(front.take(index) == events.take(index));
    } else {
        assert(events.take(index) == front);
    }
}

/// The bound on the answers still to come never grows in the course of a
/// run.
pub proof fn lemma_remaining_never_grows(b: Bootstrap, events: Seq<Event>, len: int)
    requires
        0 <= len <= events.len(),
    ensures
        run(b, events).stage.remaining() <= run(b, events.take(len)).stage.remaining(),
    decreases events.len(),
{
    if len == events.len() {
        assert(events.take(len) == events);
    } else {
        let front = events.drop_last();
        lemma_remaining_never_grows(b, front, len);
        assert(front.take(len) == events.take(len));
    }
}

/// No host call is asked for twice: two calls named in one run, neither of
/// them `Idle`, are different calls. So every plugin's hook runs at most
/// once, there is at most one capture-exclusion request, and each setter is
/// applied at most once.
pub proof fn law_every_call_at_most_once(b: Bootstrap, events: Seq<Event>, i: int, j: int)
    requires
        0 <= i < j < events.len(),
        !(actions(b, events)[i] is Idle),
        !(actions(b, events)[j] is Idle),
    ensures
        actions(b, events)[i] != actions(b, events)[j],
{
    lemma_action_at(b, events, i);
    lemma_action_at(b, events, j);
    let upto_i = events.take(i + 1);
    let upto_j = events.take(j + 1);
    assert(upto_i.drop_last() == events.take(i));
    assert(upto_j.drop_last() == events.take(j));
    let after_i = run(b, upto_i).stage;
    let before_j = run(b, events.take(j)).stage;
    let after_j = run(b, upto_j).stage;
    assert(actions(b, events)[i] == after_i.duty());
    assert(actions(b, events)[j] == after_j.duty());
    assert(after_j.remaining() < before_j.remaining());
    assert(events.take(j).take(i + 1) == upto_i);
    lemma_remaining_never_grows(b, events.take(j), i + 1);
    assert(before_j.remaining() <= after_i.remaining());
}

/// The coarse state never goes back in the course of a run.
pub proof fn law_phase_never_goes_back(b: Bootstrap, events: Seq<Event>)
    ensures
        run(b, events).stage.phase().ordinal() >= b.stage.phase().ordinal(),
    decreases events.len(),
{
    if events.len() > 0 {
        law_phase_never_goes_back(b, events.drop_last());
    }
}

} // verus!
