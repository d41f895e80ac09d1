//! The life cycle of an instance as a state machine.
//!
//! The controller never touches the component. It decides which [`Action`]
//! the embedding program has to perform next, and it takes in what happened
//! as an [`Event`]. This module defines both, and says for every state and
//! every event what the outcome is and which state follows.

use crate::plugin::error::{LifecycleError, Rejection};
use crate::plugin::instance::PluginStatus;
use vstd::prelude::*;

verus! {

/// Something the embedding program has to do on behalf of the controller.
///
/// The first four are calls through the instance's own function table, the
/// last two are calls to the host that keeps track of the live instances.
#[derive(Debug, Clone, Copy, PartialEq, Eq, Structural)]
pub enum Action {
    /// Call the component's `init()`.
    Init,
    /// Call the component's `activate()` with these arguments. The sample
    /// rate is carried as the bit pattern of the IEEE 754 double that the
    /// component receives.
    Activate { sample_rate_bits: u64, min_frames_count: u32, max_frames_count: u32 },
    /// Call the component's `deactivate()`.
    Deactivate,
    /// Call the component's `destroy()`. The instance is gone afterwards.
    Destroy,
    /// Enter the instance into the host's registry, so that callbacks made
    /// by the component find their way to it.
    RegisterInstance,
    /// Remove the instance from the host's registry, so that nothing is
    /// dispatched to it any more.
    UnregisterInstance,
}

impl Action {
    /// Whether the action is a call into the component.
    pub open spec fn is_component_call(self) -> bool {
        self is Init || self is Activate || self is Deactivate || self is Destroy
    }

    /// Whether the action is a call into the component, as opposed to one
    /// to the host.
    pub fn crosses_boundary(self) -> (crosses: bool)
        ensures
            crosses == self.is_component_call(),
    {
        match self {
            Action::Init | Action::Activate { .. } | Action::Deactivate | Action::Destroy => true,
            Action::RegisterInstance | Action::UnregisterInstance => false,
        }
    }
}

/// Something that happened to the instance and that its state depends on.
#[derive(Debug, Clone, Copy, PartialEq, Eq, Structural)]
pub enum Event {
    /// The component's `init()` returned `accepted`.
    InitReturned { accepted: bool },
    /// The component's `activate()` returned `accepted`.
    ActivateReturned { accepted: bool },
    /// The component's `deactivate()` returned.
    DeactivateReturned,
    /// The audio thread started processing.
    ProcessingStarted,
    /// The audio thread stopped processing.
    ProcessingStopped,
}

impl Event {
    /// The one state in which the event can be taken in.
    pub open spec fn expects(self) -> PluginStatus {
        match self {
            Event::InitReturned { .. } => PluginStatus::Uninitialized,
            Event::ActivateReturned { .. } => PluginStatus::Deactivated,
            Event::DeactivateReturned => PluginStatus::Activated,
            Event::ProcessingStarted => PluginStatus::Activated,
            Event::ProcessingStopped => PluginStatus::Processing,
        }
    }

    /// What the component said against the call, if it said anything.
    pub open spec fn rejection(self) -> Option<Rejection> {
        match self {
            Event::InitReturned { accepted: false } => Some(Rejection::InitFailed),
            Event::ActivateReturned { accepted: false } => Some(Rejection::ActivateFailed),
            _ => None,
        }
    }

    /// The state that follows once the event has been taken in without
    /// error.
    pub open spec fn leads_to(self) -> PluginStatus {
        match self {
            Event::InitReturned { .. } => PluginStatus::Deactivated,
            Event::ActivateReturned { .. } => PluginStatus::Activated,
            Event::DeactivateReturned => PluginStatus::Deactivated,
            Event::ProcessingStarted => PluginStatus::Processing,
            Event::ProcessingStopped => PluginStatus::Activated,
        }
    }
}

/// What taking in `event` in state `status` results in.
pub open spec fn outcome(status: PluginStatus, event: Event) -> Result<(), LifecycleError> {
    if status != event.expects() {
        Err(LifecycleError::WrongState)
    } else {
        match event.rejection() {
            Some(rejection) => Err(LifecycleError::RejectedByComponent(rejection)),
            None => Ok(()),
        }
    }
}

/// The state after `event` has been taken in in state `status`. An event
/// that results in an error leaves the state as it was.
pub open spec fn after(status: PluginStatus, event: Event) -> PluginStatus {
    if outcome(status, event) is Ok {
        event.leads_to()
    } else {
        status
    }
}

/// What is left to do for an instance that is being torn down.
#[derive(Debug, Clone, PartialEq, Eq)]
pub struct Teardown {
    /// The calls to make, in this order.
    pub actions: Vec<Action>,
    /// The state in which the instance is destroyed. It differs from the
    /// state in which it was found if it had to be deactivated first.
    pub status: PluginStatus,
}

/// What has to be done, in this order, to tear down an instance found in
/// state `status`: an active instance is deactivated first, every instance
/// is destroyed and then taken off the host's registry.
///
/// There is no such plan for `Processing`.
pub open spec fn teardown_plan(status: PluginStatus) -> Seq<Action> {
    if status == PluginStatus::Activated {
        seq![Action::Deactivate, Action::Destroy, Action::UnregisterInstance]
    } else {
        seq![Action::Destroy, Action::UnregisterInstance]
    }
}

/// The state in which an instance found in state `status` is destroyed,
/// after it has been deactivated if that was called for.
pub open spec fn status_at_destroy(status: PluginStatus) -> PluginStatus {
    if status == PluginStatus::Activated {
        PluginStatus::Deactivated
    } else {
        status
    }
}

/// The state that an instance which starts in `start` is in after `events`
/// have been taken in one after the other, whether or not each went through.
pub open spec fn status_after(start: PluginStatus, events: Seq<Event>) -> PluginStatus
    decreases events.len(),
{
    if events.len() == 0 {
        start
    } else {
        after(status_after(start, events.drop_last()), events.last())
    }
}

/// An event goes through only in the one state it belongs to, and then the
/// instance moves to a neighbouring state of the chain. An event that does
/// not go through changes nothing.
pub proof fn lemma_event_moves_one_step(status: PluginStatus, event: Event)
    ensures
        outcome(status, event) is Ok ==> status == event.expects() && after(status, event)
            == event.leads_to(),
        outcome(status, event) is Ok ==> after(status, event).rank() == status.rank() + 1
            || after(status, event).rank() + 1 == status.rank(),
        outcome(status, event) is Err ==> after(status, event) == status,
        status.within_one_step(after(status, event)),
{
}

/// Whatever is thrown at an instance, and in whatever order, each event
/// leaves it where it was or moves it to a neighbouring state of the chain:
/// the states before and after the `i`-th event are never more than one
/// step apart.
pub proof fn lemma_trace_moves_one_step_at_a_time(
    start: PluginStatus,
    events: Seq<Event>,
    i: int,
)
    requires
        0 <= i < events.len(),
    ensures
        status_after(start, events.take(i + 1)) == after(
            status_after(start, events.take(i)),
            events[i],
        ),
        status_after(start, events.take(i)).within_one_step(
            status_after(start, events.take(i + 1)),
        ),
{
    let upto = events.take(i + 1);
    assert(upto.drop_last() =~= events.take(i));
    assert(upto.last() == events[i]);
    lemma_event_moves_one_step(status_after(start, events.take(i)), events[i]);
}

/// No sequence of events skips a level: an instance that ends up in another
/// state than it started in has been in every state in between on the way.
pub proof fn lemma_every_level_between_is_visited(
    start: PluginStatus,
    events: Seq<Event>,
    level: nat,
)
    requires
        start.rank() <= level <= status_after(start, events).rank() || status_after(
            start,
            events,
        ).rank() <= level <= start.rank(),
    ensures
        exists|i: int|
            0 <= i <= events.len() && (#[trigger] status_after(start, events.take(i))).rank()
                == level,
    decreases events.len(),
{
    if events.len() == 0 {
        assert(events.take(0) =~= events);
        assert(status_after(start, events.take(0)).rank() == level);
    } else {
        let before = status_after(start, events.drop_last());
        lemma_event_moves_one_step(before, events.last());
        if status_after(start, events).rank() == level {
            let n = events.len() as int;
            assert(events.take(n) =~= events);
            assert(status_after(start, events.take(n)).rank() == level);
        } else {
            lemma_every_level_between_is_visited(start, events.drop_last(), level);
            let i = choose|i: int|
                0 <= i <= events.drop_last().len() && (#[trigger] status_after(
                    start,
                    events.drop_last().take(i),
                )).rank() == level;
            assert(events.drop_last().take(i) =~= events.take(i));
            assert(status_after(start, events.take(i)).rank() == level);
        }
    }
}

/// An instance cannot climb faster than one state per event: after `n`
/// events it is at most `n` states away from where it started.
pub proof fn lemma_distance_is_bounded_by_length(start: PluginStatus, events: Seq<Event>)
    ensures
        status_after(start, events).rank() <= start.rank() + events.len(),
        start.rank() <= status_after(start, events).rank() + events.len(),
    decreases events.len(),
{
    if events.len() > 0 {
        lemma_distance_is_bounded_by_length(start, events.drop_last());
        lemma_event_moves_one_step(status_after(start, events.drop_last()), events.last());
    }
}

/// Tearing down an instance that is not processing takes it back by one
/// state at most, and that step is the ordinary deactivation. The component
/// is destroyed only when it is not active; its `deactivate()` is called
/// first exactly if it was; and the last thing to happen, after `destroy()`,
/// is that the host forgets the instance.
pub proof fn lemma_teardown_deactivates_before_it_destroys(status: PluginStatus)
    requires
        status != PluginStatus::Processing,
    ensures
        status.within_one_step(status_at_destroy(status)),
        status_at_destroy(status) == PluginStatus::Uninitialized || status_at_destroy(status)
            == PluginStatus::Deactivated,
        teardown_plan(status).contains(Action::Deactivate) <==> status == PluginStatus::Activated,
        status == PluginStatus::Activated ==> teardown_plan(status)[0] == Action::Deactivate
            && status_at_destroy(status) == after(status, Event::DeactivateReturned),
        teardown_plan(status)[teardown_plan(status).len() - 2] == Action::Destroy,
        teardown_plan(status).last() == Action::UnregisterInstance,
{
    let plan = teardown_plan(status);
    if status == PluginStatus::Activated {
        assert(plan[0] == Action::Deactivate);
    } else {
        assert(plan[0] == Action::Destroy);
        assert(plan[1] == Action::UnregisterInstance);
    }
}

/// Once `init()` has been accepted it cannot be taken in again, whatever
/// the component is said to have answered the second time.
pub proof fn lemma_init_goes_through_once(status: PluginStatus, accepted: bool)
    requires
        outcome(status, Event::InitReturned { accepted: true }) is Ok,
    ensures
        after(status, Event::InitReturned { accepted: true }) == PluginStatus::Deactivated,
        outcome(PluginStatus::Deactivated, Event::InitReturned { accepted }) == Err::<
            (),
            LifecycleError,
        >(LifecycleError::WrongState),
{
}

/// No event leads back to `Uninitialized`: an instance that has left that
/// state never returns to it.
pub proof fn lemma_initialization_is_final(start: PluginStatus, events: Seq<Event>)
    requires
        start != PluginStatus::Uninitialized,
    ensures
        status_after(start, events) != PluginStatus::Uninitialized,
    decreases events.len(),
{
    if events.len() > 0 {
        lemma_initialization_is_final(start, events.drop_last());
    }
}

} // verus!
