//! Single plugin instances, as seen from the main thread.

use crate::plugin::address::Address;
use crate::plugin::ext::Extension;
use crate::plugin::error::{CreationError, FatalStateViolation, LifecycleError, Rejection};
use crate::plugin::text::is_c_string;
use crate::plugin::lifecycle::{
    after, outcome, status_at_destroy, teardown_plan, Action, Event, Teardown,
};
use std::cmp::Ordering;
use std::marker::PhantomData;
use std::rc::Rc;
use vstd::prelude::*;
use vstd::std_specs::cmp::PartialOrdSpecImpl;

verus! {

/// Identifies one loaded instance by the address of its function table.
///
/// A handle is a plain value and may be handed to other threads. What may be
/// called through it from where is for the protocol to say.
#[derive(Debug, Clone, Copy, PartialEq, Eq, Structural, Hash)]
pub struct PluginHandle(pub Address);

/// A plugin instance under the control of the main thread.
///
/// A `Plugin` answers two kinds of questions. Asked for an operation
/// ([`init()`](Self::init), [`activate()`](Self::activate),
/// [`deactivate()`](Self::deactivate), [`get_extension()`](Self::get_extension)),
/// it checks the instance's state and either names the call that has to
/// cross the boundary or refuses; a refusal means that nothing may be
/// called. Told what the component answered (the functions whose names end
/// in `_returned`), it moves to the next state.
///
/// The value cannot be sent to or shared with another thread. The thread
/// that creates it is the instance's main thread.
#[derive(Debug)]
pub struct Plugin {
    handle: PluginHandle,
    status: PluginStatus,
    /// Keeps the type from being `Send` or `Sync`.
    _main_thread_only: PhantomData<Rc<()>>,
}

/// The life-cycle state of a plugin instance.
///
/// The states form a chain, `Uninitialized < Deactivated < Activated <
/// Processing`. An instance climbs it one state at a time through explicit
/// calls and descends it one state at a time as well.
#[derive(Debug, Clone, Copy, PartialEq, Eq, Structural, Ord, Hash)]
pub enum PluginStatus {
    Uninitialized,
    Deactivated,
    Activated,
    Processing,
}

impl PluginStatus {
    /// The position of a state in the chain, counted from `Uninitialized`.
    pub open spec fn rank(self) -> nat {
        match self {
            PluginStatus::Uninitialized => 0,
            PluginStatus::Deactivated => 1,
            PluginStatus::Activated => 2,
            PluginStatus::Processing => 3,
        }
    }

    /// Whether `next` is `self` or one of its neighbours in the chain.
    pub open spec fn within_one_step(self, next: PluginStatus) -> bool {
        self.rank() <= next.rank() + 1 && next.rank() <= self.rank() + 1
    }

    /// The position of this state in the chain, counted from `Uninitialized`.
    pub fn level(self) -> (level: u8)
        ensures
            level == self.rank(),
    {
        match self {
            PluginStatus::Uninitialized => 0,
            PluginStatus::Deactivated => 1,
            PluginStatus::Activated => 2,
            PluginStatus::Processing => 3,
        }
    }
}

impl Default for PluginStatus {
    fn default() -> (status: PluginStatus)
        ensures
            status == PluginStatus::Uninitialized,
    {
        PluginStatus::Uninitialized
    }
}

impl PartialOrd for PluginStatus {
    fn partial_cmp(&self, other: &PluginStatus) -> (order: Option<Ordering>) {
        let mine: u8 = self.level();
        let theirs: u8 = other.level();
        if mine < theirs {
            Some(Ordering::Less)
        } else if mine == theirs {
            Some(Ordering::Equal)
        } else {
            Some(Ordering::Greater)
        }
    }
}

impl PartialOrdSpecImpl for PluginStatus {
    open spec fn obeys_partial_cmp_spec() -> bool {
        true
    }

    open spec fn partial_cmp_spec(&self, other: &PluginStatus) -> Option<Ordering> {
        if self.rank() < other.rank() {
            Some(Ordering::Less)
        } else if self.rank() == other.rank() {
            Some(Ordering::Equal)
        } else {
            Some(Ordering::Greater)
        }
    }
}

impl Plugin {
    /// The instance's handle.
    pub closed spec fn spec_handle(&self) -> PluginHandle {
        self.handle
    }

    /// The instance's current life-cycle state.
    pub closed spec fn spec_status(&self) -> PluginStatus {
        self.status
    }

    /// Takes charge of the instance that the factory's creation entry point
    /// returned. `created` is the address it answered with, zero for a null
    /// pointer.
    ///
    /// A null answer is an error. Otherwise the new controller starts out
    /// `Uninitialized`, and the instance has to be registered with the host
    /// before anything else is done with it.
    pub fn new(created: usize) -> (result: Result<(Plugin, Action), CreationError>)
        ensures
            created == 0 ==> result matches Err(CreationError::NullInstance),
            created != 0 ==> (result matches Ok((plugin, Action::RegisterInstance))
                && plugin.handle().0@ == created && plugin.status() == PluginStatus::Uninitialized),
    {
        match Address::new(created) {
            None => Err(CreationError::NullInstance),
            Some(address) => {
                let plugin = Plugin {
                    handle: PluginHandle(address),
                    status: PluginStatus::Uninitialized,
                    _main_thread_only: PhantomData,
                };
                Ok((plugin, Action::RegisterInstance))
            },
        }
    }

    /// The instance's handle.
    #[verifier::when_used_as_spec(spec_handle)]
    pub fn handle(&self) -> (handle: PluginHandle)
        ensures
            handle == self.spec_handle(),
    {
        self.handle
    }

    /// The address of the instance's function table, which is never zero.
    pub fn as_ptr(&self) -> (address: usize)
        ensures
            address == self.handle().0@,
            address != 0,
    {
        self.handle.0.get()
    }

    /// The instance's current life-cycle state.
    #[verifier::when_used_as_spec(spec_status)]
    pub fn status(&self) -> (status: PluginStatus)
        ensures
            status == self.spec_status(),
    {
        self.status
    }

    /// Asks to initialize the instance, which has to come before anything
    /// else. Only an `Uninitialized` instance may be initialized.
    pub fn init(&self) -> (result: Result<Action, LifecycleError>)
        ensures
            self.status() == PluginStatus::Uninitialized ==> result matches Ok(Action::Init),
            self.status() != PluginStatus::Uninitialized ==> result matches Err(
                LifecycleError::WrongState,
            ),
    {
        match self.status {
            PluginStatus::Uninitialized => Ok(Action::Init),
            _ => Err(LifecycleError::WrongState),
        }
    }

    /// Takes in the answer to `init()`. An accepted call leaves the instance
    /// `Deactivated`. After a rejected one it stays `Uninitialized`; by the
    /// protocol such an instance may only be destroyed.
    pub fn init_returned(&mut self, accepted: bool) -> (result: Result<(), LifecycleError>)
        ensures
            result == outcome(old(self).status(), Event::InitReturned { accepted }),
            final(self).status() == after(old(self).status(), Event::InitReturned { accepted }),
            final(self).handle() == old(self).handle(),
    {
        self.on_event(Event::InitReturned { accepted })
    }

    /// Asks for the capability `T`, which is only allowed once the instance
    /// has been initialized. The answer is the id to hand to the component's
    /// `get_extension()`.
    pub fn get_extension<'a, T: Extension<&'a Plugin>>(&'a self) -> (result: Result<
        String,
        LifecycleError,
    >)
        ensures
            self.status() == PluginStatus::Uninitialized ==> result matches Err(
                LifecycleError::WrongState,
            ),
            self.status() != PluginStatus::Uninitialized ==> (result matches Ok(id) && id@
                == T::id() && is_c_string(id@)),
    {
        match self.status {
            PluginStatus::Uninitialized => Err(LifecycleError::WrongState),
            _ => {
                proof {
                    T::lemma_id_is_c_string();
                }
                Ok(T::extension_id())
            },
        }
    }

    /// Takes in the answer to `get_extension()` for the capability `T`.
    /// `table` is the address that the component returned, zero for a null
    /// pointer, which is how it says that it does not have the capability.
    pub fn extension_returned<'a, T: Extension<&'a Plugin>>(&'a self, table: usize) -> (result:
        Result<Option<T>, LifecycleError>)
        ensures
            self.status() == PluginStatus::Uninitialized ==> result matches Err(
                LifecycleError::WrongState,
            ),
            self.status() != PluginStatus::Uninitialized && table == 0 ==> result matches Ok(None),
            self.status() != PluginStatus::Uninitialized && table != 0 ==> (result matches Ok(
                Some(extension),
            ) && extension@@ == table),
    {
        match self.status {
            PluginStatus::Uninitialized => Err(LifecycleError::WrongState),
            _ => match Address::new(table) {
                None => Ok(None),
                Some(extension_struct) => Ok(Some(T::new(extension_struct))),
            },
        }
    }

    /// Asks to activate the instance for the given sample rate, passed as
    /// the bits of a double, and range of buffer sizes. Only a `Deactivated`
    /// instance may be activated, and the minimum buffer size must not be
    /// zero; in either case nothing is to be called.
    pub fn activate(
        &self,
        sample_rate_bits: u64,
        min_buffer_size: u32,
        max_buffer_size: u32,
    ) -> (result: Result<Action, LifecycleError>)
        ensures
            min_buffer_size == 0 ==> result is Err,
            self.status() != PluginStatus::Deactivated ==> result matches Err(
                LifecycleError::WrongState,
            ),
            self.status() == PluginStatus::Deactivated && min_buffer_size == 0 ==> result matches Err(
                LifecycleError::InvalidBufferSize,
            ),
            self.status() == PluginStatus::Deactivated && min_buffer_size >= 1 ==> (
            result matches Ok(action) && action == (Action::Activate {
                sample_rate_bits,
                min_frames_count: min_buffer_size,
                max_frames_count: max_buffer_size,
            })),
    {
        match self.status {
            PluginStatus::Deactivated => {
                if min_buffer_size == 0 {
                    Err(LifecycleError::InvalidBufferSize)
                } else {
                    Ok(
                        Action::Activate {
                            sample_rate_bits,
                            min_frames_count: min_buffer_size,
                            max_frames_count: max_buffer_size,
                        },
                    )
                }
            },
            _ => Err(LifecycleError::WrongState),
        }
    }

    /// Takes in the answer to `activate()`. An accepted call leaves the
    /// instance `Activated`, a rejected one leaves it `Deactivated`.
    pub fn activate_returned(&mut self, accepted: bool) -> (result: Result<(), LifecycleError>)
        ensures
            result == outcome(old(self).status(), Event::ActivateReturned { accepted }),
            final(self).status() == after(old(self).status(), Event::ActivateReturned { accepted }),
            final(self).handle() == old(self).handle(),
    {
        self.on_event(Event::ActivateReturned { accepted })
    }

    /// Asks to deactivate the instance. Only an `Activated` instance may be
    /// deactivated; one that is still processing has to stop first.
    pub fn deactivate(&self) -> (result: Result<Action, LifecycleError>)
        ensures
            self.status() == PluginStatus::Activated ==> result matches Ok(Action::Deactivate),
            self.status() != PluginStatus::Activated ==> result matches Err(
                LifecycleError::WrongState,
            ),
    {
        match self.status {
            PluginStatus::Activated => Ok(Action::Deactivate),
            _ => Err(LifecycleError::WrongState),
        }
    }

    /// Records that `deactivate()` has returned, which leaves the instance
    /// `Deactivated`. The component has no way to report a failure here.
    pub fn deactivate_returned(&mut self) -> (result: Result<(), LifecycleError>)
        ensures
            result == outcome(old(self).status(), Event::DeactivateReturned),
            final(self).status() == after(old(self).status(), Event::DeactivateReturned),
            final(self).handle() == old(self).handle(),
    {
        self.on_event(Event::DeactivateReturned)
    }

    /// Records that the audio thread has started processing. This is only
    /// possible while the instance is `Activated`.
    pub fn processing_started(&mut self) -> (result: Result<(), LifecycleError>)
        ensures
            result == outcome(old(self).status(), Event::ProcessingStarted),
            final(self).status() == after(old(self).status(), Event::ProcessingStarted),
            final(self).handle() == old(self).handle(),
    {
        self.on_event(Event::ProcessingStarted)
    }

    /// Records that the audio thread has stopped processing, which brings
    /// the instance back to `Activated`.
    pub fn processing_stopped(&mut self) -> (result: Result<(), LifecycleError>)
        ensures
            result == outcome(old(self).status(), Event::ProcessingStopped),
            final(self).status() == after(old(self).status(), Event::ProcessingStopped),
            final(self).handle() == old(self).handle(),
    {
        self.on_event(Event::ProcessingStopped)
    }

    /// Takes in `event`. If the instance is not in the state that the event
    /// belongs to, or if the event is the component's refusal of a call, the
    /// state stays as it is and the error says which of the two happened.
    pub fn on_event(&mut self, event: Event) -> (result: Result<(), LifecycleError>)
        ensures
            result == outcome(old(self).status(), event),
            final(self).status() == after(old(self).status(), event),
            final(self).handle() == old(self).handle(),
    {
        let next = match (self.status, event) {
            (PluginStatus::Uninitialized, Event::InitReturned { accepted: true }) => {
                PluginStatus::Deactivated
            },
            (PluginStatus::Uninitialized, Event::InitReturned { accepted: false }) => {
                return Err(LifecycleError::RejectedByComponent(Rejection::InitFailed));
            },
            (PluginStatus::Deactivated, Event::ActivateReturned { accepted: true }) => {
                PluginStatus::Activated
            },
            (PluginStatus::Deactivated, Event::ActivateReturned { accepted: false }) => {
                return Err(LifecycleError::RejectedByComponent(Rejection::ActivateFailed));
            },
            (PluginStatus::Activated, Event::DeactivateReturned) => PluginStatus::Deactivated,
            (PluginStatus::Activated, Event::ProcessingStarted) => PluginStatus::Processing,
            (PluginStatus::Processing, Event::ProcessingStopped) => PluginStatus::Activated,
            _ => {
                return Err(LifecycleError::WrongState);
            },
        };
        self.status = next;
        Ok(())
    }

    /// Ends the controller's charge of the instance and says what is left to
    /// do: an `Activated` instance is deactivated first, every instance is
    /// destroyed and then taken off the host's registry.
    ///
    /// An instance that is still `Processing` must not be destroyed. Nothing
    /// is to be called for it, and the error has to be treated as fatal.
    pub fn teardown(self) -> (result: Result<Teardown, FatalStateViolation>)
        ensures
            self.status() == PluginStatus::Processing ==> (result matches Err(violation)
                && violation.status == PluginStatus::Processing),
            self.status() != PluginStatus::Processing ==> (result matches Ok(teardown)
                && teardown.actions@ == teardown_plan(self.status()) && teardown.status
                == status_at_destroy(self.status())),
    {
        let mut actions: Vec<Action> = Vec::new();
        let status = match self.status {
            PluginStatus::Processing => {
                return Err(FatalStateViolation { status: PluginStatus::Processing });
            },
            PluginStatus::Activated => {
                actions.push(Action::Deactivate);
                PluginStatus::Deactivated
            },
            PluginStatus::Uninitialized => PluginStatus::Uninitialized,
            PluginStatus::Deactivated => PluginStatus::Deactivated,
        };
        actions.push(Action::Destroy);
        actions.push(Action::UnregisterInstance);
        assert(actions@ =~= teardown_plan(self.status()));
        Ok(Teardown { actions, status })
    }
}

} // verus!
