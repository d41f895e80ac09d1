use plugin_instance::plugin::error::{
    CreationError, FatalStateViolation, LifecycleError, Rejection,
};
use plugin_instance::plugin::instance::{Plugin, PluginHandle, PluginStatus};
use plugin_instance::plugin::lifecycle::{Action, Event, Teardown};

const INSTANCE: usize = 0x7f00_1000;
const RATE_44100: u64 = 0x40E5_8880_0000_0000;

/// Stands for a component: answers the calls it is handed and keeps a list
/// of them.
struct Component {
    init_result: bool,
    activate_result: bool,
    calls: Vec<Action>,
}

impl Component {
    fn accepting() -> Component {
        Component { init_result: true, activate_result: true, calls: Vec::new() }
    }

    fn perform(&mut self, action: Action) -> bool {
        assert!(action.crosses_boundary());
        self.calls.push(action);
        match action {
            Action::Init => self.init_result,
            Action::Activate { .. } => self.activate_result,
            _ => true,
        }
    }

    fn perform_all(&mut self, actions: &[Action]) {
        for action in actions {
            if action.crosses_boundary() {
                self.perform(*action);
            }
        }
    }
}

fn fresh() -> Plugin {
    match Plugin::new(INSTANCE) {
        Ok((plugin, _)) => plugin,
        Err(error) => panic!("no instance: {:?}", error),
    }
}

fn initialized() -> Plugin {
    let mut plugin = fresh();
    assert_eq!(plugin.init_returned(true), Ok(()));
    plugin
}

fn activated() -> Plugin {
    let mut plugin = initialized();
    assert_eq!(plugin.activate_returned(true), Ok(()));
    plugin
}

fn processing() -> Plugin {
    let mut plugin = activated();
    assert_eq!(plugin.processing_started(), Ok(()));
    plugin
}

fn in_state(status: PluginStatus) -> Plugin {
    let plugin = match status {
        PluginStatus::Uninitialized => fresh(),
        PluginStatus::Deactivated => initialized(),
        PluginStatus::Activated => activated(),
        PluginStatus::Processing => processing(),
    };
    assert_eq!(plugin.status(), status);
    plugin
}

const ALL_STATES: [PluginStatus; 4] = [
    PluginStatus::Uninitialized,
    PluginStatus::Deactivated,
    PluginStatus::Activated,
    PluginStatus::Processing,
];

const ALL_EVENTS: [Event; 7] = [
    Event::InitReturned { accepted: true },
    Event::InitReturned { accepted: false },
    Event::ActivateReturned { accepted: true },
    Event::ActivateReturned { accepted: false },
    Event::DeactivateReturned,
    Event::ProcessingStarted,
    Event::ProcessingStopped,
];

#[test]
fn new_then_status_is_uninitialized() {
    let plugin = fresh();
    assert_eq!(plugin.status(), PluginStatus::Uninitialized);
}

#[test]
fn new_keeps_the_address_and_asks_for_registration() {
    match Plugin::new(INSTANCE) {
        Ok((plugin, action)) => {
            assert_eq!(plugin.as_ptr(), INSTANCE);
            assert_eq!(plugin.handle().0.get(), INSTANCE);
            assert_eq!(action, Action::RegisterInstance);
            assert!(!action.crosses_boundary());
        }
        Err(error) => panic!("no instance: {:?}", error),
    }
}

#[test]
fn new_turns_a_null_pointer_into_an_error() {
    assert!(matches!(Plugin::new(0), Err(CreationError::NullInstance)));
}

#[test]
fn handles_of_one_instance_are_equal() {
    let first: PluginHandle = fresh().handle();
    let second: PluginHandle = fresh().handle();
    assert_eq!(first, second);
    let other = match Plugin::new(INSTANCE + 8) {
        Ok((plugin, _)) => plugin.handle(),
        Err(error) => panic!("no instance: {:?}", error),
    };
    assert_ne!(first, other);
}

#[test]
fn init_moves_to_deactivated_and_cannot_be_repeated() {
    let mut component = Component::accepting();
    let mut plugin = fresh();

    let action = plugin.init();
    assert_eq!(action, Ok(Action::Init));
    let accepted = component.perform(Action::Init);
    assert_eq!(plugin.init_returned(accepted), Ok(()));
    assert_eq!(plugin.status(), PluginStatus::Deactivated);

    assert_eq!(plugin.init(), Err(LifecycleError::WrongState));
    assert_eq!(plugin.init_returned(true), Err(LifecycleError::WrongState));
    assert_eq!(plugin.init_returned(false), Err(LifecycleError::WrongState));
    assert_eq!(plugin.status(), PluginStatus::Deactivated);
    assert_eq!(component.calls, vec![Action::Init]);
}

#[test]
fn init_refused_by_the_component_leaves_the_instance_uninitialized() {
    let mut component = Component::accepting();
    component.init_result = false;
    let mut plugin = fresh();

    assert_eq!(plugin.init(), Ok(Action::Init));
    let accepted = component.perform(Action::Init);
    assert_eq!(
        plugin.init_returned(accepted),
        Err(LifecycleError::RejectedByComponent(Rejection::InitFailed))
    );
    assert_eq!(plugin.status(), PluginStatus::Uninitialized);
    assert_eq!(
        plugin.activate(RATE_44100, 1, 512),
        Err(LifecycleError::WrongState)
    );

    assert_eq!(
        plugin.teardown(),
        Ok(Teardown {
            actions: vec![Action::Destroy, Action::UnregisterInstance],
            status: PluginStatus::Uninitialized,
        })
    );
}

#[test]
fn init_is_only_allowed_when_uninitialized() {
    for status in ALL_STATES {
        let plugin = in_state(status);
        if status == PluginStatus::Uninitialized {
            assert_eq!(plugin.init(), Ok(Action::Init));
        } else {
            assert_eq!(plugin.init(), Err(LifecycleError::WrongState));
        }
    }
}

#[test]
fn activate_names_the_call_with_its_arguments() {
    let plugin = initialized();
    assert_eq!(
        plugin.activate(RATE_44100, 32, 4096),
        Ok(Action::Activate {
            sample_rate_bits: RATE_44100,
            min_frames_count: 32,
            max_frames_count: 4096,
        })
    );
    assert_eq!(f64::from_bits(RATE_44100), 44100.0);
    assert_eq!(plugin.status(), PluginStatus::Deactivated);
}

#[test]
fn activate_takes_the_smallest_and_largest_sizes() {
    let plugin = initialized();
    assert_eq!(
        plugin.activate(0, 1, u32::MAX),
        Ok(Action::Activate {
            sample_rate_bits: 0,
            min_frames_count: 1,
            max_frames_count: u32::MAX,
        })
    );
    assert_eq!(
        plugin.activate(u64::MAX, u32::MAX, 0),
        Ok(Action::Activate {
            sample_rate_bits: u64::MAX,
            min_frames_count: u32::MAX,
            max_frames_count: 0,
        })
    );
}

#[test]
fn activate_with_zero_min_buffer_size_makes_no_call() {
    let mut component = Component::accepting();
    let mut plugin = fresh();
    assert_eq!(plugin.init(), Ok(Action::Init));
    let accepted = component.perform(Action::Init);
    assert_eq!(plugin.init_returned(accepted), Ok(()));

    match plugin.activate(RATE_44100, 0, 512) {
        Ok(action) => {
            component.perform(action);
        }
        Err(error) => assert_eq!(error, LifecycleError::InvalidBufferSize),
    }
    assert_eq!(component.calls, vec![Action::Init]);
    assert_eq!(plugin.status(), PluginStatus::Deactivated);
}

#[test]
fn activate_in_the_wrong_state_wins_over_a_zero_buffer_size() {
    for status in ALL_STATES {
        if status != PluginStatus::Deactivated {
            let plugin = in_state(status);
            assert_eq!(
                plugin.activate(RATE_44100, 0, 512),
                Err(LifecycleError::WrongState)
            );
            assert_eq!(
                plugin.activate(RATE_44100, 1, 512),
                Err(LifecycleError::WrongState)
            );
        }
    }
}

#[test]
fn activate_refused_by_the_component_leaves_the_instance_deactivated() {
    let mut component = Component::accepting();
    component.activate_result = false;
    let mut plugin = initialized();

    let action = match plugin.activate(RATE_44100, 1, 512) {
        Ok(action) => action,
        Err(error) => panic!("refused: {:?}", error),
    };
    let accepted = component.perform(action);
    assert_eq!(
        plugin.activate_returned(accepted),
        Err(LifecycleError::RejectedByComponent(
            Rejection::ActivateFailed
        ))
    );
    assert_eq!(plugin.status(), PluginStatus::Deactivated);
}

#[test]
fn deactivate_brings_an_activated_instance_back() {
    let mut component = Component::accepting();
    let mut plugin = activated();

    assert_eq!(plugin.deactivate(), Ok(Action::Deactivate));
    assert_eq!(plugin.status(), PluginStatus::Activated);
    component.perform(Action::Deactivate);
    assert_eq!(plugin.deactivate_returned(), Ok(()));
    assert_eq!(plugin.status(), PluginStatus::Deactivated);

    assert_eq!(plugin.deactivate(), Err(LifecycleError::WrongState));
    assert_eq!(
        plugin.deactivate_returned(),
        Err(LifecycleError::WrongState)
    );
    assert_eq!(component.calls, vec![Action::Deactivate]);
}

#[test]
fn deactivate_is_only_allowed_when_activated() {
    for status in ALL_STATES {
        let plugin = in_state(status);
        if status == PluginStatus::Activated {
            assert_eq!(plugin.deactivate(), Ok(Action::Deactivate));
        } else {
            assert_eq!(plugin.deactivate(), Err(LifecycleError::WrongState));
        }
    }
}

#[test]
fn an_instance_can_be_activated_again_after_deactivation() {
    let mut plugin = activated();
    assert_eq!(plugin.deactivate_returned(), Ok(()));
    assert!(plugin.activate(RATE_44100, 64, 64).is_ok());
    assert_eq!(plugin.activate_returned(true), Ok(()));
    assert_eq!(plugin.status(), PluginStatus::Activated);
}

#[test]
fn processing_starts_and_stops_from_the_activated_state() {
    let mut plugin = activated();
    assert_eq!(plugin.processing_stopped(), Err(LifecycleError::WrongState));
    assert_eq!(plugin.processing_started(), Ok(()));
    assert_eq!(plugin.status(), PluginStatus::Processing);
    assert_eq!(plugin.processing_started(), Err(LifecycleError::WrongState));
    assert_eq!(plugin.deactivate(), Err(LifecycleError::WrongState));
    assert_eq!(plugin.processing_stopped(), Ok(()));
    assert_eq!(plugin.status(), PluginStatus::Activated);
}

#[test]
fn activate_then_teardown_calls_activate_deactivate_destroy() {
    let mut component = Component::accepting();
    let mut plugin = fresh();

    let accepted = component.perform(Action::Init);
    assert_eq!(plugin.init_returned(accepted), Ok(()));
    component.calls.clear();

    let activate = match plugin.activate(RATE_44100, 1, 512) {
        Ok(action) => action,
        Err(error) => panic!("refused: {:?}", error),
    };
    let accepted = component.perform(activate);
    assert_eq!(plugin.activate_returned(accepted), Ok(()));

    let teardown = match plugin.teardown() {
        Ok(teardown) => teardown,
        Err(violation) => panic!("fatal: {:?}", violation),
    };
    assert_eq!(
        teardown.actions,
        vec![
            Action::Deactivate,
            Action::Destroy,
            Action::UnregisterInstance
        ]
    );
    assert_eq!(teardown.status, PluginStatus::Deactivated);
    component.perform_all(&teardown.actions);
    assert_eq!(
        component.calls,
        vec![activate, Action::Deactivate, Action::Destroy]
    );
}

#[test]
fn teardown_of_an_inactive_instance_only_destroys() {
    assert_eq!(
        fresh().teardown(),
        Ok(Teardown {
            actions: vec![Action::Destroy, Action::UnregisterInstance],
            status: PluginStatus::Uninitialized,
        })
    );
    assert_eq!(
        initialized().teardown(),
        Ok(Teardown {
            actions: vec![Action::Destroy, Action::UnregisterInstance],
            status: PluginStatus::Deactivated,
        })
    );
}

#[test]
fn teardown_after_an_explicit_deactivate_does_not_deactivate_again() {
    let mut component = Component::accepting();
    let mut plugin = activated();
    assert_eq!(plugin.deactivate(), Ok(Action::Deactivate));
    component.perform(Action::Deactivate);
    assert_eq!(plugin.deactivate_returned(), Ok(()));
    let teardown = match plugin.teardown() {
        Ok(teardown) => teardown,
        Err(violation) => panic!("fatal: {:?}", violation),
    };
    component.perform_all(&teardown.actions);
    assert_eq!(component.calls, vec![Action::Deactivate, Action::Destroy]);
    assert_eq!(teardown.status, PluginStatus::Deactivated);
}

#[test]
fn teardown_always_ends_with_destroy_and_unregister() {
    for status in ALL_STATES {
        if status != PluginStatus::Processing {
            let teardown = match in_state(status).teardown() {
                Ok(teardown) => teardown,
                Err(violation) => panic!("fatal: {:?}", violation),
            };
            let count = teardown.actions.len();
            assert_eq!(
                teardown.actions[count - 2..],
                [Action::Destroy, Action::UnregisterInstance]
            );
            assert!(teardown.status.level() <= 1);
            assert!(teardown.status.level() <= status.level());
            assert!(status.level() <= teardown.status.level() + 1);
        }
    }
}

#[test]
fn teardown_while_processing_is_fatal() {
    let mut component = Component::accepting();
    let plugin = processing();
    match plugin.teardown() {
        Ok(teardown) => {
            component.perform_all(&teardown.actions);
            panic!("an instance was destroyed while it was processing");
        }
        Err(violation) => assert_eq!(
            violation,
            FatalStateViolation {
                status: PluginStatus::Processing
            }
        ),
    }
    assert!(component.calls.is_empty());
}

#[test]
fn events_go_through_in_exactly_one_state() {
    let expected = [
        (PluginStatus::Uninitialized, Ok(()), PluginStatus::Deactivated),
        (
            PluginStatus::Uninitialized,
            Err(LifecycleError::RejectedByComponent(Rejection::InitFailed)),
            PluginStatus::Uninitialized,
        ),
        (PluginStatus::Deactivated, Ok(()), PluginStatus::Activated),
        (
            PluginStatus::Deactivated,
            Err(LifecycleError::RejectedByComponent(
                Rejection::ActivateFailed,
            )),
            PluginStatus::Deactivated,
        ),
        (PluginStatus::Activated, Ok(()), PluginStatus::Deactivated),
        (PluginStatus::Activated, Ok(()), PluginStatus::Processing),
        (PluginStatus::Processing, Ok(()), PluginStatus::Activated),
    ];
    for (event, (needed, result, next)) in ALL_EVENTS.iter().zip(expected.iter()) {
        for status in ALL_STATES {
            let mut plugin = in_state(status);
            if status == *needed {
                assert_eq!(plugin.on_event(*event), *result);
                assert_eq!(plugin.status(), *next);
            } else {
                assert_eq!(plugin.on_event(*event), Err(LifecycleError::WrongState));
                assert_eq!(plugin.status(), status);
            }
            assert_eq!(plugin.as_ptr(), INSTANCE);
        }
    }
}

#[test]
fn no_event_moves_an_instance_by_more_than_one_level() {
    for status in ALL_STATES {
        for event in ALL_EVENTS {
            let mut plugin = in_state(status);
            let before = plugin.status().level();
            let result = plugin.on_event(event);
            let after = plugin.status().level();
            if result.is_ok() {
                assert!(after == before + 1 || after + 1 == before);
            } else {
                assert_eq!(after, before);
            }
        }
    }
}

#[test]
fn a_long_run_of_events_visits_every_level_on_the_way() {
    let events = [
        Event::ActivateReturned { accepted: true },
        Event::InitReturned { accepted: false },
        Event::InitReturned { accepted: true },
        Event::ProcessingStarted,
        Event::ActivateReturned { accepted: true },
        Event::ProcessingStarted,
        Event::DeactivateReturned,
        Event::ProcessingStopped,
        Event::DeactivateReturned,
        Event::InitReturned { accepted: true },
    ];
    let expected: [u8; 10] = [0, 0, 1, 1, 2, 3, 3, 2, 1, 1];
    let mut plugin = fresh();
    let mut previous = plugin.status().level();
    for (event, level) in events.iter().zip(expected.iter()) {
        let _ = plugin.on_event(*event);
        let current = plugin.status().level();
        assert_eq!(current, *level);
        assert!(current <= previous + 1 && previous <= current + 1);
        previous = current;
    }
}

#[test]
fn states_are_ordered_along_the_chain() {
    assert!(PluginStatus::Uninitialized < PluginStatus::Deactivated);
    assert!(PluginStatus::Deactivated < PluginStatus::Activated);
    assert!(PluginStatus::Activated < PluginStatus::Processing);
    assert!(PluginStatus::Processing > PluginStatus::Uninitialized);
    assert!(PluginStatus::Activated >= PluginStatus::Activated);
    assert_eq!(
        PluginStatus::Deactivated.partial_cmp(&PluginStatus::Deactivated),
        Some(std::cmp::Ordering::Equal)
    );
    assert_eq!(
        PluginStatus::Processing.cmp(&PluginStatus::Activated),
        std::cmp::Ordering::Greater
    );
    for first in ALL_STATES {
        for second in ALL_STATES {
            assert_eq!(
                first.partial_cmp(&second),
                Some(first.level().cmp(&second.level()))
            );
            assert_eq!(first.partial_cmp(&second), Some(first.cmp(&second)));
        }
    }
    let mut sorted = vec![
        PluginStatus::Processing,
        PluginStatus::Uninitialized,
        PluginStatus::Activated,
        PluginStatus::Deactivated,
    ];
    sorted.sort();
    assert_eq!(sorted, ALL_STATES.to_vec());
}

#[test]
fn levels_count_from_uninitialized() {
    assert_eq!(PluginStatus::Uninitialized.level(), 0);
    assert_eq!(PluginStatus::Deactivated.level(), 1);
    assert_eq!(PluginStatus::Activated.level(), 2);
    assert_eq!(PluginStatus::Processing.level(), 3);
}

#[test]
fn the_default_state_is_uninitialized() {
    assert_eq!(PluginStatus::default(), PluginStatus::Uninitialized);
}

#[test]
fn host_calls_do_not_cross_the_boundary() {
    assert!(Action::Init.crosses_boundary());
    assert!(Action::Activate {
        sample_rate_bits: 0,
        min_frames_count: 1,
        max_frames_count: 1
    }
    .crosses_boundary());
    assert!(Action::Deactivate.crosses_boundary());
    assert!(Action::Destroy.crosses_boundary());
    assert!(!Action::RegisterInstance.crosses_boundary());
    assert!(!Action::UnregisterInstance.crosses_boundary());
}
