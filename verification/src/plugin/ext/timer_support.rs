//! The timer capability, by which a component is told that one of its
//! timers has fired.

use crate::plugin::address::Address;
use crate::plugin::ext::{Extension, ExtensionCall};
use crate::plugin::instance::Plugin;
use clap_sys::ext::timer_support::{clap_plugin_timer_support, CLAP_EXT_TIMER_SUPPORT};
use clap_sys::id::clap_id;
use vstd::prelude::*;

verus! {

/// `clap_sys::ext::timer_support::clap_plugin_timer_support`, the function
/// table of the timer capability. Nothing is known of what a value of it
/// holds.
#[verifier::external_type_specification]
#[verifier::external_body]
pub struct ExPluginTimerSupport(clap_plugin_timer_support);

/// Reads `clap_sys::ext::timer_support::CLAP_EXT_TIMER_SUPPORT`, the id of
/// the timer capability, which that crate defines as the C string
/// `"clap.timer-support"`.
#[verifier::external_body]
fn timer_support_id() -> (id: String)
    ensures
        id@ == "clap.timer-support"@,
{
    CLAP_EXT_TIMER_SUPPORT.to_string_lossy().into_owned()
}

/// The main-thread side of the timer capability.
#[derive(Debug)]
pub struct TimerSupport {
    timer_support: Address,
}

/// An entry of the timer table together with its arguments.
#[derive(Debug, Clone, Copy, PartialEq, Eq, Structural)]
pub enum TimerRequest {
    /// `on_timer(plugin, timer_id)`
    OnTimer { timer_id: clap_id },
}

impl View for TimerSupport {
    type V = Address;

    closed spec fn view(&self) -> Address {
        self.timer_support
    }
}

impl<'a> Extension<&'a Plugin> for TimerSupport {
    type Struct = clap_plugin_timer_support;

    open spec fn id() -> Seq<char> {
        "clap.timer-support"@
    }

    proof fn lemma_id_is_c_string() {
        reveal_strlit("clap.timer-support");
    }

    fn extension_id() -> (id: String) {
        timer_support_id()
    }

    fn new(extension_struct: Address) -> (extension: TimerSupport) {
        TimerSupport { timer_support: extension_struct }
    }
}

impl TimerSupport {
    /// Tells the component that its timer `timer_id` has fired.
    pub fn on_timer(&self, plugin: &Plugin, timer_id: clap_id) -> (call: ExtensionCall<
        TimerRequest,
    >)
        ensures
            call == (ExtensionCall {
                table: self@,
                plugin: plugin.handle(),
                request: TimerRequest::OnTimer { timer_id },
            }),
    {
        ExtensionCall {
            table: self.timer_support,
            plugin: plugin.handle(),
            request: TimerRequest::OnTimer { timer_id },
        }
    }
}

} // verus!
