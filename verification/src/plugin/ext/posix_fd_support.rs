//! The POSIX file descriptor capability, by which a component is told that
//! something happened on a file descriptor it watches.

use crate::plugin::address::Address;
use crate::plugin::ext::{Extension, ExtensionCall};
use crate::plugin::instance::Plugin;
use clap_sys::ext::posix_fd_support::{
    clap_plugin_posix_fd_support, clap_posix_fd_flags, CLAP_EXT_POSIX_FD_SUPPORT,
};
use vstd::prelude::*;

verus! {

/// `clap_sys::ext::posix_fd_support::clap_plugin_posix_fd_support`, the
/// function table of the file descriptor capability. Nothing is known of
/// what a value of it holds.
#[verifier::external_type_specification]
#[verifier::external_body]
pub struct ExPluginPosixFdSupport(clap_plugin_posix_fd_support);

/// Reads `clap_sys::ext::posix_fd_support::CLAP_EXT_POSIX_FD_SUPPORT`, the
/// id of the file descriptor capability, which that crate defines as the C
/// string `"clap.posix-fd-support"`.
#[verifier::external_body]
fn posix_fd_support_id() -> (id: String)
    ensures
        id@ == "clap.posix-fd-support"@,
{
    CLAP_EXT_POSIX_FD_SUPPORT.to_string_lossy().into_owned()
}

/// The main-thread side of the file descriptor capability.
#[derive(Debug)]
pub struct PosixFDSupport {
    posix_fd_support: Address,
}

/// An entry of the file descriptor table together with its arguments.
#[derive(Debug, Clone, Copy, PartialEq, Eq, Structural)]
pub enum PosixFdRequest {
    /// `on_fd(plugin, fd, flags)`
    OnFd { fd: i32, flags: clap_posix_fd_flags },
}

impl View for PosixFDSupport {
    type V = Address;

    closed spec fn view(&self) -> Address {
        self.posix_fd_support
    }
}

impl<'a> Extension<&'a Plugin> for PosixFDSupport {
    type Struct = clap_plugin_posix_fd_support;

    open spec fn id() -> Seq<char> {
        "clap.posix-fd-support"@
    }

    proof fn lemma_id_is_c_string() {
        reveal_strlit("clap.posix-fd-support");
    }

    fn extension_id() -> (id: String) {
        posix_fd_support_id()
    }

    fn new(extension_struct: Address) -> (extension: PosixFDSupport) {
        PosixFDSupport { posix_fd_support: extension_struct }
    }
}

impl PosixFDSupport {
    /// Tells the component what happened on the file descriptor `fd`.
    /// `flags` is a set of the protocol's read, write and error bits.
    pub fn on_fd(&self, plugin: &Plugin, fd: i32, flags: clap_posix_fd_flags) -> (call:
        ExtensionCall<PosixFdRequest>)
        ensures
            call == (ExtensionCall {
                table: self@,
                plugin: plugin.handle(),
                request: PosixFdRequest::OnFd { fd, flags },
            }),
    {
        ExtensionCall {
            table: self.posix_fd_support,
            plugin: plugin.handle(),
            request: PosixFdRequest::OnFd { fd, flags },
        }
    }
}

} // verus!
