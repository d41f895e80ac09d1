//! Optional capabilities ("extensions") of a plugin instance.
//!
//! A component may offer function tables beyond its mandatory one. Each is
//! known by an id, and the component hands out its address when asked for
//! that id. The types in this module stand for such tables. Like the
//! controller itself they perform no call: every operation says which entry
//! of the table is to be called, on which instance and with which arguments.

use crate::plugin::address::Address;
use crate::plugin::instance::PluginHandle;
use crate::plugin::text::is_c_string;
use vstd::prelude::*;

pub mod gui;
pub mod posix_fd_support;
pub mod timer_support;

verus! {

/// A capability that can be asked of an instance.
///
/// `Context` is the kind of access to the instance under which the
/// capability may be used. A capability for `&Plugin` can only be used by
/// whoever holds the controller, which is the main thread; one meant for
/// another thread is implemented for an owned handle instead. The two are
/// told apart by their types, not at run time.
pub trait Extension<Context>: Sized + View<V = Address> {
    /// The layout of the function table behind the capability.
    type Struct;

    /// The id under which a component offers the capability.
    spec fn id() -> Seq<char>;

    /// The id can be handed to the component as a null-terminated string.
    proof fn lemma_id_is_c_string()
        ensures
            is_c_string(Self::id()),
    ;

    /// The id under which a component offers the capability.
    fn extension_id() -> (id: String)
        ensures
            id@ == Self::id(),
    ;

    /// Makes the capability from the address of its function table, which
    /// the component returned and which is known not to be null.
    fn new(extension_struct: Address) -> (extension: Self)
        ensures
            extension@ == extension_struct,
    ;
}

/// One call through the function table of a capability.
#[derive(Debug)]
pub struct ExtensionCall<Request> {
    /// The function table to call through.
    pub table: Address,
    /// The instance that the call is about. Its address is the first
    /// argument of every entry of the table.
    pub plugin: PluginHandle,
    /// The entry to call and its remaining arguments.
    pub request: Request,
}

} // verus!
