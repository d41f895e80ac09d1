//! Main-thread controller for instances of a binary audio plugin loaded across
//! a fixed C ABI.
//!
//! The crate holds every decision of the controller and none of its effects:
//! each operation says which call is to cross the boundary, with which
//! arguments, and what the instance's state becomes once the component has
//! answered. Performing the calls is left to the embedding program.
//!
//! - [`plugin::instance`] has the controller itself, [`plugin::instance::Plugin`].
//! - [`plugin::lifecycle`] defines the state machine behind it and proves
//!   what holds of every run of it.
//! - [`plugin::ext`] has the optional capabilities of an instance.
//! - [`plugin::address`], [`plugin::text`] and [`plugin::error`] hold the
//!   values that pass between the controller and its surroundings.

pub mod plugin;
