//! Plugin instances: their life cycle and the optional capabilities they offer.

pub mod address;
pub mod error;
pub mod ext;
pub mod instance;
pub mod lifecycle;
pub mod text;
