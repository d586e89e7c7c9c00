//! The core of a host for sandboxed content-extraction extensions: the
//! declared version of a module, the adapter bound to it, the load
//! protocol, the guest wire contract and the host data model.
//!
//! Beside it stand the parts of the presentation layer that are plain
//! data: the class names of the transition and animation utilities, and
//! the elements that labels and containers render as.

pub mod adapter;
pub mod display;
pub mod extension;
pub mod host;
pub mod label;
pub mod layout;
pub mod semver;
pub mod since_v0_0_1;
pub mod transitions_animation;
pub mod types;
