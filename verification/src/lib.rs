//! Verified core of the plugin loader: digest pins, location-relative
//! component paths, the load decision sequence, package references, and the
//! route shapes of the guest macro.

pub mod declared;
pub mod digest;
pub mod fetch;
pub mod host;
pub mod loader;
pub mod package;
pub mod routes;
pub mod subpath;
