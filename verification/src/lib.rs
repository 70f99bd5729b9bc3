//! Verified core of the PumpkinSoup plugin: the soup-kit layout, the soup
//! right-click rules, the damager registry and sessions, and the small
//! string helpers they rest on.

pub mod text;
pub mod namespaced_key;
pub mod dash;
pub mod active;
pub mod damager;
pub mod commands;
pub mod soup;
pub mod kit;
pub mod session;
pub mod plugin;
