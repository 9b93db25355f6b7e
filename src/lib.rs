//! Session and helper-process lifecycle core of a remote host control panel:
//! resolving and storing the operator's target, and tracking every spawned
//! helper process until a watchdog or the exit sweep reclaims it.
pub mod actions;
pub mod registry;
pub mod session;
pub mod target;
