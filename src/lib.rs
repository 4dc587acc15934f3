//! An embedded script runtime bridge: the permission gate consulted by
//! privileged built-ins, the registry of native ops, the ordered set of
//! built-in modules, and the lifecycle and event-loop scheduler of the
//! script runtime that hosts them.
pub mod bridge;
pub mod modules;
pub mod ops;
pub mod permissions;
pub mod runtime;
