//! Orchestration of a privileged termination request: the command protocol
//! spoken to a kernel-mode filter component, the registration that the
//! component needs, the lookup of the target process and the session that
//! sequences every step and releases every handle it acquires.

pub mod protocol;
pub mod lookup;
pub mod config;
pub mod session;
pub mod trace;
pub mod cli;
