//! A small, Linux-only library for launching processes in rootless namespaces.
//!
//! The decisions that shape a sandbox (which namespaces to create, how user and
//! group ids are mapped, which mounts build the new root, how the setup
//! processes talk to each other and how exit statuses are reported) are made
//! by the verified functions of this crate. The system calls that carry them
//! out, but for the parent-death signal, are made by the caller.

pub mod builder;
pub mod config;
pub mod error;
pub mod handshake;
pub mod namespace;
pub mod parent_death;
pub mod process;
pub mod protocol;
pub mod rootfs;
pub mod sandbox;
pub mod status;

pub use builder::Command;
pub use error::{Error, Result};

use vstd::prelude::*;

verus! {

/// Arranges for the current process to receive `SIGKILL` when its parent
/// dies (and kills it at once if that parent has already died).
///
/// This changes process-wide state and is meant for the command-line
/// frontend; the sandbox processes do the same for themselves when the
/// sandbox is configured to die with its parent.
pub fn die_with_parent() -> (result: Result<()>)
    ensures
        result matches Err(e) ==> exists|code: i32| e == Error::Io(
            #[trigger] error::os_error_value(code),
        ),
{
    parent_death::set()
}

} // verus!
