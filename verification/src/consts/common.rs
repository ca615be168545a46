use vstd::prelude::*;

verus! {

/// Name of the environment variable that holds the path of the configuration.
pub const CONF_ENV_VARIABLE: &'static str = "CONF";

/// Pause, in milliseconds, before a contended slot is tried again.
pub const STD_LOOP_DELAY: u32 = 10;

/// Pause, in milliseconds, while there is nothing to do.
pub const NOTARGET_DELAY: u32 = 100;

/// Smallest number of slots of a dispatch table.
pub const MIN_COMMAND_POOL_SIZE: usize = 8;

/// Smallest size, in bytes, of a connection's read buffer.
pub const MIN_BUFFER_SIZE: u32 = 2048;

/// Seconds a closing connection keeps trying to record its client as closed.
pub const CONNECTION_FINISH_TIMEOUT: u32 = 60;

/// Number of characters of a challenge nonce.
pub const VERIFICATION_LINE_SIZE: usize = 128;

} // verus!
