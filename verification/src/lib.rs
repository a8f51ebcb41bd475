//! Scheduling and fan-out logic of a cluster's heartbeat and acknowledgment
//! broadcast engines, with the node addresses and messages they work on.
//!
//! The engines are step functions: the caller owns the clock and the gateways,
//! reports elapsed time and completions, and performs the actions returned.

use vstd::prelude::*;

pub mod ack;
pub mod addr;
pub mod clock;
pub mod fanout;
pub mod heartbeat;
pub mod message;

verus! {

/// Status code of a request that was served.
pub const SUCCESS: i32 = 200;

/// Status code of a request that was malformed.
pub const BAD_REQUEST: i32 = 400;

/// Status code of a request that failed on the serving side.
pub const INTERNAL_SERVER_ERROR: i32 = 500;

/// Default timeout of an RPC request, in seconds.
pub const DEFAULT_RPC_TIMEOUT: u64 = 3;

/// Default timeout of an RPC connection, in seconds.
pub const DEFAULT_CONNECT_TIMEOUT: u64 = 3;

} // verus!
