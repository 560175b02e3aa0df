//! Names that the caller and the server agree on.

use vstd::prelude::*;

verus! {

/// Where the broker is reached when no address is configured.
pub const LOCALHOST: &'static str = "amqp://127.0.0.1:5672/%2f";

/// The work queue on which calls are published.
pub const QUEUE: &'static str = "rpc_queue";

} // verus!
