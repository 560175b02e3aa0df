//! Remote procedure calls over a message broker.
//!
//! A caller publishes a call on a shared work queue and waits for the reply
//! that carries the same correlation identifier on its private reply
//! destination; a dispatcher consumes the calls, computes the results under a
//! concurrency cap, and publishes the replies.
//!
//! The library decides and computes; it does not talk to the broker. What
//! is to be published or acknowledged comes out of it as plain values, and
//! what the broker delivered goes into it as plain values.
//!
//! Beside the remote call stand the smaller parts that the programs around
//! the broker share: the keys of the log exchanges, the reading of command
//! lines, the seconds of work in a task, and the word that stops a program.

pub mod args;
pub mod constants;
pub mod decimal;
pub mod dispatcher;
pub mod envelope;
pub mod fib;
pub mod gateway;
pub mod log_level;
pub mod matching;
pub mod options;
pub mod quit_service;
pub mod registry;
pub mod routing;
pub mod rpc_client;
pub mod rpc_server;
pub mod text;
pub mod topic;
pub mod wire;
pub mod work;

pub use constants::LOCALHOST;
pub use constants::QUEUE;
pub use dispatcher::BoundedDispatcher;
pub use fib::fib;
pub use gateway::CallGateway;
pub use log_level::LogLevel;
pub use registry::CorrelationRegistry;
pub use rpc_client::FibClient;
pub use rpc_server::FibRpcServer;
