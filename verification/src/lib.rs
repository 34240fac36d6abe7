//! A task dispatcher between a message bus and stateless workers.
//!
//! Tasks arrive as typed messages. Each is routed by its type to a handler,
//! an HTTP worker or a script, and the follow-on tasks that the handler
//! answers with are published again, each on the topic named like its type.
//!
//! This library holds the rules: the wire form of a message, the routing
//! table, what is asked of a handler and what its answer means, and the
//! steps of the dispatch loop. It never waits on anything. Talking to the
//! broker, to workers and to the script host is left to the program that
//! uses it, which is told what to do one step at a time.

pub mod config;
pub mod data;
pub mod dispatch;
pub mod endpoint;
pub mod forwarder;
pub mod handler;
pub mod handler_repo;
pub mod json;
pub mod producer;
pub mod script;
pub mod serve;
pub mod worker;
pub mod worker_matcher;
