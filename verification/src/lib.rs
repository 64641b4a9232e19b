//! Lifecycle manager for a local development pair of backing services: a
//! relational database engine and a key-value cache engine.
//!
//! The library holds the decision core: given what was just observed about a
//! service (initialization marker, pid file, network reachability), it says
//! which external action to take next and what the outcome of the whole
//! operation is. It also builds, character for character, every path,
//! command-line argument list and probe target that the external tools are
//! invoked with. Performing the actions (spawning the tools, reading files,
//! opening connections) is left to the embedding binary.

pub mod args;
pub mod config;
pub mod lifecycle;
pub mod numeric;
pub mod orchestrator;
pub mod paths;
pub mod pidfile;
pub mod probe;
