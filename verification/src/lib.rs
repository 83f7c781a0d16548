//! Orunner: a registry of named profiles, each holding an ordered list of
//! filesystem path strings and an optional command prefix, together with a
//! generator that renders a profile into a shell script which visits every
//! path and runs a command there.

pub mod cli;
pub mod config;
pub mod env_recovery;
pub mod ops;
pub mod paths;
pub mod prefix;
pub mod script;
pub mod utils;
