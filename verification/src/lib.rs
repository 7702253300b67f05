//! A safety guard for two command-line tools: a version-control tool (`git`)
//! and a code-hosting tool (`gh`). Before a command runs, the guard
//! classifies which tool the argument vector targets and evaluates it
//! against user-configured pattern rules to decide whether to allow it, deny
//! it, or ask for confirmation.
//!
//! This crate is the verified core: pattern matching, policy evaluation and
//! tool classification are pure functions with proved contracts. The
//! surrounding plumbing (configuration files, audit logging, process
//! execution, prompting) lives outside the core and hands it plain values.

pub mod config;
pub mod detect;
pub mod logger;
pub mod rules;
