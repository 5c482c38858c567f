//! Remediation of shell-completion audit findings.
//!
//! A shell's completion-audit facility flags directories and files on the
//! completion search path that are insecurely owned or group/world-writable.
//! This crate holds the verified core of a tool that repairs such findings:
//! parsing the facility's output into a path list, resolving the remediation
//! target identity, and the fail-fast loop that plans and tracks the three
//! repair sub-operations per path (reown, strip group write, strip other
//! write).  Spawning the audit facility and the repair commands is host I/O
//! and stays outside this crate; the crate decides what to run and what each
//! reported outcome means.

pub mod identity;
pub mod listing;
pub mod plan;
pub mod run;
