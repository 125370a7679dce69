//! Resolution and provisioning of the Dafny language-server binary.
//!
//! The library decides, step by step, how a host obtains a runnable `dafny`
//! executable: prefer one already visible in the environment, then a
//! previously provisioned copy, and only then download, extract and mark
//! executable the artifact of the latest stable release, pruning superseded
//! version directories afterwards.  Every decision is made by verified code;
//! the host performs the filesystem and network work it is told to do and
//! reports each outcome back.

pub mod error;
pub mod laws;
pub mod model;
pub mod names;
pub mod platform;
pub mod release;
pub mod resolver;
pub mod selector;
