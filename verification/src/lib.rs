//! Interception and dispatch for the shim of a managed package manager.
//!
//! A version manager for JavaScript toolchains puts a shim in place of each
//! package-manager binary. Every invocation of the shim is one of three
//! things: a global install of a third-party package, which the version
//! manager carries out itself so that it can track the package; a global
//! install of a tool that the version manager manages (Node, npm, Yarn),
//! which goes to its own installer; or anything else, which is passed
//! through to the real binary unchanged.
//!
//! This library takes that decision from the argument list and the platform
//! in effect, and describes the work that follows from it. It reads no file
//! and starts no process.
//!
//! - [`token`]: arguments as bytes, and which of them are text or flags.
//! - [`tool`]: parsing a package identifier into a tool specification.
//! - [`manager`]: the package managers and their tables of trigger words.
//! - [`classify`]: is the invocation a global install, and of what?
//! - [`platform`]: the platform in effect, the search path and the error
//!   kind of a launch.
//! - [`executor`]: the three kinds of work an invocation can turn into.
//! - [`dispatch`]: from classification and platforms to an executor.

pub mod token;
pub mod tool;
pub mod manager;
pub mod classify;
pub mod platform;
pub mod executor;
pub mod dispatch;
