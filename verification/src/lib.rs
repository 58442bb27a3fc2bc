//! A small host/guest invocation harness.
//!
//! A host loads a sandboxed plugin module and calls a fixed set of its
//! exports through statically typed handles.  This crate holds the verified
//! core of that harness: the guest's computational library, the decimal
//! parsing and formatting the command line needs, the export resolver with
//! its exact signature matching, the mode dispatcher, and the driver that
//! runs a plan of calls against a real sandboxed module.

pub mod dispatch;
pub mod exports;
pub mod host;
pub mod guest;
pub mod num;
