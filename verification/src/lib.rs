//! Declarative configuration reconciliation for a monitoring site.
//!
//! The library models a configuration tree of folders, hosts and rule sets,
//! derives remote object identities from tree positions, and decides — purely,
//! over snapshots of remote state — which create, move, update or replace
//! calls bring the remote site in line with the declared document.  The
//! process boundary (HTTP transport, document parsing, terminal output) lives
//! outside the library and only carries the calls that these decisions
//! produce.

pub mod api;
pub mod cli;
pub mod config;
pub mod driver;
pub mod models;
pub mod strutil;

use vstd::prelude::*;

verus! {

} // verus!
