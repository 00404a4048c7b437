//! Configuration records.
//!
//! The records are value objects: they are copied freely and nothing in this
//! crate changes one after it has been built. They hold no settings yet. New
//! settings are added as fields, so that callers which build a record and pass
//! it on keep working.

use vstd::prelude::*;

verus! {

/// Settings of one RPC client instance.
#[derive(Debug, Clone, Copy)]
pub struct ClientOptions {}

/// Settings of one RPC server instance.
#[derive(Debug, Clone, Copy)]
pub struct ServerOptions {}

/// Settings of a single call. A balancer receives them with every pick and
/// only reads them.
#[derive(Debug, Clone, Copy)]
pub struct CallOptions {}

} // verus!
