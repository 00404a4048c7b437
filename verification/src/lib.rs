//! Client-side connection routing for an RPC client.
//!
//! For each outgoing call the client has to decide which network endpoint to
//! use, and it has to keep the set of endpoints current while the membership of
//! the service changes. Three abstractions work together:
//!
//! * [`endpoint`]: the identity of a network destination and its canonical
//!   address;
//! * [`balancer`]: a mutable set of connections with a selection policy that is
//!   applied once per call;
//! * [`resolver`]: the discovery of the current endpoint set, versioned so that
//!   a caller can tell that nothing has changed.
//!
//! [`options`] holds the configuration records that are threaded through, and
//! [`queue`] a first-in-first-out queue that a transport may use as a building
//! block.
//!
//! Every executable function states its behaviour in a contract over a
//! mathematical model of the data, and Verus proves the body against it.

pub mod balancer;
pub mod endpoint;
pub mod options;
pub mod queue;
pub mod resolver;
pub mod rotation;

pub use balancer::{round_robin, Balancer, RoundRobin};
pub use endpoint::{Endpoint, NetEndpoint};
pub use options::{CallOptions, ClientOptions, ServerOptions};
pub use queue::Queue;
pub use resolver::{ConstantResolver, ResolutionError, Resolver, Version};
pub use rotation::Rotation;
