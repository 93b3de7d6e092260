//! In-process service actor core.
//!
//! A node registers named *actions* (request/reply handlers) and *events*
//! (publish/subscribe handlers).  Inbound envelopes from a transport
//! collaborator are dispatched: the target handler is resolved by exact
//! name, its payload is decoded and validated, the handler runs with a
//! fresh per-invocation context, and the effects it produces (replies,
//! emissions, broadcasts) are handed back as outbound envelopes for the
//! transport to publish.
//!
//! The transport itself (broker connections, discovery, scheduling) is an
//! external collaborator and stays outside this crate; the crate's surface
//! is `Broker::deliver` inbound and the returned outbound envelopes.

pub mod codec;
pub mod context;
pub mod dispatch;
pub mod greeter;
pub mod handlers;
pub mod laws;
pub mod registry;
pub mod value;
