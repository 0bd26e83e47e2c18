//! Client-side normalization and pagination layer of a chat-service wire
//! protocol.
//!
//! The library turns heterogeneous, delta-oriented server responses into a
//! uniform stream of fully-formed events and entities:
//!
//! * [`updates`] collapses the envelope shapes a round-trip can deliver into
//!   one canonical event sequence plus the entities referenced by it.
//! * [`dialogs`] instantiates the generic cursor/buffer engine of
//!   [`rpc_iter`] for conversation listing, joining the three separately
//!   paginated result sets of a page into complete [`dialogs::Dialog`] values
//!   and advancing the request cursor.
//! * [`flag`] parses the `name.index` notation used for bit-indexed optional
//!   fields of the wire schema.
//!
//! The transport itself (performing a round-trip, invoking one typed RPC) is
//! an external collaborator: callers hand each decoded response to this
//! library and get back the next batch of events or buffered items.

pub mod dialogs;
pub mod entity_set;
pub mod flag;
pub mod rpc_iter;
pub mod updates;
pub mod wire;
