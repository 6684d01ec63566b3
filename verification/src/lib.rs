//! A MIDI device connection lifecycle manager.
//!
//! The library tracks at most one active input connection and one active
//! output connection, swaps them out safely (the old handle is fully released
//! before a new one is installed), validates port indices against enumerated
//! port lists, composes device snapshots, and shapes inbound hardware
//! messages for delivery to a notification sink.
//!
//! Platform MIDI bindings are an opaque capability owned by the embedding
//! shell: the shell enumerates ports, opens connections and transmits bytes,
//! and hands the outcomes of those calls to this library as plain values.
//! Every decision — index validation, release-before-acquire ordering,
//! fail-fast on a missing connection, all-or-nothing snapshot composition,
//! error classification — is made here, under contract.

pub mod bridge;
pub mod devices;
pub mod errors;
pub mod slots;
