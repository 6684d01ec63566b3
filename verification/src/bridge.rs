//! Shaping inbound hardware messages for the notification sink.
//!
//! The platform subsystem invokes a callback once per incoming message, on
//! a thread it owns. The callback's job is to capture the bytes, stamp them
//! with the wall-clock time of arrival, and hand the result to the
//! notification sink; delivery is best-effort, and a failed delivery is
//! deliberately ignored rather than allowed to disturb the connection.
//! The shaping step — one message out per message in, carrying a
//! byte-for-byte copy of the payload — is what this module pins down.

use vstd::prelude::*;

verus! {

/// One inbound hardware message as delivered to the sink: the moment of
/// arrival in milliseconds since the Unix epoch, and the payload bytes.
#[derive(Debug, PartialEq, Eq)]
pub struct InboundMessage {
    pub timestamp_ms: u128,
    pub data: Vec<u8>,
}

/// Builds the one notification for one inbound hardware message: it
/// carries exactly the given timestamp and a byte-for-byte copy of the
/// payload.
pub fn make_inbound_message(timestamp_ms: u128, payload: &[u8]) -> (m: InboundMessage)
    ensures
        m.timestamp_ms == timestamp_ms,
        m.data@ == payload@,
{
    InboundMessage { timestamp_ms, data: vstd::slice::slice_to_vec(payload) }
}

} // verus!
