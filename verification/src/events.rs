//! What the user interface is told, and on which channels.

use vstd::prelude::*;

verus! {

/// Tells how the sidecar server is.
pub const SIDECAR_STATUS_CHANNEL: &'static str = "sidecar-status";

/// Tells how a harness is.
pub const HARNESS_STATUS_CHANNEL: &'static str = "harness-status";

/// Relays the progress of a request.
pub const QUERY_PROGRESS_CHANNEL: &'static str = "query-progress";

/// Relays the protocol's own events.
pub const PROTOCOL_EVENT_CHANNEL: &'static str = "protocol-event";

/// An event for the user interface.
#[derive(Debug)]
pub struct Event {
    pub channel: &'static str,
    pub payload: serde_json::Value,
}

/// The channels of the user interface.
pub proof fn law_channels()
    ensures
        SIDECAR_STATUS_CHANNEL@ == "sidecar-status"@,
        HARNESS_STATUS_CHANNEL@ == "harness-status"@,
        QUERY_PROGRESS_CHANNEL@ == "query-progress"@,
        PROTOCOL_EVENT_CHANNEL@ == "protocol-event"@,
{
}

} // verus!
