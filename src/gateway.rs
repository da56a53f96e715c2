use vstd::prelude::*;

use std::collections::HashMap;

verus! {

/// A message handed to the gateway for delivery.
pub struct MessageRequest {
    /// Opaque identifier chosen by the sender.
    pub message_id: String,
    /// Identity of the agent the message is addressed to.
    pub destination: String,
    /// Message content, carried as raw bytes.
    pub payload: Vec<u8>,
    /// Free-form key/value pairs that travel with the message.
    pub metadata: HashMap<String, String>,
}

/// The acknowledgement returned for a delivered message.
pub struct MessageResponse {
    pub message_id: String,
    pub status: String,
    pub metadata: HashMap<String, String>,
}

/// A liveness probe; it carries nothing.
pub struct HealthRequest {}

/// The answer to a liveness probe.
pub struct HealthResponse {
    pub status: String,
}

/// The message-delivery service.
///
/// Delivery does not consult the token store or the route table: authentication and
/// routing are left to the layer in front of this service, and every message is
/// acknowledged as delivered.
#[derive(Debug, Default)]
pub struct AgpGatewayService {}

impl AgpGatewayService {
    /// Acknowledges `request`: the identifier and metadata come back unchanged, with
    /// status `"delivered"`.
    pub fn send_message(&self, request: MessageRequest) -> (r: MessageResponse)
        ensures
            r.message_id == request.message_id,
            r.metadata == request.metadata,
            r.status@ == "delivered"@,
    {
        MessageResponse {
            message_id: request.message_id,
            status: String::from_str("delivered"),
            metadata: request.metadata,
        }
    }

    /// Reports liveness: always status `"healthy"`, whatever the probe holds.
    pub fn get_health(&self, _request: HealthRequest) -> (r: HealthResponse)
        ensures
            r.status@ == "healthy"@,
    {
        HealthResponse { status: String::from_str("healthy") }
    }
}

} // verus!
