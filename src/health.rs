use vstd::prelude::*;

verus! {

/// Serving state reported by the standard health-check protocol.
#[derive(Debug, Clone, Copy, PartialEq, Eq, Structural)]
pub enum ServingStatus {
    Unknown,
    Serving,
    NotServing,
    ServiceUnknown,
}

impl ServingStatus {
    /// The number that stands for this state on the wire.
    pub fn to_wire(self) -> (r: i32)
        ensures
            r == match self {
                ServingStatus::Unknown => 0i32,
                ServingStatus::Serving => 1i32,
                ServingStatus::NotServing => 2i32,
                ServingStatus::ServiceUnknown => 3i32,
            },
    {
        match self {
            ServingStatus::Unknown => 0,
            ServingStatus::Serving => 1,
            ServingStatus::NotServing => 2,
            ServingStatus::ServiceUnknown => 3,
        }
    }
}

/// A health query, naming the service it asks about (empty for the whole server).
pub struct HealthCheckRequest {
    pub service: String,
}

/// The answer to a health query.
pub struct HealthCheckResponse {
    pub status: ServingStatus,
}

/// A failure reported to the caller of a health operation.
pub enum HealthError {
    /// The operation is not offered; the text says which.
    Unimplemented(String),
}

/// The standard two-operation health service.
#[derive(Debug, Default)]
pub struct HealthService;

impl HealthService {
    /// Answers a health query: always `Serving`.
    pub fn check(&self, _request: HealthCheckRequest) -> (r: HealthCheckResponse)
        ensures
            r.status == ServingStatus::Serving,
    {
        HealthCheckResponse { status: ServingStatus::Serving }
    }

    /// Subscribing to status updates is not offered: the call fails at once with
    /// `Unimplemented` and hands out no stream.
    pub fn watch(&self, _request: HealthCheckRequest) -> (r: Result<HealthCheckResponse, HealthError>)
        ensures
            r matches Err(HealthError::Unimplemented(m)) && m@ == "Health watch not implemented"@,
    {
        Err(HealthError::Unimplemented(String::from_str("Health watch not implemented")))
    }
}

} // verus!
