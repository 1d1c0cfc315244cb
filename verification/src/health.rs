//! The health endpoint: fixed service identity, independent of every
//! other request.

use vstd::prelude::*;

verus! {

/// The gateway's fixed identity, reported by the health endpoint.
pub struct ServiceIdentity {
    pub service: String,
    pub status: String,
    pub version: String,
}

/// The health endpoint's reply: an HTTP status code and the identity body.
pub struct HealthReply {
    pub http_status: u16,
    pub body: ServiceIdentity,
}

/// `GET /health`: always 200 with the fixed service identity, with no
/// dependency on the dispatcher or on any prior request.
pub fn health_check() -> (r: HealthReply)
    ensures
        r.http_status == 200,
        r.body.service@ == "backend-rust-sandbox"@,
        r.body.status@ == "ok"@,
        r.body.version@ == "1.0.0"@,
{
    HealthReply {
        http_status: 200,
        body: ServiceIdentity {
            service: "backend-rust-sandbox".to_owned(),
            status: "ok".to_owned(),
            version: "1.0.0".to_owned(),
        },
    }
}

} // verus!
