//! The content of structured, secret-free audit events.
use vstd::prelude::*;

use crate::request::{CertificateRequest, RequestMetadata};

verus! {

/// One audit record (schema `usg.est.issuer.audit.v1`). It holds resource
/// identifiers, UIDs, the issuer name, the outcome and a reason code; never
/// CSR bodies, keys, passwords, certificates or Secret contents.
#[derive(Debug)]
pub struct AuditEvent {
    pub schema: &'static str,
    pub action: String,
    pub outcome: String,
    pub reason: String,
    /// The CertificateRequest UID, or a fresh identifier where it has none.
    pub correlation_id: String,
    pub namespace: String,
    pub certificate_request: String,
    pub certificate_request_uid: String,
    pub issuer: String,
    pub actor_uid: String,
}

/// The text of an optional string, empty where it is absent.
pub open spec fn text_or_empty(s: Option<String>) -> Seq<char> {
    match s {
        Some(t) => t@,
        None => Seq::empty(),
    }
}

/// The name of a resource: its name, else its `generateName`, else empty.
pub open spec fn display_name(meta: RequestMetadata) -> Seq<char> {
    match meta.name {
        Some(n) => n@,
        None => text_or_empty(meta.generate_name),
    }
}

fn copy_or_empty(s: &Option<String>) -> (r: String)
    ensures
        r@ == text_or_empty(*s),
{
    match s {
        Some(t) => t.clone(),
        None => String::new(),
    }
}

/// Builds the audit record for a request. `fallback_correlation_id` is used
/// only where the request has no UID.
pub fn audit_event(
    request: &CertificateRequest,
    issuer: &str,
    action: &str,
    outcome: &str,
    reason: &str,
    fallback_correlation_id: String,
) -> (e: AuditEvent)
    ensures
        e.schema@ == "usg.est.issuer.audit.v1"@,
        e.action@ == action@,
        e.outcome@ == outcome@,
        e.reason@ == reason@,
        e.correlation_id@ == match request.metadata.uid {
            Some(u) => u@,
            None => fallback_correlation_id@,
        },
        e.namespace@ == text_or_empty(request.metadata.namespace),
        e.certificate_request@ == display_name(request.metadata),
        e.certificate_request_uid@ == text_or_empty(request.metadata.uid),
        e.issuer@ == issuer@,
        e.actor_uid@ == text_or_empty(request.spec.uid),
{
    let correlation_id = match &request.metadata.uid {
        Some(u) => u.clone(),
        None => fallback_correlation_id,
    };
    let certificate_request = match &request.metadata.name {
        Some(n) => n.clone(),
        None => copy_or_empty(&request.metadata.generate_name),
    };
    AuditEvent {
        schema: "usg.est.issuer.audit.v1",
        action: String::from_str(action),
        outcome: String::from_str(outcome),
        reason: String::from_str(reason),
        correlation_id,
        namespace: copy_or_empty(&request.metadata.namespace),
        certificate_request,
        certificate_request_uid: copy_or_empty(&request.metadata.uid),
        issuer: String::from_str(issuer),
        actor_uid: copy_or_empty(&request.spec.uid),
    }
}

} // verus!
