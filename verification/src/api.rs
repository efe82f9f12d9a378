use vstd::prelude::*;

use crate::request::StatusCondition;

verus! {

/// API group of the issuer resource.
pub const API_GROUP: &'static str = "pki.usg.mil";

/// Kind of the namespaced issuer resource.
pub const ISSUER_KIND: &'static str = "EstIssuer";

/// Desired state of an `EstIssuer` (group `pki.usg.mil`, version `v1alpha1`).
#[derive(Debug)]
pub struct EstIssuerSpec {
    /// HTTPS base URL of the RFC 7030 EST server.
    pub server_url: String,
    /// Optional EST CA label.
    pub ca_label: Option<String>,
    /// EST server trust and enrollment authentication.
    pub authentication: AuthenticationSpec,
    /// CertificateRequest constraints applied before any EST network call.
    pub policy: IssuancePolicy,
}

/// Trust anchor and client authentication used towards the EST server.
#[derive(Debug)]
pub struct AuthenticationSpec {
    /// Secret holding the explicit EST server CA in `ca.crt`.
    pub trust_secret_name: String,
    pub method: AuthenticationMethod,
    /// Basic-auth username. Required only when `method` is `basic`.
    pub username: Option<String>,
    /// Secret holding either `password` or the mTLS `tls.crt` and `tls.key`.
    pub secret_name: String,
}

/// How the issuer authenticates to the EST server.
#[derive(Clone, Copy, Debug, PartialEq, Eq, Structural)]
pub enum AuthenticationMethod {
    Basic,
    MutualTls,
}

/// Constraints that every CertificateRequest must meet.
#[derive(Debug)]
pub struct IssuancePolicy {
    /// DNS suffixes permitted in a request. Empty means deny every request.
    pub allowed_dns_suffixes: Vec<String>,
    /// Maximum DNS SAN count.
    pub max_dns_sans: u16,
    /// Maximum certificate duration requested through cert-manager.
    pub max_duration: String,
}

/// Observed state of an `EstIssuer`.
#[derive(Debug)]
pub struct EstIssuerStatus {
    pub conditions: Vec<StatusCondition>,
}

/// The SAN count limit of a policy that does not set one.
pub fn default_max_dns_sans() -> (r: u16)
    ensures
        r == 20,
{
    20
}

/// The duration limit of a policy that does not set one.
pub fn default_max_duration() -> (r: String)
    ensures
        r@ == "720h"@,
{
    String::from_str("720h")
}

impl Default for IssuancePolicy {
    /// No permitted suffix (deny all), at most twenty SANs, at most 720 hours.
    fn default() -> (r: Self)
        ensures
            r.allowed_dns_suffixes@.len() == 0,
            r.max_dns_sans == 20,
            r.max_duration@ == "720h"@,
    {
        IssuancePolicy {
            allowed_dns_suffixes: Vec::new(),
            max_dns_sans: default_max_dns_sans(),
            max_duration: default_max_duration(),
        }
    }
}

impl Default for EstIssuerStatus {
    fn default() -> (r: Self)
        ensures
            r.conditions@.len() == 0,
    {
        EstIssuerStatus { conditions: Vec::new() }
    }
}

} // verus!
