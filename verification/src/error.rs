use vstd::prelude::*;

use crate::duration::{Duration, NANOS_PER_SEC};

verus! {

/// What the issuer knows of a failed EST exchange.
#[derive(Debug)]
pub struct EstFailure {
    /// Human-readable description of the failure.
    pub message: String,
    /// Whether the EST client classifies the failure as transient.
    pub retryable: bool,
    /// Delay, in seconds, that the EST server asked for, if any.
    pub retry_after: Option<u64>,
}

/// Why a CertificateRequest was not issued.
#[derive(Debug)]
pub enum IssuerError {
    NotApproved,
    Denied,
    Policy(String),
    Configuration(String),
    Secret(String),
    Est(EstFailure),
    Kubernetes(String),
    Encoding(String),
}

/// The mathematical value of an [`IssuerError`].
pub enum ErrorView {
    NotApproved,
    Denied,
    Policy(Seq<char>),
    Configuration(Seq<char>),
    Secret(Seq<char>),
    Est { message: Seq<char>, retryable: bool, retry_after: Option<u64> },
    Kubernetes(Seq<char>),
    Encoding(Seq<char>),
}

impl View for IssuerError {
    type V = ErrorView;

    open spec fn view(&self) -> ErrorView {
        match self {
            IssuerError::NotApproved => ErrorView::NotApproved,
            IssuerError::Denied => ErrorView::Denied,
            IssuerError::Policy(m) => ErrorView::Policy(m@),
            IssuerError::Configuration(m) => ErrorView::Configuration(m@),
            IssuerError::Secret(m) => ErrorView::Secret(m@),
            IssuerError::Est(e) => ErrorView::Est {
                message: e.message@,
                retryable: e.retryable,
                retry_after: e.retry_after,
            },
            IssuerError::Kubernetes(m) => ErrorView::Kubernetes(m@),
            IssuerError::Encoding(m) => ErrorView::Encoding(m@),
        }
    }
}

/// The view of a result whose error is an [`IssuerError`].
pub open spec fn result_view<T, V>(r: Result<T, IssuerError>, ok: spec_fn(T) -> V) -> Result<V, ErrorView> {
    match r {
        Ok(v) => Ok(ok(v)),
        Err(e) => Err(e@),
    }
}

impl ErrorView {
    /// The stable, machine-readable reason code.
    pub open spec fn reason(self) -> Seq<char> {
        match self {
            ErrorView::NotApproved => "NotApproved"@,
            ErrorView::Denied => "Denied"@,
            ErrorView::Policy(_) => "PolicyDenied"@,
            ErrorView::Configuration(_) => "InvalidIssuer"@,
            ErrorView::Secret(_) => "InvalidSecret"@,
            ErrorView::Est { .. } => "EstFailure"@,
            ErrorView::Kubernetes(_) => "KubernetesFailure"@,
            ErrorView::Encoding(_) => "InvalidCertificate"@,
        }
    }

    /// Seconds to wait before retrying, or `None` where only a change of the
    /// resource should trigger another attempt.
    pub open spec fn retry_secs(self) -> Option<u64> {
        match self {
            ErrorView::Est { retryable, retry_after, .. } => if retryable {
                Some(
                    match retry_after {
                        Some(s) => s,
                        None => 60,
                    },
                )
            } else {
                None
            },
            ErrorView::Kubernetes(_) => Some(30),
            _ => None,
        }
    }

    /// The human-readable description of the error.
    pub open spec fn message(self) -> Seq<char> {
        match self {
            ErrorView::NotApproved => "request is not approved"@,
            ErrorView::Denied => "request is denied"@,
            ErrorView::Policy(m) => "request violates issuer policy: "@ + m,
            ErrorView::Configuration(m) => "issuer configuration is invalid: "@ + m,
            ErrorView::Secret(m) => "referenced secret is unavailable or invalid: "@ + m,
            ErrorView::Est { message, .. } => "EST enrollment failed: "@ + message,
            ErrorView::Kubernetes(m) => "Kubernetes API operation failed: "@ + m,
            ErrorView::Encoding(m) => "certificate encoding failed: "@ + m,
        }
    }
}

fn prefixed(prefix: &str, detail: &String) -> (r: String)
    ensures
        r@ == prefix@ + detail@,
{
    let mut r = String::from_str(prefix);
    r.append(detail.as_str());
    r
}

impl IssuerError {
    /// The stable, machine-readable reason code used in conditions and audit events.
    pub fn reason(&self) -> (r: &'static str)
        ensures
            r@ == self@.reason(),
    {
        match self {
            IssuerError::NotApproved => "NotApproved",
            IssuerError::Denied => "Denied",
            IssuerError::Policy(_) => "PolicyDenied",
            IssuerError::Configuration(_) => "InvalidIssuer",
            IssuerError::Secret(_) => "InvalidSecret",
            IssuerError::Est(_) => "EstFailure",
            IssuerError::Kubernetes(_) => "KubernetesFailure",
            IssuerError::Encoding(_) => "InvalidCertificate",
        }
    }

    /// How long to wait before retrying: the EST server's delay (sixty seconds
    /// when it names none) for a transient EST failure, thirty seconds for a
    /// Kubernetes failure, and `None` for every other error.
    pub fn retry_after(&self) -> (r: Option<Duration>)
        ensures
            r is Some <==> self@.retry_secs() is Some,
            r is Some ==> r->0@ == self@.retry_secs()->0 as int * NANOS_PER_SEC as int,
    {
        match self {
            IssuerError::Est(e) => if e.retryable {
                Some(
                    Duration::from_secs(
                        match e.retry_after {
                            Some(s) => s,
                            None => 60,
                        },
                    ),
                )
            } else {
                None
            },
            IssuerError::Kubernetes(_) => Some(Duration::from_secs(30)),
            _ => None,
        }
    }

    /// The human-readable description of the error.
    pub fn message(&self) -> (r: String)
        ensures
            r@ == self@.message(),
    {
        match self {
            IssuerError::NotApproved => String::from_str("request is not approved"),
            IssuerError::Denied => String::from_str("request is denied"),
            IssuerError::Policy(m) => prefixed("request violates issuer policy: ", m),
            IssuerError::Configuration(m) => prefixed("issuer configuration is invalid: ", m),
            IssuerError::Secret(m) => prefixed("referenced secret is unavailable or invalid: ", m),
            IssuerError::Est(e) => prefixed("EST enrollment failed: ", &e.message),
            IssuerError::Kubernetes(m) => prefixed("Kubernetes API operation failed: ", m),
            IssuerError::Encoding(m) => prefixed("certificate encoding failed: ", m),
        }
    }
}

} // verus!
