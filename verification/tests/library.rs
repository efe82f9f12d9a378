use base64::Engine;
use der::{pem::LineEnding, Decode, EncodePem};
use rcgen::{CertificateParams, DistinguishedName, DnType, KeyPair, PKCS_ECDSA_P384_SHA384};
use usg_est_issuer::api::{
    default_max_dns_sans, default_max_duration, AuthenticationMethod, AuthenticationSpec,
    EstIssuerSpec, IssuancePolicy,
};
use usg_est_issuer::audit::audit_event;
use usg_est_issuer::duration_text::checked_duration;
use usg_est_issuer::enrollment::issued_certificate_payload;
use usg_est_issuer::error::{EstFailure, IssuerError};
use usg_est_issuer::gates::{
    check_namespace, enforce_approval, is_complete, secret_bytes, targets_this_controller,
};
use usg_est_issuer::csr::{GeneralNameEntry, RequestedExtension};
use usg_est_issuer::policy::{decode_and_validate_csr, validate_dns_sans};
use usg_est_issuer::reconcile::{step, Action, Enrollment, Event, Phase};
use usg_est_issuer::request::{
    CertificateRequest, CertificateRequestSpec, CertificateRequestStatus, IssuerReference,
    RequestMetadata, Secret, StatusCondition,
};
use usg_est_issuer::status::{error_policy, report, status_conditions, Attempt};
use usg_est_issuer::{clamp_retry, Duration};
use usg_est_client::TrustAnchors;

fn csr_pem_base64(sans: &[&str], common_names: &[&str]) -> String {
    let key = KeyPair::generate_for(&PKCS_ECDSA_P384_SHA384).unwrap();
    let mut params =
        CertificateParams::new(sans.iter().map(|s| s.to_string()).collect::<Vec<_>>()).unwrap();
    params.distinguished_name = DistinguishedName::new();
    for cn in common_names {
        params.distinguished_name.push(DnType::CommonName, *cn);
    }
    let csr = params.serialize_request(&key).unwrap();
    let pem = csr.pem().unwrap();
    base64::engine::general_purpose::STANDARD.encode(pem.as_bytes())
}

fn request_with(encoded: String) -> CertificateRequest {
    CertificateRequest {
        metadata: RequestMetadata {
            name: Some("web".to_string()),
            generate_name: None,
            namespace: Some("jitpw".to_string()),
            uid: Some("uid-1".to_string()),
            generation: Some(3),
        },
        spec: CertificateRequestSpec {
            request: encoded,
            duration: Some("24h".to_string()),
            is_ca: None,
            usages: Some(vec!["server auth".to_string()]),
            issuer_ref: IssuerReference {
                name: "enterprise-est".to_string(),
                kind: Some("EstIssuer".to_string()),
                group: Some("pki.usg.mil".to_string()),
            },
            uid: Some("actor-7".to_string()),
        },
        status: None,
    }
}

fn policy(suffixes: &[&str], max: u16) -> IssuancePolicy {
    IssuancePolicy {
        allowed_dns_suffixes: suffixes.iter().map(|s| s.to_string()).collect(),
        max_dns_sans: max,
        max_duration: "720h".to_string(),
    }
}

fn condition(type_: &str, status: &str) -> StatusCondition {
    StatusCondition {
        type_: type_.to_string(),
        status: status.to_string(),
        reason: "r".to_string(),
        message: "m".to_string(),
        last_transition_time: "2026-01-01T00:00:00Z".to_string(),
        observed_generation: None,
    }
}

fn approved(mut request: CertificateRequest) -> CertificateRequest {
    request.status = Some(CertificateRequestStatus {
        certificate: None,
        conditions: Some(vec![condition("Approved", "True")]),
    });
    request
}

fn policy_message(result: Result<Vec<u8>, IssuerError>) -> String {
    match result {
        Err(IssuerError::Policy(m)) => m,
        Err(e) => panic!("unexpected error {}", e.message()),
        Ok(_) => panic!("unexpectedly accepted"),
    }
}

fn labeled_secret(data: Vec<(&str, &[u8])>) -> Secret {
    Secret {
        labels: Some(vec![("pki.usg.mil/est-issuer".to_string(), "true".to_string())]),
        immutable: Some(true),
        data: Some(data.into_iter().map(|(k, v)| (k.to_string(), v.to_vec())).collect()),
    }
}

#[test]
fn policy_defaults_deny_all_and_bound_sans_and_duration() {
    let policy = <IssuancePolicy as Default>::default();
    assert!(policy.allowed_dns_suffixes.is_empty());
    assert_eq!(policy.max_dns_sans, 20);
    assert_eq!(policy.max_duration, "720h");
    assert_eq!(default_max_dns_sans(), 20);
    assert_eq!(default_max_duration(), "720h");
}

#[test]
fn clamp_keeps_delays_inside_the_bounds() {
    assert_eq!(clamp_retry(Duration::from_secs(45)), Duration::from_secs(45));
    assert_eq!(clamp_retry(Duration::new(9, 999_999_999)), Duration::from_secs(10));
    assert_eq!(clamp_retry(Duration::new(3600, 1)), Duration::from_secs(3600));
    assert_eq!(Duration::new(5, 7).as_secs(), 5);
    assert_eq!(Duration::new(5, 7).subsec_nanos(), 7);
}

#[test]
fn error_reasons_and_messages() {
    let est = IssuerError::Est(EstFailure {
        message: "timeout".to_string(),
        retryable: true,
        retry_after: None,
    });
    assert_eq!(IssuerError::NotApproved.reason(), "NotApproved");
    assert_eq!(IssuerError::Denied.reason(), "Denied");
    assert_eq!(IssuerError::Policy("x".to_string()).reason(), "PolicyDenied");
    assert_eq!(IssuerError::Configuration("x".to_string()).reason(), "InvalidIssuer");
    assert_eq!(IssuerError::Secret("x".to_string()).reason(), "InvalidSecret");
    assert_eq!(est.reason(), "EstFailure");
    assert_eq!(IssuerError::Kubernetes("x".to_string()).reason(), "KubernetesFailure");
    assert_eq!(IssuerError::Encoding("x".to_string()).reason(), "InvalidCertificate");
    assert_eq!(IssuerError::NotApproved.message(), "request is not approved");
    assert_eq!(
        IssuerError::Policy("bad".to_string()).message(),
        "request violates issuer policy: bad"
    );
    assert_eq!(est.message(), "EST enrollment failed: timeout");
}

#[test]
fn retry_delays_follow_the_error_kind() {
    let retryable = IssuerError::Est(EstFailure {
        message: "pending".to_string(),
        retryable: true,
        retry_after: Some(120),
    });
    let retryable_default = IssuerError::Est(EstFailure {
        message: "tls".to_string(),
        retryable: true,
        retry_after: None,
    });
    let permanent = IssuerError::Est(EstFailure {
        message: "rejected".to_string(),
        retryable: false,
        retry_after: Some(5),
    });
    assert_eq!(retryable.retry_after(), Some(Duration::from_secs(120)));
    assert_eq!(retryable_default.retry_after(), Some(Duration::from_secs(60)));
    assert_eq!(permanent.retry_after(), None);
    assert_eq!(IssuerError::Kubernetes("x".to_string()).retry_after(), Some(Duration::from_secs(30)));
    assert_eq!(IssuerError::Policy("x".to_string()).retry_after(), None);
    assert_eq!(error_policy(&IssuerError::Denied), Duration::from_secs(300));
    assert_eq!(error_policy(&retryable), Duration::from_secs(120));
    assert_eq!(error_policy(&IssuerError::Kubernetes("x".to_string())), Duration::from_secs(30));
}

#[test]
fn reports_per_outcome() {
    let issued = report(Attempt::Issued { certificate: Some("Y2VydA==".to_string()) });
    assert_eq!((issued.audit_outcome, issued.ready_status, issued.reason), ("success", "True", "Issued"));
    assert_eq!(issued.certificate, Some("Y2VydA==".to_string()));
    assert_eq!(issued.requeue, None);
    let pending = report(Attempt::Pending(Duration::from_secs(2)));
    assert_eq!((pending.audit_outcome, pending.ready_status, pending.reason), ("pending", "False", "Pending"));
    assert_eq!(pending.requeue, Some(Duration::from_secs(10)));
    let failed = report(Attempt::Failed(IssuerError::Policy("no".to_string())));
    assert_eq!((failed.audit_outcome, failed.ready_status, failed.reason), ("failure", "False", "PolicyDenied"));
    assert_eq!(failed.certificate, None);
    assert_eq!(failed.requeue, None);
    let transient = report(Attempt::Failed(IssuerError::Kubernetes("down".to_string())));
    assert_eq!(transient.requeue, Some(Duration::from_secs(30)));
}

#[test]
fn targeting_and_completion() {
    let mut request = request_with(String::new());
    assert!(targets_this_controller(&request));
    assert!(!is_complete(&request));
    request.spec.issuer_ref.kind = Some("Issuer".to_string());
    assert!(!targets_this_controller(&request));
    request.spec.issuer_ref.kind = Some("EstIssuer".to_string());
    request.spec.issuer_ref.group = None;
    assert!(!targets_this_controller(&request));
    request.status = Some(CertificateRequestStatus { certificate: Some("x".to_string()), conditions: None });
    assert!(is_complete(&request));
}

#[test]
fn approval_gate() {
    let request = request_with(String::new());
    assert!(matches!(enforce_approval(&request), Err(IssuerError::NotApproved)));
    let mut request = approved(request);
    assert!(enforce_approval(&request).is_ok());
    request.status.as_mut().unwrap().conditions.as_mut().unwrap().push(condition("Denied", "True"));
    assert!(matches!(enforce_approval(&request), Err(IssuerError::Denied)));
    let mut unapproved = request_with(String::new());
    unapproved.status = Some(CertificateRequestStatus {
        certificate: None,
        conditions: Some(vec![condition("Approved", "False")]),
    });
    assert!(matches!(enforce_approval(&unapproved), Err(IssuerError::NotApproved)));
}

#[test]
fn namespace_gate() {
    let mut request = request_with(String::new());
    assert!(check_namespace(&request, "jitpw").is_ok());
    match check_namespace(&request, "other") {
        Err(IssuerError::Configuration(m)) => assert_eq!(m, "cross-namespace issuance is disabled"),
        _ => panic!("cross-namespace request accepted"),
    }
    request.metadata.namespace = None;
    match check_namespace(&request, "jitpw") {
        Err(IssuerError::Configuration(m)) => assert_eq!(m, "request has no namespace"),
        _ => panic!("request without namespace accepted"),
    }
}

#[test]
fn secret_gate() {
    let good = labeled_secret(vec![("ca.crt", b"PEM")]);
    assert_eq!(secret_bytes(&good, "ca.crt").unwrap(), b"PEM".to_vec());
    match secret_bytes(&good, "tls.key") {
        Err(IssuerError::Secret(m)) => assert_eq!(m, "required key \"tls.key\" is missing"),
        _ => panic!("missing key accepted"),
    }
    match secret_bytes(&good, "tab\tand \"quote\"") {
        Err(IssuerError::Secret(m)) => assert_eq!(m, "required key \"tab\\tand \\\"quote\\\"\" is missing"),
        _ => panic!("missing key accepted"),
    }
    let empty = labeled_secret(vec![("ca.crt", b"")]);
    assert!(matches!(secret_bytes(&empty, "ca.crt"), Err(IssuerError::Secret(_))));
    let mut mutable = labeled_secret(vec![("ca.crt", b"PEM")]);
    mutable.immutable = Some(false);
    match secret_bytes(&mutable, "ca.crt") {
        Err(IssuerError::Secret(m)) => {
            assert_eq!(m, "Secret must be immutable and explicitly labeled for EST issuer use")
        }
        _ => panic!("mutable secret accepted"),
    }
    let mut unlabeled = labeled_secret(vec![("ca.crt", b"PEM")]);
    unlabeled.labels = Some(vec![("pki.usg.mil/est-issuer".to_string(), "false".to_string())]);
    assert!(matches!(secret_bytes(&unlabeled, "ca.crt"), Err(IssuerError::Secret(_))));
}

#[test]
fn dns_names_are_matched_case_insensitively_below_suffixes() {
    let request = request_with(csr_pem_base64(&["API.Lab.Example.MIL", "lab.example.mil"], &["api.lab.example.mil"]));
    let der = decode_and_validate_csr(&request, &policy(&[".LAB.example.mil"], 4)).unwrap();
    assert!(!der.is_empty());
}

#[test]
fn widening_the_policy_keeps_an_accepted_request() {
    let request = request_with(csr_pem_base64(&["a.lab.example.mil", "b.lab.example.mil"], &[]));
    let narrow = decode_and_validate_csr(&request, &policy(&["lab.example.mil"], 2)).unwrap();
    let wide = decode_and_validate_csr(&request, &policy(&["other.example.mil", "lab.example.mil"], 9)).unwrap();
    assert_eq!(narrow, wide);
}

#[test]
fn dns_policy_refusals() {
    let wildcard = request_with(csr_pem_base64(&["*.lab.example.mil"], &[]));
    assert_eq!(
        policy_message(decode_and_validate_csr(&wildcard, &policy(&["lab.example.mil"], 4))),
        "DNS SAN is outside the permitted namespace"
    );
    let lookalike = request_with(csr_pem_base64(&["evillab.example.mil"], &[]));
    assert_eq!(
        policy_message(decode_and_validate_csr(&lookalike, &policy(&["lab.example.mil"], 4))),
        "DNS SAN is outside the permitted namespace"
    );
    let many = request_with(csr_pem_base64(&["a.lab.example.mil", "b.lab.example.mil"], &[]));
    assert_eq!(
        policy_message(decode_and_validate_csr(&many, &policy(&["lab.example.mil"], 1))),
        "DNS SAN count violates issuer policy"
    );
    let ip = request_with(csr_pem_base64(&["a.lab.example.mil", "10.0.0.1"], &[]));
    assert_eq!(
        policy_message(decode_and_validate_csr(&ip, &policy(&["lab.example.mil"], 4))),
        "only DNS subject alternative names are permitted"
    );
    let upper_cn = request_with(csr_pem_base64(&["a.lab.example.mil"], &["A.LAB.Example.mil"]));
    assert!(decode_and_validate_csr(&upper_cn, &policy(&["lab.example.mil"], 4)).is_ok());
    let ok = request_with(csr_pem_base64(&["a.lab.example.mil"], &[]));
    match decode_and_validate_csr(&ok, &policy(&[], 4)) {
        Err(IssuerError::Configuration(m)) => assert_eq!(m, "allowedDnsSuffixes must not be empty"),
        _ => panic!("empty allowlist accepted a request"),
    }
}

#[test]
fn request_field_refusals() {
    let base = || request_with(csr_pem_base64(&["a.lab.example.mil"], &[]));
    let allow = policy(&["lab.example.mil"], 4);
    let mut ca = base();
    ca.spec.is_ca = Some(true);
    assert_eq!(policy_message(decode_and_validate_csr(&ca, &allow)), "CA certificate requests are prohibited");
    let mut usages = base();
    usages.spec.usages = Some(vec!["server auth".to_string(), "client auth".to_string()]);
    assert_eq!(
        policy_message(decode_and_validate_csr(&usages, &allow)),
        "usages must be limited to digital signature and server auth"
    );
    usages.spec.usages = None;
    assert_eq!(
        policy_message(decode_and_validate_csr(&usages, &allow)),
        "usages must be limited to digital signature and server auth"
    );
    let mut long = base();
    long.spec.duration = Some("721h".to_string());
    assert_eq!(
        policy_message(decode_and_validate_csr(&long, &allow)),
        "requested certificate duration exceeds issuer policy"
    );
    long.spec.duration = Some("720h".to_string());
    assert!(decode_and_validate_csr(&long, &allow).is_ok());
    long.spec.duration = Some("soon".to_string());
    assert_eq!(policy_message(decode_and_validate_csr(&long, &allow)), "certificate duration is invalid");
    long.spec.duration = Some("18446744073709551615s 1000000000ns".to_string());
    assert_eq!(policy_message(decode_and_validate_csr(&long, &allow)), "certificate duration is invalid");
    long.spec.duration = Some("000000000001h".to_string());
    assert!(decode_and_validate_csr(&long, &allow).is_ok());
    long.spec.duration = Some("3600000000000ns".to_string());
    assert!(decode_and_validate_csr(&long, &allow).is_ok());
    long.spec.duration = Some("1h 30m".to_string());
    assert!(decode_and_validate_csr(&long, &allow).is_ok());
    long.spec.duration = Some("18446744073709551615s".to_string());
    assert_eq!(
        policy_message(decode_and_validate_csr(&long, &allow)),
        "requested certificate duration exceeds issuer policy"
    );
    long.spec.duration = Some("18446744073709551616s".to_string());
    assert_eq!(policy_message(decode_and_validate_csr(&long, &allow)), "certificate duration is invalid");
    long.spec.duration = None;
    assert_eq!(policy_message(decode_and_validate_csr(&long, &allow)), "certificate duration is required");
    let mut bad_max = policy(&["lab.example.mil"], 4);
    bad_max.max_duration = "forever".to_string();
    assert!(matches!(decode_and_validate_csr(&base(), &bad_max), Err(IssuerError::Configuration(_))));
    bad_max.max_duration = "18446744073709551615s 1s".to_string();
    match decode_and_validate_csr(&base(), &bad_max) {
        Err(IssuerError::Configuration(m)) => assert_eq!(m, "maxDuration is invalid"),
        _ => panic!("overflowing maxDuration accepted"),
    }
    bad_max.max_duration = "100000000000000h".to_string();
    assert!(decode_and_validate_csr(&base(), &bad_max).is_ok());
}

#[test]
fn encoding_refusals() {
    let allow = policy(&["lab.example.mil"], 4);
    let not_base64 = request_with("%%%".to_string());
    assert_eq!(policy_message(decode_and_validate_csr(&not_base64, &allow)), "request is not valid base64");
    let not_pem = request_with(base64::engine::general_purpose::STANDARD.encode(b"hello"));
    assert_eq!(policy_message(decode_and_validate_csr(&not_pem, &allow)), "request is not valid PEM");
    let wrong_label = request_with(base64::engine::general_purpose::STANDARD.encode(
        b"-----BEGIN CERTIFICATE-----\nAAAA\n-----END CERTIFICATE-----\n",
    ));
    assert_eq!(
        policy_message(decode_and_validate_csr(&wrong_label, &allow)),
        "PEM object is not a certificate request"
    );
    let not_der = request_with(base64::engine::general_purpose::STANDARD.encode(
        b"-----BEGIN CERTIFICATE REQUEST-----\nAAAA\n-----END CERTIFICATE REQUEST-----\n",
    ));
    assert_eq!(policy_message(decode_and_validate_csr(&not_der, &allow)), "CSR is not valid DER");
}

fn self_signed_der(name: &str) -> Vec<u8> {
    let key = KeyPair::generate_for(&PKCS_ECDSA_P384_SHA384).unwrap();
    let params = CertificateParams::new(vec![name.to_string()]).unwrap();
    params.self_signed(&key).unwrap().der().to_vec()
}

#[test]
fn issued_chain_is_pem_concatenated_then_base64() {
    let leaf = self_signed_der("a.lab.example.mil");
    let intermediate = self_signed_der("ca.example.mil");
    let payload = issued_certificate_payload(&leaf, &vec![intermediate.clone()]).unwrap();
    let mut expected = x509_cert::Certificate::from_der(&leaf).unwrap().to_pem(LineEnding::LF).unwrap();
    expected.push_str(&x509_cert::Certificate::from_der(&intermediate).unwrap().to_pem(LineEnding::LF).unwrap());
    assert_eq!(payload, base64::engine::general_purpose::STANDARD.encode(expected));
}

#[test]
fn ready_condition_replaces_the_previous_one() {
    let mut request = request_with(String::new());
    request.status = Some(CertificateRequestStatus {
        certificate: None,
        conditions: Some(vec![condition("Ready", "False"), condition("Approved", "True")]),
    });
    let conditions = status_conditions(&request, "False", "PolicyDenied", "now".to_string());
    assert_eq!(conditions.len(), 2);
    assert_eq!(conditions[0].type_, "Approved");
    let ready = &conditions[1];
    assert_eq!((ready.type_.as_str(), ready.status.as_str(), ready.reason.as_str()), ("Ready", "False", "PolicyDenied"));
    assert_eq!(ready.message, "CertificateRequest violates issuer policy");
    assert_eq!(ready.last_transition_time, "now");
    assert_eq!(ready.observed_generation, Some(3));
}

#[test]
fn audit_event_fields() {
    let mut request = request_with(String::new());
    let event = audit_event(&request, "enterprise-est", "certificate.issue", "failure", "Denied", "fresh".to_string());
    assert_eq!(event.schema, "usg.est.issuer.audit.v1");
    assert_eq!(event.correlation_id, "uid-1");
    assert_eq!(event.namespace, "jitpw");
    assert_eq!(event.certificate_request, "web");
    assert_eq!(event.certificate_request_uid, "uid-1");
    assert_eq!(event.actor_uid, "actor-7");
    assert_eq!((event.action.as_str(), event.outcome.as_str(), event.reason.as_str()), ("certificate.issue", "failure", "Denied"));
    request.metadata.uid = None;
    request.metadata.name = None;
    request.metadata.generate_name = Some("web-".to_string());
    let event = audit_event(&request, "enterprise-est", "certificate.issue", "success", "Issued", "fresh".to_string());
    assert_eq!(event.correlation_id, "fresh");
    assert_eq!(event.certificate_request_uid, "");
    assert_eq!(event.certificate_request, "web-");
}

fn issuer(method: AuthenticationMethod, username: Option<&str>, url: &str) -> EstIssuerSpec {
    EstIssuerSpec {
        server_url: url.to_string(),
        ca_label: Some("ra".to_string()),
        authentication: AuthenticationSpec {
            trust_secret_name: "est-trust".to_string(),
            method,
            username: username.map(|u| u.to_string()),
            secret_name: "est-auth".to_string(),
        },
        policy: policy(&["lab.example.mil"], 4),
    }
}

#[test]
fn reconciliation_with_basic_authentication() {
    let request = approved(request_with(csr_pem_base64(&["a.lab.example.mil"], &[])));
    let (phase, action) = step(&request, "jitpw", Phase::Start, Event::Start);
    match &action {
        Action::FetchIssuer { namespace, name } => {
            assert_eq!((namespace.as_str(), name.as_str()), ("jitpw", "enterprise-est"))
        }
        _ => panic!("expected an issuer read"),
    }
    let spec = issuer(AuthenticationMethod::Basic, Some("robot"), "https://est.example.mil/.well-known/est");
    let (phase, action) = step(&request, "jitpw", phase, Event::IssuerFetched(Ok(spec)));
    assert!(matches!(&action, Action::FetchSecret { namespace, name } if name == "est-trust" && namespace == "jitpw"));
    let trust = labeled_secret(vec![("ca.crt", b"TRUST")]);
    let (phase, action) = step(&request, "jitpw", phase, Event::SecretFetched(Ok(trust)));
    assert!(matches!(phase, Phase::AwaitingCredentials { .. }));
    assert!(matches!(&action, Action::FetchSecret { namespace, name } if name == "est-auth" && namespace == "jitpw"));
    let auth = labeled_secret(vec![("password", b"s3cret")]);
    let (phase, action) = step(&request, "jitpw", phase, Event::SecretFetched(Ok(auth)));
    let expected_der = decode_and_validate_csr(&request, &policy(&["lab.example.mil"], 4)).unwrap();
    match &action {
        Action::Enroll { config, csr_der } => {
            let config = config.client_config();
            assert_eq!(csr_der, &expected_der);
            assert_eq!(config.ca_label, Some("ra".to_string()));
            assert_eq!(config.server_url.as_str(), "https://est.example.mil/.well-known/est");
            assert!(config.verify_csr_signatures);
            assert!(matches!(&config.trust_anchors, TrustAnchors::Explicit(cas) if cas == &vec![b"TRUST".to_vec()]));
            let auth = config.http_auth.as_ref().expect("basic credentials");
            assert_eq!((auth.username.as_str(), auth.password.as_str()), ("robot", "s3cret"));
            assert!(config.client_identity.is_none());
        }
        _ => panic!("expected enrollment"),
    }
    let (phase, action) = step(&request, "jitpw", phase, Event::Enrolled(Ok(Enrollment::Pending(Duration::from_secs(90)))));
    assert!(matches!(phase, Phase::Done));
    match action {
        Action::Report(r) => {
            assert_eq!(r.reason, "Pending");
            assert_eq!(r.requeue, Some(Duration::from_secs(90)));
        }
        _ => panic!("expected a report"),
    }
}

#[test]
fn reconciliation_with_mutual_tls_issues_a_chain() {
    let request = approved(request_with(csr_pem_base64(&["a.lab.example.mil"], &[])));
    let (phase, _) = step(&request, "jitpw", Phase::Start, Event::Start);
    let spec = issuer(AuthenticationMethod::MutualTls, None, "https://est.example.mil");
    let (phase, _) = step(&request, "jitpw", phase, Event::IssuerFetched(Ok(spec)));
    let (phase, _) = step(&request, "jitpw", phase, Event::SecretFetched(Ok(labeled_secret(vec![("ca.crt", b"TRUST")]))));
    let auth = labeled_secret(vec![("tls.crt", b"CERT"), ("tls.key", b"KEY")]);
    let (phase, action) = step(&request, "jitpw", phase, Event::SecretFetched(Ok(auth)));
    match &action {
        Action::Enroll { config, csr_der } => {
            let config = config.client_config();
            assert!(!csr_der.is_empty());
            let identity = config.client_identity.as_ref().expect("client identity");
            assert_eq!((identity.cert_pem.as_slice(), identity.key_pem.as_slice()), (&b"CERT"[..], &b"KEY"[..]));
            assert!(config.http_auth.is_none());
        }
        _ => panic!("expected enrollment"),
    }
    let leaf = self_signed_der("a.lab.example.mil");
    let (_, action) = step(&request, "jitpw", phase, Event::Enrolled(Ok(Enrollment::Issued { certificate: leaf.clone(), intermediates: vec![] })));
    match action {
        Action::Report(r) => {
            assert_eq!((r.ready_status, r.reason), ("True", "Issued"));
            assert_eq!(r.certificate, Some(issued_certificate_payload(&leaf, &vec![]).unwrap()));
        }
        _ => panic!("expected a report"),
    }
}

#[test]
fn reconciliation_refusals() {
    let foreign = {
        let mut r = approved(request_with(String::new()));
        r.spec.issuer_ref.group = Some("cert-manager.io".to_string());
        r
    };
    assert!(matches!(step(&foreign, "jitpw", Phase::Start, Event::Start).1, Action::Ignore));
    let unapproved = request_with(String::new());
    match step(&unapproved, "jitpw", Phase::Start, Event::Start).1 {
        Action::Report(r) => assert_eq!(r.reason, "NotApproved"),
        _ => panic!("unapproved request went on"),
    }
    let request = approved(request_with(csr_pem_base64(&["a.lab.example.mil"], &[])));
    let (phase, _) = step(&request, "jitpw", Phase::Start, Event::Start);
    let plain = issuer(AuthenticationMethod::Basic, Some("robot"), "http://est.example.mil");
    match step(&request, "jitpw", phase, Event::IssuerFetched(Ok(plain))).1 {
        Action::Report(r) => assert_eq!(r.reason, "InvalidIssuer"),
        _ => panic!("plain HTTP accepted"),
    }
    let (phase, _) = step(&request, "jitpw", Phase::Start, Event::Start);
    let spec = issuer(AuthenticationMethod::MutualTls, Some("robot"), "https://est.example.mil");
    let (phase, _) = step(&request, "jitpw", phase, Event::IssuerFetched(Ok(spec)));
    match step(&request, "jitpw", phase, Event::SecretFetched(Ok(labeled_secret(vec![("ca.crt", b"T")])))).1 {
        Action::Report(r) => {
            assert_eq!(r.reason, "InvalidIssuer");
            assert_eq!(r.error_message.as_deref(), Some("issuer configuration is invalid: mTLS authentication must not specify a username"));
        }
        _ => panic!("mTLS with a username accepted"),
    }
    let (phase, _) = step(&request, "jitpw", Phase::Start, Event::Start);
    let hostless = issuer(AuthenticationMethod::Basic, Some("robot"), "https://");
    let (phase, action) = step(&request, "jitpw", phase, Event::IssuerFetched(Ok(hostless)));
    assert!(matches!(&action, Action::FetchSecret { name, .. } if name == "est-trust"));
    match step(&request, "jitpw", phase, Event::SecretFetched(Ok(labeled_secret(vec![("ca.crt", b"T")])))).1 {
        Action::Report(r) => {
            assert_eq!(r.reason, "InvalidIssuer");
            assert_eq!(r.error_message.as_deref(), Some("issuer configuration is invalid: empty host"));
        }
        _ => panic!("a URL without a host accepted"),
    }
    let (phase, _) = step(&request, "jitpw", Phase::Start, Event::Start);
    let spec = issuer(AuthenticationMethod::Basic, Some("robot"), "https://est.example.mil");
    let (phase, _) = step(&request, "jitpw", phase, Event::IssuerFetched(Ok(spec)));
    let (phase, _) = step(&request, "jitpw", phase, Event::SecretFetched(Ok(labeled_secret(vec![("ca.crt", b"T")]))));
    match step(&request, "jitpw", phase, Event::SecretFetched(Ok(labeled_secret(vec![("password", &[0xff, 0xfe])])))).1 {
        Action::Report(r) => assert_eq!(r.reason, "InvalidSecret"),
        _ => panic!("non-UTF-8 password accepted"),
    }
}

#[test]
fn repeated_status_writes_keep_a_single_ready_condition() {
    let mut request = approved(request_with(String::new()));
    let first = status_conditions(&request, "False", "Pending", "t1".to_string());
    request.status.as_mut().unwrap().conditions = Some(first);
    let second = status_conditions(&request, "True", "Issued", "t2".to_string());
    assert_eq!(second.len(), 2);
    assert_eq!(second.iter().filter(|c| c.type_ == "Ready").count(), 1);
    assert_eq!(second[0].type_, "Approved");
    assert_eq!((second[1].status.as_str(), second[1].last_transition_time.as_str()), ("True", "t2"));
}

#[test]
fn duration_texts_are_parsed_without_overflow() {
    assert_eq!(checked_duration("2h 37min"), Some((9420, 0)));
    assert_eq!(checked_duration("4.2s"), Some((4, 200_000_000)));
    assert_eq!(checked_duration("32ms"), Some((0, 32_000_000)));
    assert_eq!(checked_duration("1h30m"), Some((5400, 0)));
    assert_eq!(checked_duration("0"), Some((0, 0)));
    assert_eq!(checked_duration("000000000001h"), Some((3600, 0)));
    assert_eq!(checked_duration("18446744073709551615s"), Some((u64::MAX, 0)));
    assert_eq!(checked_duration("18446744073709551615s 999999999ns"), Some((u64::MAX, 999_999_999)));
    assert_eq!(checked_duration("18446744073709551615s 1000000000ns"), None);
    assert_eq!(checked_duration("18446744073709551615s 1s"), None);
    assert_eq!(checked_duration("1h0"), None);
    assert_eq!(checked_duration("soon"), None);
    assert_eq!(checked_duration(""), None);
}

#[test]
fn widening_keeps_accepted_dns_names() {
    let extensions = Some(vec![
        RequestedExtension::Other,
        RequestedExtension::SubjectAltName(vec![
            GeneralNameEntry::Dns("A.lab.example.mil".to_string()),
            GeneralNameEntry::Dns("b.lab.example.mil".to_string()),
        ]),
    ]);
    let narrow = validate_dns_sans(&extensions, &policy(&["lab.example.mil"], 2)).unwrap();
    let wide = validate_dns_sans(&extensions, &policy(&["x.mil", "lab.example.mil"], 5)).unwrap();
    assert_eq!(narrow, wide);
    let lowered: Vec<String> = wide.iter().map(|n| n.iter().collect()).collect();
    assert_eq!(lowered, vec!["a.lab.example.mil".to_string(), "b.lab.example.mil".to_string()]);
    assert!(validate_dns_sans(&extensions, &policy(&["lab.example.mil"], 1)).is_err());
}
