use base64::Engine;
use rcgen::{
    CertificateParams, DistinguishedName, DnType, KeyPair, SignatureAlgorithm,
    PKCS_ECDSA_P256_SHA256, PKCS_ECDSA_P384_SHA384,
};
use usg_est_issuer::api::IssuancePolicy;
use usg_est_issuer::error::IssuerError;
use usg_est_issuer::policy::decode_and_validate_csr;
use usg_est_issuer::request::{
    CertificateRequest, CertificateRequestSpec, CertificateRequestStatus, IssuerReference,
    RequestMetadata, StatusCondition,
};
use usg_est_issuer::status::{safe_condition_message, status_conditions};
use usg_est_issuer::{clamp_retry, Duration};

fn test_request(dns_name: &str) -> CertificateRequest {
    test_request_with(Some(dns_name), dns_name, &PKCS_ECDSA_P384_SHA384)
}

fn test_request_with(
    common_name: Option<&str>,
    dns_name: &str,
    algorithm: &'static SignatureAlgorithm,
) -> CertificateRequest {
    let key = KeyPair::generate_for(algorithm).unwrap();
    let mut params = CertificateParams::new(vec![dns_name.to_string()]).unwrap();
    params.distinguished_name = DistinguishedName::new();
    if let Some(common_name) = common_name {
        params.distinguished_name.push(DnType::CommonName, common_name);
    }
    let csr = params.serialize_request(&key).unwrap();
    let csr_der: &[u8] = csr.der().as_ref();
    let encoded = base64::engine::general_purpose::STANDARD.encode(csr_der);
    let pem = format!(
        "-----BEGIN CERTIFICATE REQUEST-----\n{}\n-----END CERTIFICATE REQUEST-----\n",
        encoded
            .as_bytes()
            .chunks(64)
            .map(|chunk| std::str::from_utf8(chunk).unwrap())
            .collect::<Vec<_>>()
            .join("\n")
    );
    let encoded_request = base64::engine::general_purpose::STANDARD.encode(pem.as_bytes());
    CertificateRequest {
        metadata: RequestMetadata {
            name: Some("test".to_string()),
            generate_name: None,
            namespace: Some("jitpw".to_string()),
            uid: None,
            generation: None,
        },
        spec: CertificateRequestSpec {
            request: encoded_request,
            duration: Some("24h".to_string()),
            is_ca: Some(false),
            usages: Some(vec!["digital signature".to_string(), "server auth".to_string()]),
            issuer_ref: IssuerReference {
                name: "enterprise-est".to_string(),
                kind: Some("EstIssuer".to_string()),
                group: Some("pki.usg.mil".to_string()),
            },
            uid: None,
        },
        status: None,
    }
}

fn test_policy() -> IssuancePolicy {
    IssuancePolicy {
        allowed_dns_suffixes: vec!["lab.example.mil".to_string()],
        max_dns_sans: 4,
        max_duration: "720h".to_string(),
    }
}

#[test]
fn retry_delay_is_bounded() {
    assert_eq!(clamp_retry(Duration::zero()), Duration::from_secs(10));
    assert_eq!(
        clamp_retry(Duration::from_secs(7200)),
        Duration::from_secs(3600)
    );
}

#[test]
fn condition_messages_do_not_include_internal_errors() {
    assert_eq!(
        safe_condition_message("EstFailure"),
        "EST enrollment failed"
    );
    assert_eq!(
        safe_condition_message("unknown internal detail"),
        "Certificate issuance failed"
    );
}

#[test]
fn valid_p384_request_inside_dns_boundary_is_accepted() {
    let request = test_request("jitpw-api.lab.example.mil");
    assert!(decode_and_validate_csr(&request, &test_policy()).is_ok());
}

#[test]
fn request_outside_dns_boundary_fails_closed() {
    let request = test_request("attacker.example.net");
    let error = decode_and_validate_csr(&request, &test_policy()).unwrap_err();
    assert!(matches!(error, IssuerError::Policy(_)));
}

#[test]
fn p256_public_key_is_rejected() {
    let request = test_request_with(
        Some("jitpw-api.lab.example.mil"),
        "jitpw-api.lab.example.mil",
        &PKCS_ECDSA_P256_SHA256,
    );
    let error = decode_and_validate_csr(&request, &test_policy()).unwrap_err();
    assert!(error.message().contains("P-384 public keys"));
}

#[test]
fn common_name_must_match_a_dns_san() {
    let request = test_request_with(
        Some("attacker.example.net"),
        "jitpw-api.lab.example.mil",
        &PKCS_ECDSA_P384_SHA384,
    );
    let error = decode_and_validate_csr(&request, &test_policy()).unwrap_err();
    assert!(error.message().contains("must match a DNS"));
}

#[test]
fn ready_status_preserves_approval_conditions() {
    let mut request = test_request("jitpw-api.lab.example.mil");
    request.status = Some(CertificateRequestStatus {
        certificate: None,
        conditions: Some(vec![StatusCondition {
            type_: "Approved".to_string(),
            status: "True".to_string(),
            reason: "cert-manager.io".to_string(),
            message: "Approved by policy".to_string(),
            last_transition_time: "2026-01-01T00:00:00Z".to_string(),
            observed_generation: None,
        }]),
    });
    let conditions = status_conditions(&request, "True", "Issued", "2026-01-02T00:00:00Z".to_string());

    assert!(
        conditions
            .iter()
            .any(|condition| condition.type_ == "Approved" && condition.status == "True")
    );
    assert!(
        conditions
            .iter()
            .any(|condition| condition.type_ == "Ready" && condition.status == "True")
    );
}
