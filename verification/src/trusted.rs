//! Calls into outside crates and std functions that vstd does not specify.
//! Each contract here is believed, not proved.
use vstd::prelude::*;
use vstd::utf8::{decode_utf8, valid_utf8};

use base64::Engine;
use usg_est_client::{EstClientConfig, EstClientConfigBuilder};

use crate::est::{EstConfig, EstConfigBuilder, EstSettings};
use x509_parser::certification_request::X509CertificationRequest;
use x509_parser::extensions::{GeneralName, ParsedExtension};
use x509_parser::prelude::FromDer;

use crate::csr::{
    extensions_view, optional_strings_view, ExtensionView, GeneralNameEntry, RequestedExtension,
};
use crate::duration::NANOS_PER_SEC;
use crate::duration_text::{single_term, terms, terms_bounded};

verus! {

/// The EST client's configuration builder (`usg_est_client`), opaque here.
#[verifier::external_type_specification]
#[verifier::external_body]
pub struct ExEstClientConfigBuilder(EstClientConfigBuilder);

/// The EST client's configuration (`usg_est_client`), opaque here.
#[verifier::external_type_specification]
#[verifier::external_body]
pub struct ExEstClientConfig(EstClientConfig);

/// What `EstClientConfigBuilder::server_url` makes of a URL: `Ok` where it
/// accepts it, else the text of its `url::ParseError`.
pub uninterp spec fn est_url_verdict(url: Seq<char>) -> Result<(), Seq<char>>;

/// What the standard (padded) base64 decoder of the `base64` crate makes of
/// the given bytes: `None` where it reports an error.
pub uninterp spec fn base64_decoded(input: Seq<u8>) -> Option<Seq<u8>>;

/// What the standard (padded) base64 encoder of the `base64` crate makes of
/// the given bytes.
pub uninterp spec fn base64_encoded(input: Seq<u8>) -> Seq<char>;

/// The label and decoded contents of the first PEM block that
/// `x509_parser::pem::parse_x509_pem` finds in the given bytes.
pub uninterp spec fn pem_block(input: Seq<u8>) -> Option<(Seq<char>, Seq<u8>)>;

/// The number of bytes that follow a DER PKCS#10 request at the start of the
/// given bytes, as `X509CertificationRequest::from_der` reports it; `None`
/// where it reports an error.
pub uninterp spec fn csr_trailing_len(der: Seq<u8>) -> Option<nat>;

/// The subject public key algorithm OID of the PKCS#10 request in the given
/// bytes, in dotted form, and the algorithm parameters read as an OID, if
/// they are one.
pub uninterp spec fn csr_key_algorithm(der: Seq<u8>) -> Option<(Seq<char>, Option<Seq<char>>)>;

/// The signature algorithm OID of the PKCS#10 request in the given bytes, in
/// dotted form.
pub uninterp spec fn csr_signature_algorithm(der: Seq<u8>) -> Option<Seq<char>>;

/// The extensions that the PKCS#10 request in the given bytes asks for, in
/// order; the inner `None` where it holds no extension request attribute.
pub uninterp spec fn csr_requested_extensions(der: Seq<u8>) -> Option<Option<Seq<ExtensionView>>>;

/// The common name attributes of the subject of the PKCS#10 request in the
/// given bytes, in order, each `None` where it is not a UTF-8 string.
pub uninterp spec fn csr_common_names(der: Seq<u8>) -> Option<Seq<Option<Seq<char>>>>;

/// What `humantime::parse_duration` makes of the given text, as whole seconds
/// and sub-second nanoseconds.
pub uninterp spec fn humantime_duration(text: Seq<char>) -> Option<(u64, u32)>;

/// What Rust's `Debug` formatting of a `str` (`{:?}`) writes for the text:
/// the text quoted, with special characters escaped.
pub uninterp spec fn str_debug(text: Seq<char>) -> Seq<char>;

/// What `der::pem::encode_string` makes of the given DER bytes with the label
/// `CERTIFICATE` and LF line endings.
pub uninterp spec fn certificate_pem(der: Seq<u8>) -> Option<Seq<char>>;

/// Calls `Engine::decode` of `base64::engine::general_purpose::STANDARD`.
/// Claimed: the result is [`base64_decoded`] of the input, `None` where the
/// decoder reports an error.
#[verifier::external_body]
pub(crate) fn base64_decode(input: &[u8]) -> (r: Option<Vec<u8>>)
    ensures
        r matches Some(v) ==> base64_decoded(input@) == Some(v@),
        r is None <==> base64_decoded(input@) is None,
{
    base64::engine::general_purpose::STANDARD.decode(input).ok()
}

/// Calls `Engine::encode` of `base64::engine::general_purpose::STANDARD`.
/// Claimed: the result is [`base64_encoded`] of the input. The encoder panics
/// where the output length overflows `usize`; `requires` leaves that out.
#[verifier::external_body]
pub(crate) fn base64_encode(input: &[u8]) -> (r: String)
    requires
        input@.len() / 3 * 4 + 4 <= usize::MAX,
    ensures
        r@ == base64_encoded(input@),
{
    base64::engine::general_purpose::STANDARD.encode(input)
}

/// Calls `x509_parser::pem::parse_x509_pem`. Claimed: the label and contents
/// returned are [`pem_block`] of the input, `None` where it reports an error.
#[verifier::external_body]
pub(crate) fn parse_pem(input: &[u8]) -> (r: Option<(String, Vec<u8>)>)
    ensures
        r matches Some((label, contents)) ==> pem_block(input@) == Some((label@, contents@)),
        r is None <==> pem_block(input@) is None,
{
    x509_parser::pem::parse_x509_pem(input).ok().map(|(_, pem)| (pem.label, pem.contents))
}

/// Calls `X509CertificationRequest::from_der`. Claimed: the length of the
/// unparsed rest is [`csr_trailing_len`] of the input, `None` where parsing
/// fails.
#[verifier::external_body]
pub(crate) fn csr_trailing_bytes(der: &[u8]) -> (r: Option<usize>)
    ensures
        r matches Some(n) ==> csr_trailing_len(der@) == Some(n as nat),
        r is None <==> csr_trailing_len(der@) is None,
{
    X509CertificationRequest::from_der(der).ok().map(|(rest, _)| rest.len())
}

/// Calls `X509CertificationRequest::from_der`, then `Oid::to_id_string` on
/// the subject public key algorithm and on its parameters read by
/// `Any::as_oid`. Claimed: the pair is [`csr_key_algorithm`] of the input,
/// `None` where parsing fails.
#[verifier::external_body]
pub(crate) fn csr_public_key_algorithm(der: &[u8]) -> (r: Option<(String, Option<String>)>)
    ensures
        r is None <==> csr_key_algorithm(der@) is None,
        r matches Some((alg, curve)) ==> csr_key_algorithm(der@) == Some(
            (alg@, match curve { Some(c) => Some(c@), None => None }),
        ),
{
    X509CertificationRequest::from_der(der).ok().map(|(_, csr)| {
        let algorithm = &csr.certification_request_info.subject_pki.algorithm;
        let curve = algorithm.parameters.as_ref().and_then(|p| p.as_oid().ok());
        (algorithm.algorithm.to_id_string(), curve.map(|oid| oid.to_id_string()))
    })
}

/// Calls `X509CertificationRequest::from_der`, then `Oid::to_id_string` on
/// the signature algorithm. Claimed: the text is [`csr_signature_algorithm`]
/// of the input, `None` where parsing fails.
#[verifier::external_body]
pub(crate) fn csr_signature_oid(der: &[u8]) -> (r: Option<String>)
    ensures
        r is None <==> csr_signature_algorithm(der@) is None,
        r matches Some(s) ==> csr_signature_algorithm(der@) == Some(s@),
{
    X509CertificationRequest::from_der(der).ok().map(
        |(_, csr)| csr.signature_algorithm.algorithm.to_id_string(),
    )
}

/// Calls `X509CertificationRequest::from_der`, then `requested_extensions`;
/// each extension is converted one for one, keeping the DNS names of subject
/// alternative name extensions. Claimed: the list is
/// [`csr_requested_extensions`] of the input, `None` where parsing fails.
#[verifier::external_body]
pub(crate) fn csr_extensions(der: &[u8]) -> (r: Option<Option<Vec<RequestedExtension>>>)
    ensures
        r is None <==> csr_requested_extensions(der@) is None,
        r matches Some(e) ==> csr_requested_extensions(der@) == Some(
            match e { Some(v) => Some(extensions_view(v@)), None => None },
        ),
{
    X509CertificationRequest::from_der(der).ok().map(|(_, csr)| csr.requested_extensions().map(
        |extensions| extensions.map(|extension| match extension {
            ParsedExtension::SubjectAlternativeName(san) => RequestedExtension::SubjectAltName(
                san.general_names.iter().map(|name| match name {
                    GeneralName::DNSName(dns) => GeneralNameEntry::Dns(dns.to_string()),
                    _ => GeneralNameEntry::Other,
                }).collect(),
            ),
            _ => RequestedExtension::Other,
        }).collect(),
    ))
}

/// Calls `X509CertificationRequest::from_der`, then `X509Name::iter_common_name`
/// on the subject, each value through `AttributeTypeAndValue::as_str`.
/// Claimed: the list is [`csr_common_names`] of the input, `None` where
/// parsing fails.
#[verifier::external_body]
pub(crate) fn csr_subject_common_names(der: &[u8]) -> (r: Option<Vec<Option<String>>>)
    ensures
        r is None <==> csr_common_names(der@) is None,
        r matches Some(v) ==> csr_common_names(der@) == Some(optional_strings_view(v@)),
{
    X509CertificationRequest::from_der(der).ok().map(|(_, csr)| csr.certification_request_info
        .subject.iter_common_name().map(|cn| cn.as_str().ok().map(|s| s.to_string())).collect())
}

/// Calls `humantime::parse_duration` on the text. Claimed: the seconds and
/// nanoseconds are [`humantime_duration`] of the text, and the nanoseconds
/// (from `Duration::subsec_nanos`) are below one billion.
///
/// The parser panics in one place: `add_current` calls `Duration::new` with a
/// nanosecond count of exactly one billion when the seconds reach `u64::MAX`,
/// that is when a running total reaches exactly 2^64 seconds. A term is a
/// number with a unit; the running totals are sums of whole terms' parts.
/// `requires` admits a text of at most one term (no digit after a unit
/// character), whose total starts from zero and whose two parts cannot meet
/// that case, or a text whose terms (the pieces ending in a unit, see
/// [`terms`]) each parse and sum to less than 2^64 seconds, so that no running
/// total reaches it.
#[verifier::external_body]
pub(crate) fn parse_duration(text: &Vec<char>) -> (r: Option<(u64, u32)>)
    requires
        single_term(text@) || terms_bounded(text@),
    ensures
        r == humantime_duration(text@),
        r matches Some((_, n)) ==> n < NANOS_PER_SEC,
{
    let text: String = text.iter().collect();
    humantime::parse_duration(&text).ok().map(|d| (d.as_secs(), d.subsec_nanos()))
}

/// Calls `der::pem::encode_string` with label `CERTIFICATE` and LF line
/// endings, which is what `EncodePem::to_pem` writes for an
/// `x509_cert::Certificate` of that DER encoding. Claimed: the text is
/// [`certificate_pem`] of the input, `None` where encoding fails.
#[verifier::external_body]
pub(crate) fn encode_certificate_pem(der: &[u8]) -> (r: Option<String>)
    ensures
        r matches Some(s) ==> certificate_pem(der@) == Some(s@),
        r is None <==> certificate_pem(der@) is None,
{
    der::pem::encode_string("CERTIFICATE", der::pem::LineEnding::LF, der).ok()
}

/// Formats a text with `format!("{text:?}")`, std's `Debug` for `str`.
/// Claimed: the result is [`str_debug`] of the text.
#[verifier::external_body]
pub(crate) fn debug_quoted(text: &str) -> (r: String)
    ensures
        r@ == str_debug(text@),
{
    format!("{text:?}")
}

/// Calls `String::from_utf8`. Claimed: it succeeds exactly on valid UTF-8,
/// and then holds the decoded characters.
#[verifier::external_body]
pub(crate) fn utf8_string(bytes: Vec<u8>) -> (r: Option<String>)
    ensures
        r is Some <==> valid_utf8(bytes@),
        r matches Some(s) ==> s@ == decode_utf8(bytes@),
{
    String::from_utf8(bytes).ok()
}

/// Calls `EstClientConfig::builder()` and then `server_url`, which parses the
/// URL and checks its scheme and host. Claimed: it succeeds exactly where
/// [`est_url_verdict`] of the URL is `Ok`, and otherwise fails with the text
/// of that verdict; the builder then holds that URL and nothing else (the
/// builder starts from its `Default`).
#[verifier::external_body]
pub(crate) fn est_config_for_url(url: &str) -> (r: Result<EstConfigBuilder, String>)
    ensures
        r is Ok <==> est_url_verdict(url@) is Ok,
        r matches Err(m) ==> (est_url_verdict(url@) matches Err(v) && v == m@),
        r matches Ok(b) ==> b@ == EstSettings::empty().with_server_url(url@),
{
    let settings = Ghost(EstSettings::empty().with_server_url(url@));
    match EstClientConfig::builder().server_url(url) {
        Ok(inner) => Ok(EstConfigBuilder { inner, settings }),
        Err(e) => Err(e.to_string()),
    }
}

/// Calls `EstClientConfigBuilder::trust_explicit` with the one CA given.
/// Claimed: the builder's trust anchors become exactly that CA, nothing else
/// changes.
#[verifier::external_body]
pub(crate) fn with_explicit_trust(builder: EstConfigBuilder, ca: Vec<u8>) -> (r: EstConfigBuilder)
    ensures
        r@ == builder@.with_trust_anchors(seq![ca@]),
{
    let settings = Ghost(builder@.with_trust_anchors(seq![ca@]));
    EstConfigBuilder { inner: builder.inner.trust_explicit(vec![ca]), settings }
}

/// Calls `EstClientConfigBuilder::verify_csr_signatures`. Claimed: CSR
/// signature checking is switched on, nothing else changes.
#[verifier::external_body]
pub(crate) fn with_csr_signature_check(builder: EstConfigBuilder) -> (r: EstConfigBuilder)
    ensures
        r@ == builder@.with_csr_signature_check(),
{
    let settings = Ghost(builder@.with_csr_signature_check());
    EstConfigBuilder { inner: builder.inner.verify_csr_signatures(), settings }
}

/// Calls `EstClientConfigBuilder::ca_label`. Claimed: the CA label becomes
/// the given one, nothing else changes.
#[verifier::external_body]
pub(crate) fn with_ca_label(builder: EstConfigBuilder, label: String) -> (r: EstConfigBuilder)
    ensures
        r@ == builder@.with_ca_label(label@),
{
    let settings = Ghost(builder@.with_ca_label(label@));
    EstConfigBuilder { inner: builder.inner.ca_label(label), settings }
}

/// Calls `EstClientConfigBuilder::http_auth`. Claimed: HTTP basic
/// authentication becomes the given username and password, nothing else
/// changes.
#[verifier::external_body]
pub(crate) fn with_http_auth(builder: EstConfigBuilder, username: String, password: String) -> (r: EstConfigBuilder)
    ensures
        r@ == builder@.with_http_auth(username@, password@),
{
    let settings = Ghost(builder@.with_http_auth(username@, password@));
    EstConfigBuilder { inner: builder.inner.http_auth(username, password), settings }
}

/// Calls `EstClientConfigBuilder::client_identity_pem`. Claimed: the TLS
/// client identity becomes the given certificate and key, nothing else
/// changes.
#[verifier::external_body]
pub(crate) fn with_client_identity(builder: EstConfigBuilder, certificate: Vec<u8>, key: Vec<u8>) -> (r: EstConfigBuilder)
    ensures
        r@ == builder@.with_client_identity(certificate@, key@),
{
    let settings = Ghost(builder@.with_client_identity(certificate@, key@));
    EstConfigBuilder { inner: builder.inner.client_identity_pem(certificate, key), settings }
}

/// Calls `EstClientConfigBuilder::build`. Claimed: it fails exactly where no
/// server URL was set, with the text `server_url is required`; otherwise the
/// configuration holds the builder's settings (with the Mozilla root store
/// where no trust anchors were set).
#[verifier::external_body]
pub(crate) fn build_est_config(builder: EstConfigBuilder) -> (r: Result<EstConfig, String>)
    ensures
        r is Ok <==> builder@.server_url is Some,
        r matches Ok(c) ==> c@ == builder@,
        r matches Err(m) ==> m@ == "server_url is required"@,
{
    let settings = Ghost(builder@);
    match builder.inner.build() {
        Ok(inner) => Ok(EstConfig { inner, settings }),
        Err(e) => Err(e.to_string()),
    }
}

} // verus!
