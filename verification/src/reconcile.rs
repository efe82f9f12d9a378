//! One reconciliation of a CertificateRequest as a state machine. The caller
//! performs each requested action (a Kubernetes read, the enrollment itself)
//! and feeds its result back as the next event; every decision is made here,
//! and the EST client's configuration is built here.
use vstd::prelude::*;
use vstd::utf8::{decode_utf8, valid_utf8};

use crate::api::{AuthenticationMethod, AuthenticationSpec, EstIssuerSpec};
use crate::duration::Duration;
use crate::enrollment::{chain_payload, ders_view, issued_certificate_payload};
use crate::error::{ErrorView, IssuerError};
use crate::gates::{
    approval_check, certificate_recorded, check_namespace, enforce_approval, is_complete,
    namespace_check, secret_bytes, secret_value, targets_issuer,
    targets_this_controller,
};
use crate::policy::{csr_verdict, decode_and_validate_csr};
use crate::request::{CertificateRequest, Secret};
use crate::status::{failure_report, report, report_for, Attempt, StatusReport};
use crate::text::chars_of;
use crate::est::{EstConfig, EstConfigBuilder, EstSettings};
use crate::trusted::{
    build_est_config, est_config_for_url, est_url_verdict, utf8_string, with_ca_label,
    with_client_identity, with_csr_signature_check, with_explicit_trust, with_http_auth,
};

verus! {

/// Credentials the issuer presents to the EST server.
pub enum Credentials {
    /// HTTP basic authentication inside TLS.
    Basic { username: String, password: String },
    /// A TLS client certificate and its private key, both PEM.
    MutualTls { certificate: Vec<u8>, key: Vec<u8> },
}

/// The mathematical value of [`Credentials`].
pub enum CredentialsView {
    Basic { username: Seq<char>, password: Seq<char> },
    MutualTls { certificate: Seq<u8>, key: Seq<u8> },
}

impl View for Credentials {
    type V = CredentialsView;

    open spec fn view(&self) -> CredentialsView {
        match self {
            Credentials::Basic { username, password } => CredentialsView::Basic {
                username: username@,
                password: password@,
            },
            Credentials::MutualTls { certificate, key } => CredentialsView::MutualTls {
                certificate: certificate@,
                key: key@,
            },
        }
    }
}

/// What the EST server answered.
pub enum Enrollment {
    /// The DER leaf certificate and any further DER certificates.
    Issued { certificate: Vec<u8>, intermediates: Vec<Vec<u8>> },
    /// Enrollment deferred for the given delay.
    Pending(Duration),
}

/// Work for the caller.
pub enum Action {
    /// Leave the request alone until it changes; write no status.
    Ignore,
    /// Read the `EstIssuer` named `name` in `namespace`.
    FetchIssuer { namespace: String, name: String },
    /// Read the Secret named `name` in `namespace`.
    FetchSecret { namespace: String, name: String },
    /// Start the EST client with the configuration and submit the validated
    /// DER PKCS#10 request.
    Enroll { config: EstConfig, csr_der: Vec<u8> },
    /// Emit the audit event and write the status; the reconciliation is over.
    Report(StatusReport),
}

/// The result of the last action.
pub enum Event {
    /// No action has run yet.
    Start,
    IssuerFetched(Result<EstIssuerSpec, IssuerError>),
    SecretFetched(Result<Secret, IssuerError>),
    Enrolled(Result<Enrollment, IssuerError>),
}

/// Where a reconciliation stands.
pub enum Phase {
    Start,
    AwaitingIssuer,
    AwaitingTrust { issuer: EstIssuerSpec, csr: Vec<u8> },
    /// The EST client configuration holds the server URL, the explicit trust
    /// anchor and the CA label, and checks CSR signatures.
    AwaitingCredentials { issuer: EstIssuerSpec, csr: Vec<u8>, builder: EstConfigBuilder },
    AwaitingEnrollment,
    Done,
}

/// The event is the one the phase waits for.
pub open spec fn accepts(phase: Phase, event: Event) -> bool {
    match phase {
        Phase::Start => event is Start,
        Phase::AwaitingIssuer => event is IssuerFetched,
        Phase::AwaitingTrust { .. } => event is SecretFetched,
        Phase::AwaitingCredentials { .. } => event is SecretFetched,
        Phase::AwaitingEnrollment => event is Enrolled,
        Phase::Done => false,
    }
}

/// A Secret in the event holds each key once.
pub open spec fn event_well_formed(event: Event) -> bool {
    event matches Event::SecretFetched(Ok(s)) ==> s.well_formed()
}

/// The event is the result of the action.
pub open spec fn answers(action: Action, event: Event) -> bool {
    match action {
        Action::FetchIssuer { .. } => event is IssuerFetched,
        Action::FetchSecret { .. } => event is SecretFetched,
        Action::Enroll { .. } => event is Enrolled,
        _ => false,
    }
}

/// The view of an optional text.
pub open spec fn opt_text(o: Option<String>) -> Option<Seq<char>> {
    match o {
        Some(t) => Some(t@),
        None => None,
    }
}

/// The EST client settings before authentication: the issuer's server URL
/// and CA label, the one trust anchor `ca`, CSR signatures checked.
pub open spec fn base_settings(issuer: EstIssuerSpec, ca: Seq<u8>) -> EstSettings {
    EstSettings {
        server_url: Some(issuer.server_url@),
        ca_label: opt_text(issuer.ca_label),
        trust_anchors: Some(seq![ca]),
        verify_csr_signatures: true,
        http_auth: None,
        client_identity: None,
    }
}

/// The settings with the credentials added.
pub open spec fn with_credentials(settings: EstSettings, credentials: CredentialsView) -> EstSettings {
    match credentials {
        CredentialsView::Basic { username, password } => settings.with_http_auth(username, password),
        CredentialsView::MutualTls { certificate, key } => settings.with_client_identity(certificate, key),
    }
}

/// Trust is explicit: exactly one non-empty trust anchor, no root store.
pub open spec fn explicit_trust(settings: EstSettings) -> bool {
    settings.trust_anchors matches Some(t) && t.len() == 1 && t[0].len() > 0
}

/// The URL uses the `https://` scheme.
pub open spec fn https_url(url: Seq<char>) -> bool {
    "https://"@.len() <= url.len() && url.take("https://"@.len() as int) == "https://"@
}

/// Authentication settings must be consistent with their method.
pub open spec fn credential_check(auth: AuthenticationSpec) -> Result<(), ErrorView> {
    match auth.method {
        AuthenticationMethod::Basic => if !(auth.username matches Some(u) && u@.len() > 0) {
            Err(ErrorView::Configuration("Basic authentication requires a non-empty username"@))
        } else if auth.secret_name@.len() == 0 {
            Err(ErrorView::Configuration("Basic authentication secret name must not be empty"@))
        } else {
            Ok(())
        },
        AuthenticationMethod::MutualTls => if auth.username is Some {
            Err(ErrorView::Configuration("mTLS authentication must not specify a username"@))
        } else if auth.secret_name@.len() == 0 {
            Err(ErrorView::Configuration("mTLS authentication secret name must not be empty"@))
        } else {
            Ok(())
        },
    }
}

/// The credentials read from the authentication Secret.
pub open spec fn credential_values(auth: AuthenticationSpec, secret: Secret) -> Result<CredentialsView, ErrorView> {
    match auth.method {
        AuthenticationMethod::Basic => match secret_value(secret, "password"@) {
            Err(e) => Err(e),
            Ok(p) => if !valid_utf8(p) {
                Err(ErrorView::Secret("password is not valid UTF-8"@))
            } else {
                Ok(
                    CredentialsView::Basic {
                        username: match auth.username {
                            Some(u) => u@,
                            None => Seq::empty(),
                        },
                        password: decode_utf8(p),
                    },
                )
            },
        },
        AuthenticationMethod::MutualTls => match secret_value(secret, "tls.crt"@) {
            Err(e) => Err(e),
            Ok(c) => match secret_value(secret, "tls.key"@) {
                Err(e) => Err(e),
                Ok(k) => Ok(CredentialsView::MutualTls { certificate: c, key: k }),
            },
        },
    }
}

/// The request is addressed to this issuer, not yet complete, approved and
/// not denied, and lives in the watched namespace.
pub open spec fn admitted(request: CertificateRequest, watched: Seq<char>) -> bool {
    &&& targets_issuer(request)
    &&& !certificate_recorded(request)
    &&& approval_check(request) is Ok
    &&& namespace_check(request, watched) is Ok
}

/// What holds of the request in each phase: every gate behind it was passed.
pub open spec fn phase_ok(request: CertificateRequest, watched: Seq<char>, phase: Phase) -> bool {
    match phase {
        Phase::AwaitingIssuer => admitted(request, watched),
        Phase::AwaitingTrust { issuer, csr } => {
            &&& admitted(request, watched)
            &&& csr_verdict(request, issuer.policy) == Ok::<Seq<u8>, ErrorView>(csr@)
            &&& https_url(issuer.server_url@)
        },
        Phase::AwaitingCredentials { issuer, csr, builder } => {
            &&& admitted(request, watched)
            &&& csr_verdict(request, issuer.policy) == Ok::<Seq<u8>, ErrorView>(csr@)
            &&& https_url(issuer.server_url@)
            &&& est_url_verdict(issuer.server_url@) is Ok
            &&& credential_check(issuer.authentication) is Ok
            &&& explicit_trust(builder@)
            &&& builder@ == base_settings(issuer, builder@.trust_anchors->0[0])
        },
        _ => true,
    }
}

/// The reconciliation ends with a failure report for the given error.
pub open spec fn fails_with(next: (Phase, Action), e: ErrorView) -> bool {
    &&& next.0 is Done
    &&& next.1 matches Action::Report(r) && failure_report(r, e)
}

/// The CSR is submitted for enrollment with an EST client configured with
/// the given settings.
pub open spec fn enrolls(next: (Phase, Action), csr: Vec<u8>, settings: EstSettings) -> bool {
    &&& next.0 is AwaitingEnrollment
    &&& next.1 matches Action::Enroll { config, csr_der }
    &&& csr_der == csr
    &&& config@ == settings
}

/// The first step: requests for other issuers, and requests that already
/// hold a certificate, are left alone; then the approval and namespace gates.
pub open spec fn start_step(request: CertificateRequest, watched: Seq<char>, next: (Phase, Action)) -> bool {
    if !targets_issuer(request) || certificate_recorded(request) {
        next.0 is Done && next.1 is Ignore
    } else if approval_check(request) is Err {
        fails_with(next, approval_check(request)->Err_0)
    } else if namespace_check(request, watched) is Err {
        fails_with(next, namespace_check(request, watched)->Err_0)
    } else {
        &&& next.0 is AwaitingIssuer
        &&& next.1 matches Action::FetchIssuer { namespace, name }
        &&& namespace@ == watched
        &&& name@ == request.spec.issuer_ref.name@
    }
}

/// With the issuer read: the CSR policy gate, then the HTTPS rule.
pub open spec fn issuer_step(request: CertificateRequest, watched: Seq<char>, fetched: Result<EstIssuerSpec, IssuerError>, next: (Phase, Action)) -> bool {
    match fetched {
        Err(e) => fails_with(next, e@),
        Ok(issuer) => match csr_verdict(request, issuer.policy) {
            Err(e) => fails_with(next, e),
            Ok(csr) => if !https_url(issuer.server_url@) {
                fails_with(next, ErrorView::Configuration("EST server URL must use HTTPS"@))
            } else {
                &&& next.0 matches Phase::AwaitingTrust { issuer: i, csr: c }
                &&& i == issuer && c@ == csr
                &&& next.1 matches Action::FetchSecret { namespace, name }
                &&& namespace@ == watched
                &&& name@ == issuer.authentication.trust_secret_name@
            },
        },
    }
}

/// With the trust Secret read: its `ca.crt` through the Secret gate, the
/// EST client configuration's verdict on the server URL, then the
/// authentication settings.
pub open spec fn trust_step(watched: Seq<char>, issuer: EstIssuerSpec, csr: Vec<u8>, fetched: Result<Secret, IssuerError>, next: (Phase, Action)) -> bool {
    match fetched {
        Err(e) => fails_with(next, e@),
        Ok(secret) => match secret_value(secret, "ca.crt"@) {
            Err(e) => fails_with(next, e),
            Ok(ca) => match est_url_verdict(issuer.server_url@) {
                Err(m) => fails_with(next, ErrorView::Configuration(m)),
                Ok(_) => match credential_check(issuer.authentication) {
                    Err(e) => fails_with(next, e),
                    Ok(_) => {
                        &&& next.0 matches Phase::AwaitingCredentials { issuer: i, csr: c, builder: b }
                        &&& i == issuer && c == csr && b@ == base_settings(issuer, ca)
                        &&& next.1 matches Action::FetchSecret { namespace, name }
                        &&& namespace@ == watched
                        &&& name@ == issuer.authentication.secret_name@
                    },
                },
            },
        },
    }
}

/// With the authentication Secret read: the credentials through the Secret
/// gate, then the EST client configuration finished with them and enrollment
/// of the validated CSR. A configuration without a server URL cannot be
/// finished.
pub open spec fn credentials_step(issuer: EstIssuerSpec, csr: Vec<u8>, settings: EstSettings, fetched: Result<Secret, IssuerError>, next: (Phase, Action)) -> bool {
    match fetched {
        Err(e) => fails_with(next, e@),
        Ok(secret) => match credential_values(issuer.authentication, secret) {
            Err(e) => fails_with(next, e),
            Ok(credentials) => if settings.server_url is Some {
                enrolls(next, csr, with_credentials(settings, credentials))
            } else {
                fails_with(next, ErrorView::Configuration("server_url is required"@))
            },
        },
    }
}

/// With the EST server's answer: the final report.
pub open spec fn enrollment_step(answer: Result<Enrollment, IssuerError>, next: (Phase, Action)) -> bool {
    match answer {
        Err(e) => fails_with(next, e@),
        Ok(Enrollment::Pending(delay)) => {
            &&& next.0 is Done
            &&& next.1 matches Action::Report(r) && report_for(r, Attempt::Pending(delay))
        },
        Ok(Enrollment::Issued { certificate, intermediates }) => match chain_payload(certificate@, ders_view(intermediates@)) {
            Err(e) => fails_with(next, e),
            Ok(payload) => {
                &&& next.0 is Done
                &&& next.1 matches Action::Report(r)
                &&& r.audit_outcome@ == "success"@
                &&& r.ready_status@ == "True"@
                &&& r.reason@ == "Issued"@
                &&& r.certificate matches Some(c) && c@ == payload
                &&& r.requeue is None
                &&& r.error_message is None
            },
        },
    }
}

/// The transition of the state machine.
pub open spec fn transition(request: CertificateRequest, watched: Seq<char>, phase: Phase, event: Event, next: (Phase, Action)) -> bool {
    match phase {
        Phase::Start => start_step(request, watched, next),
        Phase::AwaitingIssuer => match event {
            Event::IssuerFetched(r) => issuer_step(request, watched, r, next),
            _ => false,
        },
        Phase::AwaitingTrust { issuer, csr } => match event {
            Event::SecretFetched(r) => trust_step(watched, issuer, csr, r, next),
            _ => false,
        },
        Phase::AwaitingCredentials { issuer, csr, builder } => match event {
            Event::SecretFetched(r) => credentials_step(issuer, csr, builder@, r, next),
            _ => false,
        },
        Phase::AwaitingEnrollment => match event {
            Event::Enrolled(r) => enrollment_step(r, next),
            _ => false,
        },
        Phase::Done => false,
    }
}

fn fail(error: IssuerError) -> (next: (Phase, Action))
    ensures
        fails_with(next, error@),
{
    (Phase::Done, Action::Report(report(Attempt::Failed(error))))
}

fn on_start(request: &CertificateRequest, watched: &str) -> (next: (Phase, Action))
    ensures
        start_step(*request, watched@, next),
{
    if !targets_this_controller(request) || is_complete(request) {
        return (Phase::Done, Action::Ignore);
    }
    if let Err(e) = enforce_approval(request) {
        return fail(e);
    }
    if let Err(e) = check_namespace(request, watched) {
        return fail(e);
    }
    (
        Phase::AwaitingIssuer,
        Action::FetchIssuer {
            namespace: String::from_str(watched),
            name: request.spec.issuer_ref.name.clone(),
        },
    )
}

fn starts_with_https(url: &str) -> (r: bool)
    ensures
        r == https_url(url@),
{
    let text = chars_of(url);
    let scheme = chars_of("https://");
    if scheme.len() > text.len() {
        return false;
    }
    for i in 0..scheme.len()
        invariant
            scheme@.len() <= text@.len(),
            text@ == url@,
            scheme@ == "https://"@,
            forall|j: int| 0 <= j < i ==> text@[j] == scheme@[j],
    {
        if text[i] != scheme[i] {
            assert(text@.take(scheme@.len() as int)[i as int] != scheme@[i as int]);
            return false;
        }
    }
    assert(text@.take(scheme@.len() as int) == scheme@);
    true
}

fn on_issuer(request: &CertificateRequest, watched: &str, fetched: Result<EstIssuerSpec, IssuerError>) -> (next: (Phase, Action))
    ensures
        issuer_step(*request, watched@, fetched, next),
{
    let issuer = match fetched {
        Err(e) => return fail(e),
        Ok(i) => i,
    };
    let csr = match decode_and_validate_csr(request, &issuer.policy) {
        Err(e) => return fail(e),
        Ok(c) => c,
    };
    if !starts_with_https(issuer.server_url.as_str()) {
        return fail(IssuerError::Configuration(String::from_str("EST server URL must use HTTPS")));
    }
    let name = issuer.authentication.trust_secret_name.clone();
    let namespace = String::from_str(watched);
    (Phase::AwaitingTrust { issuer, csr }, Action::FetchSecret { namespace, name })
}

fn on_trust(watched: &str, issuer: EstIssuerSpec, csr: Vec<u8>, fetched: Result<Secret, IssuerError>) -> (next: (Phase, Action))
    requires
        fetched matches Ok(s) ==> s.well_formed(),
    ensures
        trust_step(watched@, issuer, csr, fetched, next),
{
    let secret = match fetched {
        Err(e) => return fail(e),
        Ok(s) => s,
    };
    let ca = match secret_bytes(&secret, "ca.crt") {
        Err(e) => return fail(e),
        Ok(t) => t,
    };
    let builder = match est_config_for_url(issuer.server_url.as_str()) {
        Err(m) => return fail(IssuerError::Configuration(m)),
        Ok(b) => b,
    };
    let builder = with_csr_signature_check(with_explicit_trust(builder, ca));
    let builder = match &issuer.ca_label {
        Some(label) => with_ca_label(builder, label.clone()),
        None => builder,
    };
    if let Err(e) = check_credentials(&issuer.authentication) {
        return fail(e);
    }
    let name = issuer.authentication.secret_name.clone();
    let namespace = String::from_str(watched);
    (
        Phase::AwaitingCredentials { issuer, csr, builder },
        Action::FetchSecret { namespace, name },
    )
}

fn check_credentials(auth: &AuthenticationSpec) -> (r: Result<(), IssuerError>)
    ensures
        crate::policy::agrees(r, credential_check(*auth)),
{
    match auth.method {
        AuthenticationMethod::Basic => {
            let named = match &auth.username {
                Some(u) => !u.as_str().is_empty(),
                None => false,
            };
            if !named {
                return Err(IssuerError::Configuration(
                    String::from_str("Basic authentication requires a non-empty username"),
                ));
            }
            if auth.secret_name.as_str().is_empty() {
                return Err(IssuerError::Configuration(
                    String::from_str("Basic authentication secret name must not be empty"),
                ));
            }
            Ok(())
        },
        AuthenticationMethod::MutualTls => {
            if auth.username.is_some() {
                return Err(IssuerError::Configuration(
                    String::from_str("mTLS authentication must not specify a username"),
                ));
            }
            if auth.secret_name.as_str().is_empty() {
                return Err(IssuerError::Configuration(
                    String::from_str("mTLS authentication secret name must not be empty"),
                ));
            }
            Ok(())
        },
    }
}

fn read_credentials(auth: &AuthenticationSpec, secret: &Secret) -> (r: Result<Credentials, IssuerError>)
    requires
        secret.well_formed(),
    ensures
        match r {
            Ok(c) => credential_values(*auth, *secret) == Ok::<CredentialsView, ErrorView>(c@),
            Err(e) => credential_values(*auth, *secret) == Err::<CredentialsView, ErrorView>(e@),
        },
{
    match auth.method {
        AuthenticationMethod::Basic => {
            let bytes = secret_bytes(secret, "password")?;
            let password = match utf8_string(bytes) {
                None => return Err(IssuerError::Secret(String::from_str("password is not valid UTF-8"))),
                Some(p) => p,
            };
            let username = match &auth.username {
                Some(u) => u.clone(),
                None => String::new(),
            };
            Ok(Credentials::Basic { username, password })
        },
        AuthenticationMethod::MutualTls => {
            let certificate = secret_bytes(secret, "tls.crt")?;
            let key = secret_bytes(secret, "tls.key")?;
            Ok(Credentials::MutualTls { certificate, key })
        },
    }
}

fn on_credentials(issuer: EstIssuerSpec, csr: Vec<u8>, builder: EstConfigBuilder, fetched: Result<Secret, IssuerError>) -> (next: (Phase, Action))
    requires
        fetched matches Ok(s) ==> s.well_formed(),
    ensures
        credentials_step(issuer, csr, builder@, fetched, next),
{
    let secret = match fetched {
        Err(e) => return fail(e),
        Ok(s) => s,
    };
    let credentials = match read_credentials(&issuer.authentication, &secret) {
        Err(e) => return fail(e),
        Ok(c) => c,
    };
    let builder = match credentials {
        Credentials::Basic { username, password } => with_http_auth(builder, username, password),
        Credentials::MutualTls { certificate, key } => with_client_identity(builder, certificate, key),
    };
    match build_est_config(builder) {
        Err(m) => fail(IssuerError::Configuration(m)),
        Ok(config) => (Phase::AwaitingEnrollment, Action::Enroll { config, csr_der: csr }),
    }
}

fn on_enrollment(answer: Result<Enrollment, IssuerError>) -> (next: (Phase, Action))
    ensures
        enrollment_step(answer, next),
{
    match answer {
        Err(e) => fail(e),
        Ok(Enrollment::Pending(delay)) => (Phase::Done, Action::Report(report(Attempt::Pending(delay)))),
        Ok(Enrollment::Issued { certificate, intermediates }) => {
            match issued_certificate_payload(&certificate, &intermediates) {
                Err(e) => fail(e),
                Ok(payload) => (
                    Phase::Done,
                    Action::Report(report(Attempt::Issued { certificate: Some(payload) })),
                ),
            }
        },
    }
}

/// Advances one reconciliation by one event. No `Enroll` action is ever
/// issued unless the request is addressed to this issuer, not complete,
/// approved and not denied, in the watched namespace, its CSR passes the
/// issuer's policy, the server URL is HTTPS and accepted by the EST client
/// configuration, the trust anchor and the credentials came through the
/// Secret gate; the EST client it asks to start is configured with the
/// issuer's URL and CA label, the trust Secret's `ca.crt` as its only trust
/// anchor, CSR signature checking and the credentials read. The result of
/// each action it asks for is an event that the next phase accepts. A Secret
/// handed in holds each key once, as a Kubernetes Secret does.
pub fn step(request: &CertificateRequest, watched: &str, phase: Phase, event: Event) -> (next: (Phase, Action))
    requires
        accepts(phase, event),
        event_well_formed(event),
    ensures
        transition(*request, watched@, phase, event, next),
        phase_ok(*request, watched@, phase) ==> phase_ok(*request, watched@, next.0),
        forall|e: Event| #[trigger] answers(next.1, e) ==> accepts(next.0, e),
{
    match phase {
        Phase::Start => on_start(request, watched),
        Phase::AwaitingIssuer => match event {
            Event::IssuerFetched(r) => on_issuer(request, watched, r),
            _ => (Phase::Done, Action::Ignore),
        },
        Phase::AwaitingTrust { issuer, csr } => match event {
            Event::SecretFetched(r) => on_trust(watched, issuer, csr, r),
            _ => (Phase::Done, Action::Ignore),
        },
        Phase::AwaitingCredentials { issuer, csr, builder } => match event {
            Event::SecretFetched(r) => on_credentials(issuer, csr, builder, r),
            _ => (Phase::Done, Action::Ignore),
        },
        Phase::AwaitingEnrollment => match event {
            Event::Enrolled(r) => on_enrollment(r),
            _ => (Phase::Done, Action::Ignore),
        },
        Phase::Done => (Phase::Done, Action::Ignore),
    }
}

/// Every gate was passed for the request whose CSR is submitted, and the EST
/// client is configured for the issuer's HTTPS server, with explicit trust
/// only, its CA label, and CSR signatures checked.
pub open spec fn enrollment_authorized(request: CertificateRequest, watched: Seq<char>, phase: Phase, csr_der: Seq<u8>, config: EstSettings) -> bool {
    &&& admitted(request, watched)
    &&& phase matches Phase::AwaitingCredentials { issuer, .. }
    &&& csr_verdict(request, issuer.policy) == Ok::<Seq<u8>, ErrorView>(csr_der)
    &&& https_url(issuer.server_url@)
    &&& est_url_verdict(issuer.server_url@) is Ok
    &&& credential_check(issuer.authentication) is Ok
    &&& config.server_url == Some(issuer.server_url@)
    &&& config.ca_label == opt_text(issuer.ca_label)
    &&& explicit_trust(config)
    &&& config.verify_csr_signatures
}

/// Fail-closed enrollment: a transition that asks for enrollment does so only
/// for a request that is addressed to this issuer, not complete, approved and
/// not denied, in the watched namespace, whose CSR passed the issuer's policy
/// (and it submits exactly that CSR), towards an HTTPS server whose URL the
/// EST client configuration accepted, with a non-empty trust anchor and
/// consistent authentication settings.
pub proof fn law_enrollment_only_after_all_gates(
    request: CertificateRequest,
    watched: Seq<char>,
    phase: Phase,
    event: Event,
    next: (Phase, Action),
)
    requires
        phase_ok(request, watched, phase),
        transition(request, watched, phase, event, next),
        next.1 is Enroll,
    ensures
        next.1 matches Action::Enroll { config, csr_der } && enrollment_authorized(request, watched, phase, csr_der@, config@),
{
}

/// Enrollment is owed: in a reconciliation that has passed every gate up to
/// the authentication Secret, credentials that pass the Secret gate lead to
/// enrollment of exactly the validated CSR.
pub proof fn law_passing_credentials_enroll(
    request: CertificateRequest,
    watched: Seq<char>,
    phase: Phase,
    secret: Secret,
    next: (Phase, Action),
)
    requires
        phase_ok(request, watched, phase),
        phase matches Phase::AwaitingCredentials { issuer, .. } && credential_values(issuer.authentication, secret) is Ok,
        transition(request, watched, phase, Event::SecretFetched(Ok(secret)), next),
    ensures
        next.1 matches Action::Enroll { csr_der, .. } && phase matches Phase::AwaitingCredentials { csr, .. } && csr_der == csr,
        next.0 is AwaitingEnrollment,
{
}

/// Explicit trust: an enrollment that follows the trust Secret `trust` and the
/// authentication Secret `auth` configures the EST client with the `ca.crt`
/// of `trust` as its one trust anchor (no root store), the issuer's server
/// URL and CA label, CSR signature checking, and the credentials read from
/// `auth`; and it submits the CSR validated before.
pub proof fn law_enrollment_uses_the_secrets(
    request: CertificateRequest,
    watched: Seq<char>,
    issuer: EstIssuerSpec,
    csr: Vec<u8>,
    trust: Secret,
    auth: Secret,
    middle: (Phase, Action),
    next: (Phase, Action),
)
    requires
        transition(request, watched, Phase::AwaitingTrust { issuer, csr }, Event::SecretFetched(Ok(trust)), middle),
        transition(request, watched, middle.0, Event::SecretFetched(Ok(auth)), next),
        next.1 is Enroll,
    ensures
        secret_value(trust, "ca.crt"@) is Ok,
        credential_values(issuer.authentication, auth) is Ok,
        next.1 matches Action::Enroll { config, csr_der } && csr_der == csr && config@ == with_credentials(
            base_settings(issuer, secret_value(trust, "ca.crt"@)->Ok_0),
            credential_values(issuer.authentication, auth)->Ok_0,
        ),
        next.1 matches Action::Enroll { config, .. } && explicit_trust(config@),
{
}

/// Approval and policy are independent gates: a request that is not
/// approved, or denied, never reaches enrollment, whatever its CSR; and a
/// request whose CSR the issuer's policy refuses never reaches enrollment,
/// whatever its approval.
pub proof fn law_either_gate_denies(
    request: CertificateRequest,
    watched: Seq<char>,
    phase: Phase,
    event: Event,
    next: (Phase, Action),
)
    requires
        phase_ok(request, watched, phase),
        transition(request, watched, phase, event, next),
        approval_check(request) is Err || (phase matches Phase::AwaitingCredentials { issuer, .. } && csr_verdict(request, issuer.policy) is Err),
    ensures
        !(next.1 is Enroll),
{
}

/// A certificate is written to the status only from the EST server's answer
/// to an enrollment, and then with `Ready=True`.
pub proof fn law_certificate_only_from_enrollment(
    request: CertificateRequest,
    watched: Seq<char>,
    phase: Phase,
    event: Event,
    next: (Phase, Action),
)
    requires
        transition(request, watched, phase, event, next),
        next.1 matches Action::Report(r) && r.certificate is Some,
    ensures
        phase is AwaitingEnrollment,
        event matches Event::Enrolled(Ok(Enrollment::Issued { .. })),
        next.1->Report_0.ready_status@ == "True"@,
{
}

/// Requests for other issuers, and requests that already hold a
/// certificate, are left untouched: no status is written for them.
pub proof fn law_foreign_or_complete_requests_untouched(
    request: CertificateRequest,
    watched: Seq<char>,
    next: (Phase, Action),
)
    requires
        transition(request, watched, Phase::Start, Event::Start, next),
        !targets_issuer(request) || certificate_recorded(request),
    ensures
        next.1 is Ignore,
{
}

/// The position of a phase in a reconciliation.
pub open spec fn phase_rank(phase: Phase) -> nat {
    match phase {
        Phase::Start => 0,
        Phase::AwaitingIssuer => 1,
        Phase::AwaitingTrust { .. } => 2,
        Phase::AwaitingCredentials { .. } => 3,
        Phase::AwaitingEnrollment => 4,
        Phase::Done => 5,
    }
}

/// Every transition moves forward, so a reconciliation ends after at most five
/// actions; it ends with `Ignore` or `Report`, and only those end it.
pub proof fn law_reconciliation_progresses(
    request: CertificateRequest,
    watched: Seq<char>,
    phase: Phase,
    event: Event,
    next: (Phase, Action),
)
    requires
        transition(request, watched, phase, event, next),
    ensures
        phase_rank(next.0) > phase_rank(phase),
        next.0 is Done <==> (next.1 is Ignore || next.1 is Report),
{
}

/// The namespace boundary: every Kubernetes object the reconciliation reads
/// (the issuer, the trust Secret, the authentication Secret) is read from
/// the watched namespace.
pub proof fn law_reads_stay_in_watched_namespace(
    request: CertificateRequest,
    watched: Seq<char>,
    phase: Phase,
    event: Event,
    next: (Phase, Action),
)
    requires
        transition(request, watched, phase, event, next),
    ensures
        next.1 matches Action::FetchIssuer { namespace, .. } ==> namespace@ == watched,
        next.1 matches Action::FetchSecret { namespace, .. } ==> namespace@ == watched,
{
}

} // verus!
