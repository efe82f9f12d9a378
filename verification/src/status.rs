//! What the issuer writes back: status conditions, their messages, and the
//! outcome of one issuance attempt.
use vstd::prelude::*;

use crate::duration::{clamp_retry, Duration, NANOS_PER_SEC};
use crate::error::{ErrorView, IssuerError};
use crate::request::{CertificateRequest, StatusCondition};
use crate::text::same_text;

verus! {

/// The fixed, secret-free condition message for a reason code.
pub open spec fn condition_message(reason: Seq<char>) -> Seq<char> {
    if reason == "Issued"@ {
        "Certificate issued successfully"@
    } else if reason == "Pending"@ {
        "EST server deferred enrollment"@
    } else if reason == "NotApproved"@ {
        "CertificateRequest has not been approved"@
    } else if reason == "Denied"@ {
        "CertificateRequest was denied"@
    } else if reason == "PolicyDenied"@ {
        "CertificateRequest violates issuer policy"@
    } else if reason == "InvalidIssuer"@ {
        "Issuer configuration is invalid"@
    } else if reason == "InvalidSecret"@ {
        "Issuer credential or trust configuration is invalid"@
    } else if reason == "EstFailure"@ {
        "EST enrollment failed"@
    } else if reason == "KubernetesFailure"@ {
        "Kubernetes API operation failed"@
    } else {
        "Certificate issuance failed"@
    }
}

/// The condition message for a reason code. The message depends on the reason
/// code alone, so no internal error detail can reach a condition.
pub fn safe_condition_message(reason: &str) -> (r: &'static str)
    ensures
        r@ == condition_message(reason@),
{
    if same_text(reason, "Issued") {
        "Certificate issued successfully"
    } else if same_text(reason, "Pending") {
        "EST server deferred enrollment"
    } else if same_text(reason, "NotApproved") {
        "CertificateRequest has not been approved"
    } else if same_text(reason, "Denied") {
        "CertificateRequest was denied"
    } else if same_text(reason, "PolicyDenied") {
        "CertificateRequest violates issuer policy"
    } else if same_text(reason, "InvalidIssuer") {
        "Issuer configuration is invalid"
    } else if same_text(reason, "InvalidSecret") {
        "Issuer credential or trust configuration is invalid"
    } else if same_text(reason, "EstFailure") {
        "EST enrollment failed"
    } else if same_text(reason, "KubernetesFailure") {
        "Kubernetes API operation failed"
    } else {
        "Certificate issuance failed"
    }
}

/// The conditions of a request's status (none where it has no status or no
/// conditions).
pub open spec fn existing_conditions(request: CertificateRequest) -> Seq<StatusCondition> {
    match request.status {
        Some(s) => match s.conditions {
            Some(c) => c@,
            None => Seq::empty(),
        },
        None => Seq::empty(),
    }
}

/// The conditions whose type is not `Ready`, in order.
pub open spec fn non_ready(conditions: Seq<StatusCondition>) -> Seq<StatusCondition>
    decreases conditions.len(),
{
    if conditions.len() == 0 {
        Seq::empty()
    } else {
        let kept = non_ready(conditions.drop_last());
        if conditions.last().type_@ == "Ready"@ {
            kept
        } else {
            kept.push(conditions.last())
        }
    }
}

/// The `Ready` condition written for an attempt.
pub open spec fn is_ready_condition(
    c: StatusCondition,
    status: Seq<char>,
    reason: Seq<char>,
    now: Seq<char>,
    generation: Option<i64>,
) -> bool {
    &&& c.type_@ == "Ready"@
    &&& c.status@ == status
    &&& c.reason@ == reason
    &&& c.message@ == condition_message(reason)
    &&& c.last_transition_time@ == now
    &&& c.observed_generation == generation
}

/// The conditions to write: every existing condition other than `Ready`, in
/// order, followed by one new `Ready` condition stamped with `now`.
pub fn status_conditions(request: &CertificateRequest, status: &str, reason: &str, now: String) -> (r: Vec<StatusCondition>)
    ensures
        r@.len() == non_ready(existing_conditions(*request)).len() + 1,
        r@.drop_last() == non_ready(existing_conditions(*request)),
        is_ready_condition(r@.last(), status@, reason@, now@, request.metadata.generation),
{
    let ghost existing = existing_conditions(*request);
    let mut out: Vec<StatusCondition> = Vec::new();
    match &request.status {
        Some(s) => match &s.conditions {
            Some(conditions) => {
                assert(conditions@.take(0) == Seq::<StatusCondition>::empty());
                for i in 0..conditions.len()
                    invariant
                        existing == conditions@,
                        out@ == non_ready(conditions@.take(i as int)),
                {
                    assert(conditions@.take(i + 1).drop_last() == conditions@.take(i as int));
                    let c = &conditions[i];
                    if !same_text(c.type_.as_str(), "Ready") {
                        out.push(c.duplicate());
                    }
                }
                assert(conditions@.take(conditions.len() as int) == conditions@);
            },
            None => {},
        },
        None => {},
    }
    let ready = StatusCondition {
        type_: String::from_str("Ready"),
        status: String::from_str(status),
        reason: String::from_str(reason),
        message: String::from_str(safe_condition_message(reason)),
        last_transition_time: now,
        observed_generation: request.metadata.generation,
    };
    let ghost kept = out@;
    out.push(ready);
    assert(out@.drop_last() == kept);
    out
}

/// The result of one issuance attempt for a request.
#[derive(Debug)]
pub enum Attempt {
    /// A certificate was issued; `certificate` is the base64 of its PEM chain.
    Issued { certificate: Option<String> },
    /// The EST server deferred enrollment for the given delay.
    Pending(Duration),
    /// The attempt was refused or failed.
    Failed(IssuerError),
}

/// What to record for an attempt: the audit outcome, the `Ready` condition,
/// the certificate, and when to look at the request again (`None`: only when
/// it changes).
#[derive(Debug)]
pub struct StatusReport {
    pub audit_outcome: &'static str,
    pub ready_status: &'static str,
    pub reason: &'static str,
    pub certificate: Option<String>,
    pub requeue: Option<Duration>,
    /// For a failure, the full description of the error, for the operator
    /// log only; it is never written to the status.
    pub error_message: Option<String>,
}

/// The clamped requeue delay for a delay in nanoseconds.
pub open spec fn clamped(d: int) -> int {
    if d < 10 * NANOS_PER_SEC as int {
        10 * NANOS_PER_SEC as int
    } else if d > 3600 * NANOS_PER_SEC as int {
        3600 * NANOS_PER_SEC as int
    } else {
        d
    }
}

/// The report for an attempt that failed with the given error.
pub open spec fn failure_report(r: StatusReport, e: ErrorView) -> bool {
    &&& r.audit_outcome@ == "failure"@
    &&& r.ready_status@ == "False"@
    &&& r.reason@ == e.reason()
    &&& r.certificate is None
    &&& r.error_message matches Some(m) && m@ == e.message()
    &&& match e.retry_secs() {
        Some(s) => r.requeue matches Some(d) && d@ == clamped(s as int * NANOS_PER_SEC as int),
        None => r.requeue is None,
    }
}

/// The report for an attempt.
pub open spec fn report_for(r: StatusReport, attempt: Attempt) -> bool {
    match attempt {
        Attempt::Issued { certificate } => {
            &&& r.audit_outcome@ == "success"@
            &&& r.ready_status@ == "True"@
            &&& r.reason@ == "Issued"@
            &&& r.certificate == certificate
            &&& r.requeue is None
            &&& r.error_message is None
        },
        Attempt::Pending(delay) => {
            &&& r.audit_outcome@ == "pending"@
            &&& r.ready_status@ == "False"@
            &&& r.reason@ == "Pending"@
            &&& r.certificate is None
            &&& r.requeue matches Some(d) && d@ == clamped(delay@)
            &&& r.error_message is None
        },
        Attempt::Failed(e) => failure_report(r, e@),
    }
}

/// Decides what to record for an attempt: an issued certificate is recorded
/// with `Ready=True` and no requeue; a deferral with `Ready=False` and a
/// bounded requeue; a failure with `Ready=False`, its reason code, and a
/// bounded requeue only where the error is transient.
pub fn report(attempt: Attempt) -> (r: StatusReport)
    ensures
        report_for(r, attempt),
{
    match attempt {
        Attempt::Issued { certificate } => StatusReport {
            audit_outcome: "success",
            ready_status: "True",
            reason: "Issued",
            certificate,
            requeue: None,
            error_message: None,
        },
        Attempt::Pending(delay) => StatusReport {
            audit_outcome: "pending",
            ready_status: "False",
            reason: "Pending",
            certificate: None,
            requeue: Some(clamp_retry(delay)),
            error_message: None,
        },
        Attempt::Failed(error) => {
            let requeue = match error.retry_after() {
                Some(d) => Some(clamp_retry(d)),
                None => None,
            };
            StatusReport {
                audit_outcome: "failure",
                ready_status: "False",
                reason: error.reason(),
                certificate: None,
                requeue,
                error_message: Some(error.message()),
            }
        },
    }
}

/// The requeue delay after a reconciliation that failed before its status
/// could be written: the error's own delay, five minutes where it names none,
/// clamped to between ten seconds and one hour.
pub fn error_policy(error: &IssuerError) -> (r: Duration)
    ensures
        r@ == clamped(
            match error@.retry_secs() {
                Some(s) => s as int,
                None => 300,
            } * NANOS_PER_SEC as int,
        ),
{
    let delay = match error.retry_after() {
        Some(d) => d,
        None => Duration::from_secs(300),
    };
    clamp_retry(delay)
}

/// Requeue delays always lie between ten seconds and one hour.
pub proof fn law_requeue_delay_bounded(delay: int)
    ensures
        10 * NANOS_PER_SEC as int <= clamped(delay) <= 3600 * NANOS_PER_SEC as int,
        10 * NANOS_PER_SEC as int <= delay <= 3600 * NANOS_PER_SEC as int ==> clamped(delay) == delay,
{
}

/// Condition messages come from a fixed list, whatever the reason text, so
/// no internal error detail reaches a status condition.
pub proof fn law_condition_messages_are_fixed(reason: Seq<char>)
    ensures
        ({
            let m = condition_message(reason);
            ||| m == "Certificate issued successfully"@
            ||| m == "EST server deferred enrollment"@
            ||| m == "CertificateRequest has not been approved"@
            ||| m == "CertificateRequest was denied"@
            ||| m == "CertificateRequest violates issuer policy"@
            ||| m == "Issuer configuration is invalid"@
            ||| m == "Issuer credential or trust configuration is invalid"@
            ||| m == "EST enrollment failed"@
            ||| m == "Kubernetes API operation failed"@
            ||| m == "Certificate issuance failed"@
        }),
{
}

/// Writing the `Ready` condition keeps every other condition (such as
/// cert-manager's `Approved`), drops only earlier `Ready` conditions, and adds
/// nothing else.
pub proof fn law_status_keeps_other_conditions(conditions: Seq<StatusCondition>)
    ensures
        forall|i: int| 0 <= i < conditions.len() && (#[trigger] conditions[i]).type_@ != "Ready"@
            ==> non_ready(conditions).contains(conditions[i]),
        forall|c: StatusCondition| #[trigger] non_ready(conditions).contains(c)
            ==> c.type_@ != "Ready"@ && conditions.contains(c),
    decreases conditions.len(),
{
    if conditions.len() > 0 {
        let init = conditions.drop_last();
        law_status_keeps_other_conditions(init);
        let kept = non_ready(init);
        assert forall|i: int| 0 <= i < conditions.len() && (#[trigger] conditions[i]).type_@ != "Ready"@
            implies non_ready(conditions).contains(conditions[i]) by {
            if i < conditions.len() - 1 {
                assert(init[i] == conditions[i]);
                let j = choose|j: int| 0 <= j < kept.len() && kept[j] == init[i];
                if conditions.last().type_@ != "Ready"@ {
                    assert(kept.push(conditions.last())[j] == conditions[i]);
                }
            } else {
                assert(non_ready(conditions) == kept.push(conditions.last()));
                assert(kept.push(conditions.last())[kept.len() as int] == conditions[i]);
            }
        }
        assert forall|c: StatusCondition| #[trigger] non_ready(conditions).contains(c)
            implies c.type_@ != "Ready"@ && conditions.contains(c) by {
            if kept.contains(c) {
                let j = choose|j: int| 0 <= j < init.len() && init[j] == c;
                assert(conditions[j] == c);
            } else {
                assert(conditions.last().type_@ != "Ready"@);
                let j = choose|j: int| 0 <= j < kept.push(conditions.last()).len() && kept.push(conditions.last())[j] == c;
                assert(j == kept.len());
                assert(conditions[conditions.len() - 1] == c);
            }
        }
    }
}

/// Permanent failures (refusals, configuration, Secret and encoding errors,
/// and EST errors the client does not classify as transient) wait for a
/// change of the resource; transient ones are retried with a bounded delay.
pub proof fn law_only_transient_failures_requeue(r: StatusReport, e: ErrorView)
    requires
        failure_report(r, e),
    ensures
        r.requeue is Some <==> (e is Kubernetes || (e matches ErrorView::Est { retryable, .. } && retryable)),
        r.requeue matches Some(d) ==> 10 * NANOS_PER_SEC as int <= d@ <= 3600 * NANOS_PER_SEC as int,
        r.certificate is None,
        r.ready_status@ == "False"@,
{
}

proof fn lemma_non_ready_idempotent(conditions: Seq<StatusCondition>)
    ensures
        non_ready(non_ready(conditions)) == non_ready(conditions),
    decreases conditions.len(),
{
    if conditions.len() > 0 {
        lemma_non_ready_idempotent(conditions.drop_last());
        let kept = non_ready(conditions.drop_last());
        if conditions.last().type_@ != "Ready"@ {
            assert(kept.push(conditions.last()).drop_last() == kept);
        }
    }
}

/// Conditions do not pile up: writing a new `Ready` condition over a status
/// that this issuer already wrote keeps exactly the same other conditions.
pub proof fn law_ready_conditions_do_not_accumulate(conditions: Seq<StatusCondition>, ready: StatusCondition)
    requires
        ready.type_@ == "Ready"@,
    ensures
        non_ready(non_ready(conditions).push(ready)) == non_ready(conditions),
{
    lemma_non_ready_idempotent(conditions);
    assert(non_ready(conditions).push(ready).drop_last() == non_ready(conditions));
}

} // verus!
