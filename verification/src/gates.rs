//! The gates a CertificateRequest passes before its CSR is examined: which
//! issuer it names, approval, the namespace boundary, and Secret admission.
use vstd::prelude::*;

use crate::error::{ErrorView, IssuerError};
use crate::policy::agrees;
use crate::request::{law_lookup_is_map_lookup, lookup, CertificateRequest, Secret, StatusCondition};
use crate::text::same_text;
use crate::trusted::{debug_quoted, str_debug};

verus! {

/// The request names an issuer of kind `EstIssuer` in group `pki.usg.mil`.
pub open spec fn targets_issuer(request: CertificateRequest) -> bool {
    &&& request.spec.issuer_ref.group matches Some(g) && g@ == "pki.usg.mil"@
    &&& request.spec.issuer_ref.kind matches Some(k) && k@ == "EstIssuer"@
}

/// The request already carries a certificate in its status.
pub open spec fn certificate_recorded(request: CertificateRequest) -> bool {
    request.status matches Some(s) && s.certificate is Some
}

/// Some condition of the given type has status `True`.
pub open spec fn condition_true(conditions: Seq<StatusCondition>, type_: Seq<char>) -> bool {
    exists|i: int| 0 <= i < conditions.len() && (#[trigger] conditions[i]).type_@ == type_ && conditions[i].status@ == "True"@
}

/// Approval gate: the request must have `Approved=True` and must not have `Denied=True`.
pub open spec fn approval_check(request: CertificateRequest) -> Result<(), ErrorView> {
    match request.status {
        Some(status) => match status.conditions {
            Some(c) => if condition_true(c@, "Denied"@) {
                Err(ErrorView::Denied)
            } else if !condition_true(c@, "Approved"@) {
                Err(ErrorView::NotApproved)
            } else {
                Ok(())
            },
            None => Err(ErrorView::NotApproved),
        },
        None => Err(ErrorView::NotApproved),
    }
}

/// Whether the request is addressed to this issuer kind.
pub fn targets_this_controller(request: &CertificateRequest) -> (r: bool)
    ensures
        r == targets_issuer(*request),
{
    let group_ok = match &request.spec.issuer_ref.group {
        Some(g) => same_text(g.as_str(), "pki.usg.mil"),
        None => false,
    };
    let kind_ok = match &request.spec.issuer_ref.kind {
        Some(k) => same_text(k.as_str(), "EstIssuer"),
        None => false,
    };
    group_ok && kind_ok
}

/// Whether a certificate was already recorded for the request.
pub fn is_complete(request: &CertificateRequest) -> (r: bool)
    ensures
        r == certificate_recorded(*request),
{
    match &request.status {
        Some(s) => s.certificate.is_some(),
        None => false,
    }
}

fn has_true_condition(conditions: &Vec<StatusCondition>, type_: &str) -> (r: bool)
    ensures
        r == condition_true(conditions@, type_@),
{
    for i in 0..conditions.len()
        invariant
            forall|j: int| 0 <= j < i ==> !((#[trigger] conditions@[j]).type_@ == type_@ && conditions@[j].status@ == "True"@),
    {
        let c = &conditions[i];
        if same_text(c.type_.as_str(), type_) && same_text(c.status.as_str(), "True") {
            assert(conditions@[i as int] == *c);
            return true;
        }
    }
    false
}

/// The approval gate. The issuer never approves requests: it issues only
/// where `Approved=True` is present and `Denied=True` is absent.
pub fn enforce_approval(request: &CertificateRequest) -> (r: Result<(), IssuerError>)
    ensures
        agrees(r, approval_check(*request)),
{
    let conditions = match &request.status {
        Some(status) => match &status.conditions {
            Some(c) => c,
            None => return Err(IssuerError::NotApproved),
        },
        None => return Err(IssuerError::NotApproved),
    };
    if has_true_condition(conditions, "Denied") {
        return Err(IssuerError::Denied);
    }
    if !has_true_condition(conditions, "Approved") {
        return Err(IssuerError::NotApproved);
    }
    Ok(())
}

/// Namespace gate: the request must live in the namespace that the
/// controller watches.
pub open spec fn namespace_check(request: CertificateRequest, watched: Seq<char>) -> Result<(), ErrorView> {
    match request.metadata.namespace {
        None => Err(ErrorView::Configuration("request has no namespace"@)),
        Some(ns) => if ns@ != watched {
            Err(ErrorView::Configuration("cross-namespace issuance is disabled"@))
        } else {
            Ok(())
        },
    }
}

/// The namespace gate of issuer lookup: issuers are only read from the
/// watched namespace, and only for requests in it.
pub fn check_namespace(request: &CertificateRequest, watched: &str) -> (r: Result<(), IssuerError>)
    ensures
        agrees(r, namespace_check(*request, watched@)),
{
    match &request.metadata.namespace {
        None => Err(IssuerError::Configuration(String::from_str("request has no namespace"))),
        Some(ns) => if !same_text(ns.as_str(), watched) {
            Err(IssuerError::Configuration(String::from_str("cross-namespace issuance is disabled")))
        } else {
            Ok(())
        },
    }
}

/// The Secret is labeled `pki.usg.mil/est-issuer: "true"`.
pub open spec fn labeled_for_issuer(secret: Secret) -> bool {
    &&& secret.labels matches Some(labels)
    &&& lookup(labels@, "pki.usg.mil/est-issuer"@) matches Some(v) && v@ == "true"@
}

/// Secret gate: only immutable, explicitly labeled Secrets are read, and the
/// value under `key` must be present and non-empty.
pub open spec fn secret_value(secret: Secret, key: Seq<char>) -> Result<Seq<u8>, ErrorView> {
    if !labeled_for_issuer(secret) || secret.immutable != Some(true) {
        Err(ErrorView::Secret("Secret must be immutable and explicitly labeled for EST issuer use"@))
    } else {
        match secret.data {
            Some(data) => match lookup(data@, key) {
                Some(v) => if v@.len() > 0 {
                    Ok(v@)
                } else {
                    Err(ErrorView::Secret(missing_key(key)))
                },
                None => Err(ErrorView::Secret(missing_key(key))),
            },
            None => Err(ErrorView::Secret(missing_key(key))),
        }
    }
}

/// The message for a missing key, which quotes the key as Rust's `{:?}` does.
pub open spec fn missing_key(key: Seq<char>) -> Seq<char> {
    "required key "@ + str_debug(key) + " is missing"@
}

proof fn lemma_lookup_skip<V>(entries: Seq<(String, V)>, key: Seq<char>, i: int)
    requires
        0 <= i < entries.len(),
    ensures
        entries[i].0@ == key ==> lookup(entries.skip(i), key) == Some(entries[i].1),
        entries[i].0@ != key ==> lookup(entries.skip(i), key) == lookup(entries.skip(i + 1), key),
{
    assert(entries.skip(i).drop_first() == entries.skip(i + 1));
    assert(entries.skip(i)[0] == entries[i]);
}

/// The index of the first entry whose key is `key`.
fn lookup_index<V>(entries: &Vec<(String, V)>, key: &str) -> (r: Option<usize>)
    ensures
        r matches Some(i) ==> i < entries@.len() && lookup(entries@, key@) == Some(entries@[i as int].1),
        r is None ==> lookup(entries@, key@) is None,
{
    assert(entries@.skip(0) == entries@);
    for i in 0..entries.len()
        invariant
            lookup(entries@, key@) == lookup(entries@.skip(i as int), key@),
    {
        proof { lemma_lookup_skip(entries@, key@, i as int); }
        if same_text(entries[i].0.as_str(), key) {
            return Some(i);
        }
    }
    assert(entries@.skip(entries@.len() as int) == Seq::<(String, V)>::empty());
    None
}

/// Reads `key` from a Secret that passed the Secret gate. A Secret holds
/// each label and each data key once.
pub fn secret_bytes(secret: &Secret, key: &str) -> (r: Result<Vec<u8>, IssuerError>)
    requires
        secret.well_formed(),
    ensures
        match r {
            Ok(v) => secret_value(*secret, key@) == Ok::<Seq<u8>, ErrorView>(v@),
            Err(e) => secret_value(*secret, key@) == Err::<Seq<u8>, ErrorView>(e@),
        },
{
    let authorized = match &secret.labels {
        Some(labels) => match lookup_index(labels, "pki.usg.mil/est-issuer") {
            Some(i) => same_text(labels[i].1.as_str(), "true"),
            None => false,
        },
        None => false,
    };
    if !authorized || !matches!(secret.immutable, Some(true)) {
        return Err(IssuerError::Secret(
            String::from_str("Secret must be immutable and explicitly labeled for EST issuer use"),
        ));
    }
    let mut missing = String::from_str("required key ");
    missing.append(debug_quoted(key).as_str());
    missing.append(" is missing");
    match &secret.data {
        Some(data) => match lookup_index(data, key) {
            Some(i) => {
                let value = data[i].1.clone();
                assert(value@ == data@[i as int].1@);
                if value.len() > 0 {
                    Ok(value)
                } else {
                    Err(IssuerError::Secret(missing))
                }
            },
            None => Err(IssuerError::Secret(missing)),
        },
        None => Err(IssuerError::Secret(missing)),
    }
}

/// An entry that lookup finds is in the list.
proof fn lemma_lookup_found<V>(entries: Seq<(String, V)>, key: Seq<char>)
    ensures
        lookup(entries, key) matches Some(v) ==> exists|i: int| 0 <= i < entries.len() && (#[trigger] entries[i]).0@ == key && entries[i].1 == v,
    decreases entries.len(),
{
    if entries.len() > 0 && entries[0].0@ != key {
        lemma_lookup_found(entries.drop_first(), key);
        if lookup(entries, key) is Some {
            let i = choose|i: int| 0 <= i < entries.drop_first().len() && (#[trigger] entries.drop_first()[i]).0@ == key && entries.drop_first()[i].1 == lookup(entries, key)->0;
            assert(entries[i + 1] == entries.drop_first()[i]);
        }
    }
}

/// Secret data is only ever read from Secrets that carry the label
/// `pki.usg.mil/est-issuer` with the value `true` and are marked immutable,
/// and only as a non-empty value stored under the key asked for.
pub proof fn law_secrets_read_only_when_labeled_and_immutable(secret: Secret, key: Seq<char>)
    requires
        secret_value(secret, key) is Ok,
    ensures
        labeled_for_issuer(secret),
        secret.immutable == Some(true),
        secret.labels is Some,
        exists|i: int| 0 <= i < secret.labels->0@.len()
            && (#[trigger] secret.labels->0@[i]).0@ == "pki.usg.mil/est-issuer"@
            && secret.labels->0@[i].1@ == "true"@,
        secret_value(secret, key)->Ok_0.len() > 0,
        secret.data is Some,
        exists|j: int| 0 <= j < secret.data->0@.len()
            && (#[trigger] secret.data->0@[j]).0@ == key
            && secret.data->0@[j].1@ == secret_value(secret, key)->Ok_0,
{
    lemma_lookup_found(secret.labels->0@, "pki.usg.mil/est-issuer"@);
    lemma_lookup_found(secret.data->0@, key);
}

/// The other way round: from a well-formed Secret that is immutable, labeled
/// `pki.usg.mil/est-issuer: "true"`, and holds a non-empty value under the
/// key, exactly that value is read.
pub proof fn law_labeled_immutable_secrets_are_read(secret: Secret, key: Seq<char>, j: int)
    requires
        secret.well_formed(),
        secret.immutable == Some(true),
        secret.labels matches Some(l) && exists|i: int| 0 <= i < l@.len()
            && (#[trigger] l@[i]).0@ == "pki.usg.mil/est-issuer"@ && l@[i].1@ == "true"@,
        secret.data matches Some(d) && 0 <= j < d@.len() && d@[j].0@ == key && d@[j].1@.len() > 0,
    ensures
        secret_value(secret, key) == Ok::<Seq<u8>, ErrorView>(secret.data->0@[j].1@),
{
    let l = secret.labels->0@;
    let i = choose|i: int| 0 <= i < l.len() && (#[trigger] l[i]).0@ == "pki.usg.mil/est-issuer"@ && l[i].1@ == "true"@;
    law_lookup_is_map_lookup(l, "pki.usg.mil/est-issuer"@, l[i].1);
    let d = secret.data->0@;
    law_lookup_is_map_lookup(d, key, d[j].1);
}

/// The approval gate passes exactly for a request that has a condition of
/// type `Approved` with status `True` and no condition of type `Denied` with
/// status `True`; a request with `Denied=True` is refused as denied.
pub proof fn law_approval_needs_approved_and_not_denied(request: CertificateRequest)
    ensures
        approval_check(request) is Ok <==> (request.status is Some && request.status->0.conditions is Some && ({
            let c = request.status->0.conditions->0@;
            &&& exists|i: int| 0 <= i < c.len() && (#[trigger] c[i]).type_@ == "Approved"@ && c[i].status@ == "True"@
            &&& forall|i: int| 0 <= i < c.len() ==> !((#[trigger] c[i]).type_@ == "Denied"@ && c[i].status@ == "True"@)
        })),
        (request.status is Some && request.status->0.conditions is Some && ({
            let c = request.status->0.conditions->0@;
            exists|i: int| 0 <= i < c.len() && (#[trigger] c[i]).type_@ == "Denied"@ && c[i].status@ == "True"@
        })) ==> approval_check(request) == Err::<(), ErrorView>(ErrorView::Denied),
{
}

/// Denial wins over approval: a request with `Denied=True` is refused even
/// where it also has `Approved=True`.
pub proof fn law_denial_overrides_approval(request: CertificateRequest)
    requires
        request.status matches Some(s) && s.conditions matches Some(c) && condition_true(c@, "Denied"@),
    ensures
        approval_check(request) == Err::<(), ErrorView>(ErrorView::Denied),
{
}

} // verus!
