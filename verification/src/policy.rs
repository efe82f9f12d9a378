//! Checks that a CertificateRequest must pass before any EST network call.
use vstd::prelude::*;
use vstd::utf8::encode_utf8;

use crate::api::IssuancePolicy;
use crate::csr::{ExtensionView, GeneralNameEntry, NameView, RequestedExtension};
use crate::error::{ErrorView, IssuerError};
use crate::request::CertificateRequest;
use crate::text::{
    chars_equal, chars_of, contains_char, is_within_suffix, lower, lower_chars, same_text, strip_dots,
    law_within_suffix_is_equal_or_below_a_dot, strip_leading_dots, within_suffix,
};
use crate::trusted::{
    base64_decode, base64_decoded, csr_common_names, csr_extensions, csr_key_algorithm,
    csr_public_key_algorithm, csr_requested_extensions, csr_signature_algorithm,
    csr_signature_oid, csr_subject_common_names, csr_trailing_bytes, csr_trailing_len,
    humantime_duration, parse_pem, pem_block,
};
use crate::duration_text::{checked_duration, duration_value};

verus! {

/// Whether an exec result that carries nothing on success agrees with its specification.
pub open spec fn agrees(r: Result<(), IssuerError>, s: Result<(), ErrorView>) -> bool {
    match r {
        Ok(_) => s is Ok,
        Err(e) => s == Err::<(), ErrorView>(e@),
    }
}

/// A key usage that the issuer permits.
pub open spec fn allowed_usage(u: Seq<char>) -> bool {
    u == "digital signature"@ || u == "server auth"@
}

/// Every usage in the list is permitted.
pub open spec fn all_allowed_usages(list: Seq<String>) -> bool {
    forall|i: int| 0 <= i < list.len() ==> allowed_usage(#[trigger] list[i]@)
}

/// Usages must be present, non-empty, and only `digital signature` and `server auth`.
pub open spec fn usage_check(usages: Option<Vec<String>>) -> Result<(), ErrorView> {
    let list = match usages {
        Some(v) => v@,
        None => Seq::empty(),
    };
    if list.len() == 0 || !all_allowed_usages(list) {
        Err(ErrorView::Policy("usages must be limited to digital signature and server auth"@))
    } else {
        Ok(())
    }
}

/// `a` is strictly longer than `b`, both as (seconds, nanoseconds).
pub open spec fn longer(a: (u64, u32), b: (u64, u32)) -> bool {
    a.0 > b.0 || (a.0 == b.0 && a.1 > b.1)
}

/// The requested duration must be present, parse, and not exceed the policy
/// maximum. A text is parsed as [`duration_value`] gives it: it is invalid
/// where `humantime` refuses it, and never handed to it where it would panic.
pub open spec fn duration_check(requested: Option<String>, maximum: String) -> Result<(), ErrorView> {
    match requested {
        None => Err(ErrorView::Policy("certificate duration is required"@)),
        Some(text) => match duration_value(text@) {
            None => Err(ErrorView::Policy("certificate duration is invalid"@)),
            Some(req) => match duration_value(maximum@) {
                None => Err(ErrorView::Configuration("maxDuration is invalid"@)),
                Some(max) => if longer(req, max) {
                    Err(ErrorView::Policy("requested certificate duration exceeds issuer policy"@))
                } else {
                    Ok(())
                },
            },
        },
    }
}

/// The public key must be an EC key (`1.2.840.10045.2.1`) on P-384 (`1.3.132.0.34`).
pub open spec fn key_check(key: (Seq<char>, Option<Seq<char>>)) -> Result<(), ErrorView> {
    if key.0 != "1.2.840.10045.2.1"@ || key.1 != Some("1.3.132.0.34"@) {
        Err(ErrorView::Policy("only ECDSA P-384 public keys are permitted"@))
    } else {
        Ok(())
    }
}

/// The names of all subject alternative name extensions, in order.
pub open spec fn san_names(exts: Seq<ExtensionView>) -> Seq<NameView>
    decreases exts.len(),
{
    if exts.len() == 0 {
        Seq::empty()
    } else {
        san_names(exts.drop_last()) + match exts.last() {
            ExtensionView::SubjectAltName(names) => names,
            ExtensionView::Other => Seq::empty(),
        }
    }
}

/// The text of a DNS name entry (empty for any other entry).
pub open spec fn dns_text(n: NameView) -> Seq<char> {
    match n {
        NameView::Dns(d) => d,
        NameView::Other => Seq::empty(),
    }
}

/// The lowercased DNS names of a list of name entries.
pub open spec fn lowered_dns(names: Seq<NameView>) -> Seq<Seq<char>> {
    names.map_values(|n: NameView| lower(dns_text(n)))
}

/// An allowed suffix as it is compared: leading dots removed, ASCII lowercased.
pub open spec fn normalized_suffix(suffix: Seq<char>) -> Seq<char> {
    lower(strip_leading_dots(suffix))
}

/// A (lowercased) DNS name that the allowlist permits: no wildcard, and equal
/// to or below one of the allowed suffixes.
pub open spec fn permitted_name(name: Seq<char>, suffixes: Seq<String>) -> bool {
    &&& !name.contains('*')
    &&& exists|j: int| 0 <= j < suffixes.len() && within_suffix(name, normalized_suffix(#[trigger] suffixes[j]@))
}

/// The DNS SAN check; on success, the lowercased DNS names in order.
pub open spec fn dns_san_check(exts: Option<Seq<ExtensionView>>, policy: IssuancePolicy) -> Result<Seq<Seq<char>>, ErrorView> {
    if policy.allowed_dns_suffixes@.len() == 0 {
        Err(ErrorView::Configuration("allowedDnsSuffixes must not be empty"@))
    } else {
        match exts {
            None => Err(ErrorView::Policy("CSR must contain a DNS SAN"@)),
            Some(e) => {
                let names = san_names(e);
                if !all_dns(names) {
                    Err(ErrorView::Policy("only DNS subject alternative names are permitted"@))
                } else {
                    let dns = lowered_dns(names);
                    if dns.len() == 0 || dns.len() > policy.max_dns_sans {
                        Err(ErrorView::Policy("DNS SAN count violates issuer policy"@))
                    } else if exists|i: int| 0 <= i < dns.len() && !permitted_name(#[trigger] dns[i], policy.allowed_dns_suffixes@) {
                        Err(ErrorView::Policy("DNS SAN is outside the permitted namespace"@))
                    } else {
                        Ok(dns)
                    }
                }
            },
        }
    }
}

/// A subject common name, where there is one, must be the only one, be a
/// UTF-8 string, and equal (ASCII case-insensitively) one of the DNS names.
pub open spec fn common_name_check(cns: Seq<Option<Seq<char>>>, dns: Seq<Seq<char>>) -> Result<(), ErrorView> {
    if cns.len() == 0 {
        Ok(())
    } else if cns.len() > 1 {
        Err(ErrorView::Policy("CSR must not contain multiple common names"@))
    } else {
        match cns[0] {
            None => Err(ErrorView::Policy("CSR common name is not valid UTF-8"@)),
            Some(cn) => if dns.contains(lower(cn)) {
                Ok(())
            } else {
                Err(ErrorView::Policy("CSR common name must match a DNS subject alternative name"@))
            },
        }
    }
}

/// The whole CSR check, in the order the checks are made; on success, the
/// DER encoding of the PKCS#10 request.
pub open spec fn csr_verdict(request: CertificateRequest, policy: IssuancePolicy) -> Result<Seq<u8>, ErrorView> {
    if request.spec.is_ca == Some(true) {
        Err(ErrorView::Policy("CA certificate requests are prohibited"@))
    } else if usage_check(request.spec.usages) is Err {
        Err(usage_check(request.spec.usages)->Err_0)
    } else if duration_check(request.spec.duration, policy.max_duration) is Err {
        Err(duration_check(request.spec.duration, policy.max_duration)->Err_0)
    } else {
        match base64_decoded(encode_utf8(request.spec.request@)) {
            None => Err(ErrorView::Policy("request is not valid base64"@)),
            Some(bytes) => match pem_block(bytes) {
                None => Err(ErrorView::Policy("request is not valid PEM"@)),
                Some((label, der)) => der_verdict(label, der, policy),
            },
        }
    }
}

/// The checks made on a decoded PEM block.
pub open spec fn der_verdict(label: Seq<char>, der: Seq<u8>, policy: IssuancePolicy) -> Result<Seq<u8>, ErrorView> {
    if label != "CERTIFICATE REQUEST"@ && label != "NEW CERTIFICATE REQUEST"@ {
        Err(ErrorView::Policy("PEM object is not a certificate request"@))
    } else {
        match csr_trailing_len(der) {
            None => Err(ErrorView::Policy("CSR is not valid DER"@)),
            Some(n) => if n != 0 {
                Err(ErrorView::Policy("trailing data after CSR is prohibited"@))
            } else {
                parsed_verdict(der, policy)
            },
        }
    }
}

/// The checks made on the fields of a parsed PKCS#10 request.
pub open spec fn parsed_verdict(der: Seq<u8>, policy: IssuancePolicy) -> Result<Seq<u8>, ErrorView> {
    let not_der = ErrorView::Policy("CSR is not valid DER"@);
    match csr_key_algorithm(der) {
        None => Err(not_der),
        Some(key) => if key_check(key) is Err {
            Err(key_check(key)->Err_0)
        } else {
            match csr_signature_algorithm(der) {
                None => Err(not_der),
                Some(sig) => if sig != "1.2.840.10045.4.3.3"@ {
                    Err(ErrorView::Policy("only ECDSA P-384 with SHA-384 is permitted"@))
                } else {
                    match csr_requested_extensions(der) {
                        None => Err(not_der),
                        Some(exts) => match dns_san_check(exts, policy) {
                            Err(e) => Err(e),
                            Ok(dns) => match csr_common_names(der) {
                                None => Err(not_der),
                                Some(cns) => match common_name_check(cns, dns) {
                                    Err(e) => Err(e),
                                    Ok(_) => Ok(der),
                                },
                            },
                        },
                    }
                }
            }
        },
    }
}

fn policy_error(message: &str) -> (e: IssuerError)
    ensures
        e@ == ErrorView::Policy(message@),
{
    IssuerError::Policy(String::from_str(message))
}

fn validate_usages(request: &CertificateRequest) -> (r: Result<(), IssuerError>)
    ensures
        agrees(r, usage_check(request.spec.usages)),
{
    let reject = "usages must be limited to digital signature and server auth";
    match &request.spec.usages {
        None => Err(policy_error(reject)),
        Some(usages) => {
            if usages.len() == 0 {
                return Err(policy_error(reject));
            }
            for i in 0..usages.len()
                invariant
                    request.spec.usages == Some(*usages),
                    usages@.len() > 0,
                    forall|j: int| 0 <= j < i ==> allowed_usage(#[trigger] usages@[j]@),
            {
                let u = usages[i].as_str();
                if !(same_text(u, "digital signature") || same_text(u, "server auth")) {
                    assert(!allowed_usage(usages@[i as int]@));
                    return Err(
                        policy_error("usages must be limited to digital signature and server auth"),
                    );
                }
            }
            Ok(())
        },
    }
}

fn validate_duration(request: &CertificateRequest, policy: &IssuancePolicy) -> (r: Result<(), IssuerError>)
    ensures
        agrees(r, duration_check(request.spec.duration, policy.max_duration)),
{
    let text = match &request.spec.duration {
        None => return Err(policy_error("certificate duration is required")),
        Some(t) => t,
    };
    let requested = match checked_duration(text.as_str()) {
        None => return Err(policy_error("certificate duration is invalid")),
        Some(d) => d,
    };
    let maximum = match checked_duration(policy.max_duration.as_str()) {
        None => return Err(IssuerError::Configuration(String::from_str("maxDuration is invalid"))),
        Some(d) => d,
    };
    if requested.0 > maximum.0 || (requested.0 == maximum.0 && requested.1 > maximum.1) {
        return Err(policy_error("requested certificate duration exceeds issuer policy"));
    }
    Ok(())
}

fn validate_public_key(algorithm: &String, curve: &Option<String>) -> (r: Result<(), IssuerError>)
    ensures
        agrees(r, key_check((algorithm@, match curve { Some(c) => Some(c@), None => None }))),
{
    let on_p384 = match curve {
        Some(c) => same_text(c.as_str(), "1.3.132.0.34"),
        None => false,
    };
    if !same_text(algorithm.as_str(), "1.2.840.10045.2.1") || !on_p384 {
        return Err(policy_error("only ECDSA P-384 public keys are permitted"));
    }
    Ok(())
}

/// The views of a list of character vectors.
pub open spec fn char_vecs_view(v: Seq<Vec<char>>) -> Seq<Seq<char>> {
    v.map_values(|x: Vec<char>| x@)
}

proof fn lemma_san_names_concat(a: Seq<ExtensionView>, b: Seq<ExtensionView>)
    ensures
        san_names(a + b) == san_names(a) + san_names(b),
    decreases b.len(),
{
    if b.len() == 0 {
        assert(a + b == a);
        assert(san_names(b) == Seq::<NameView>::empty());
        assert(san_names(a) + san_names(b) == san_names(a));
    } else {
        lemma_san_names_concat(a, b.drop_last());
        assert((a + b).drop_last() == a + b.drop_last());
        assert((a + b).last() == b.last());
    }
}

/// Every entry is a DNS name.
pub open spec fn all_dns(names: Seq<NameView>) -> bool {
    forall|x: int| 0 <= x < names.len() ==> #[trigger] names[x] is Dns
}

/// The lowercased DNS names of all subject alternative name extensions, or
/// `None` where one of their entries is not a DNS name.
fn collect_dns_names(extensions: &Vec<RequestedExtension>) -> (r: Option<Vec<Vec<char>>>)
    ensures
        r is None <==> !all_dns(san_names(crate::csr::extensions_view(extensions@))),
        r matches Some(d) ==> char_vecs_view(d@) == lowered_dns(
            san_names(crate::csr::extensions_view(extensions@)),
        ),
{
    let ghost exts = crate::csr::extensions_view(extensions@);
    let mut dns: Vec<Vec<char>> = Vec::new();
    assert(exts.take(0) == Seq::<ExtensionView>::empty());
    for i in 0..extensions.len()
        invariant
            exts == crate::csr::extensions_view(extensions@),
            all_dns(san_names(exts.take(i as int))),
            char_vecs_view(dns@) == lowered_dns(san_names(exts.take(i as int))),
    {
        let ghost before = san_names(exts.take(i as int));
        proof {
            assert(exts.take(i + 1).drop_last() == exts.take(i as int));
        }
        match &extensions[i] {
            RequestedExtension::SubjectAltName(names) => {
                let ghost nv = names@.map_values(|n: GeneralNameEntry| n@);
                assert(san_names(exts.take(i + 1)) == before + nv);
                assert(before + nv.take(0) == before);
                for k in 0..names.len()
                    invariant
                        nv == names@.map_values(|n: GeneralNameEntry| n@),
                        exts == crate::csr::extensions_view(extensions@),
                        0 <= i < extensions@.len(),
                        before == san_names(exts.take(i as int)),
                        san_names(exts.take(i + 1)) == before + nv,
                        all_dns(before + nv.take(k as int)),
                        char_vecs_view(dns@) == lowered_dns(before + nv.take(k as int)),
                {
                    proof {
                        assert(nv.take(k + 1) == nv.take(k as int).push(nv[k as int]));
                        assert(before + nv.take(k + 1) == (before + nv.take(k as int)).push(nv[k as int]));
                    }
                    match &names[k] {
                        GeneralNameEntry::Dns(d) => {
                            let lowered = lower_chars(&chars_of(d.as_str()));
                            let ghost prior = dns@;
                            dns.push(lowered);
                            assert(lowered_dns((before + nv.take(k as int)).push(nv[k as int]))
                                == lowered_dns(before + nv.take(k as int)).push(lower(dns_text(nv[k as int]))));
                            assert(char_vecs_view(dns@) =~= char_vecs_view(prior).push(lowered@));
                        },
                        GeneralNameEntry::Other => {
                            proof {
                                let all = san_names(exts);
                                assert(exts == exts.take(i + 1) + exts.skip(i + 1));
                                lemma_san_names_concat(exts.take(i + 1), exts.skip(i + 1));
                                assert(all[before.len() + k] == nv[k as int]);
                            }
                            return None;
                        },
                    }
                }
                assert(nv.take(names.len() as int) == nv);
            },
            RequestedExtension::Other => {
                assert(san_names(exts.take(i + 1)) == before + Seq::<NameView>::empty());
                assert(before + Seq::<NameView>::empty() == before);
            },
        }
    }
    assert(exts.take(extensions.len() as int) == exts);
    Some(dns)
}
/// The allowed suffixes in the form they are compared in.
fn normalized_suffixes(allowed: &Vec<String>) -> (r: Vec<Vec<char>>)
    ensures
        r@.len() == allowed@.len(),
        forall|x: int| 0 <= x < r@.len() ==> #[trigger] r@[x]@ == normalized_suffix(allowed@[x]@),
{
    let mut suffixes: Vec<Vec<char>> = Vec::new();
    for j in 0..allowed.len()
        invariant
            suffixes@.len() == j,
            forall|x: int| 0 <= x < j ==> #[trigger] suffixes@[x]@ == normalized_suffix(allowed@[x]@),
    {
        suffixes.push(lower_chars(&strip_dots(&chars_of(allowed[j].as_str()))));
    }
    suffixes
}

/// Whether the allowlist permits a (lowercased) DNS name.
fn name_permitted(name: &Vec<char>, suffixes: &Vec<Vec<char>>, allowed: &Vec<String>) -> (r: bool)
    requires
        suffixes@.len() == allowed@.len(),
        forall|x: int| 0 <= x < suffixes@.len() ==> #[trigger] suffixes@[x]@ == normalized_suffix(allowed@[x]@),
    ensures
        r == permitted_name(name@, allowed@),
{
    if contains_char(name, '*') {
        return false;
    }
    for j in 0..suffixes.len()
        invariant
            suffixes@.len() == allowed@.len(),
            forall|x: int| 0 <= x < suffixes@.len() ==> #[trigger] suffixes@[x]@ == normalized_suffix(allowed@[x]@),
            !name@.contains('*'),
            forall|x: int| 0 <= x < j ==> !within_suffix(name@, normalized_suffix(#[trigger] allowed@[x]@)),
    {
        if is_within_suffix(name, &suffixes[j]) {
            assert(within_suffix(name@, normalized_suffix(allowed@[j as int]@)));
            return true;
        }
        assert(!within_suffix(name@, normalized_suffix(allowed@[j as int]@)));
    }
    false
}

pub fn validate_dns_sans(extensions: &Option<Vec<RequestedExtension>>, policy: &IssuancePolicy) -> (r: Result<Vec<Vec<char>>, IssuerError>)
    ensures
        match r {
            Ok(d) => dns_san_check(
                match extensions { Some(e) => Some(crate::csr::extensions_view(e@)), None => None },
                *policy,
            ) == Ok::<Seq<Seq<char>>, ErrorView>(char_vecs_view(d@)),
            Err(e) => dns_san_check(
                match extensions { Some(e) => Some(crate::csr::extensions_view(e@)), None => None },
                *policy,
            ) == Err::<Seq<Seq<char>>, ErrorView>(e@),
        },
{
    if policy.allowed_dns_suffixes.len() == 0 {
        return Err(IssuerError::Configuration(String::from_str("allowedDnsSuffixes must not be empty")));
    }
    let list = match extensions {
        None => return Err(policy_error("CSR must contain a DNS SAN")),
        Some(e) => e,
    };
    let dns = match collect_dns_names(list) {
        None => return Err(policy_error("only DNS subject alternative names are permitted")),
        Some(d) => d,
    };
    let ghost dv = char_vecs_view(dns@);
    assert(dv.len() == dns@.len());
    if dns.len() == 0 || dns.len() > policy.max_dns_sans as usize {
        return Err(policy_error("DNS SAN count violates issuer policy"));
    }
    let suffixes = normalized_suffixes(&policy.allowed_dns_suffixes);
    for i in 0..dns.len()
        invariant
            dv == char_vecs_view(dns@),
            *extensions == Some(*list),
            all_dns(san_names(crate::csr::extensions_view(list@))),
            dv == lowered_dns(san_names(crate::csr::extensions_view(list@))),
            policy.allowed_dns_suffixes@.len() > 0,
            0 < dv.len() <= policy.max_dns_sans,
            suffixes@.len() == policy.allowed_dns_suffixes@.len(),
            forall|x: int| 0 <= x < suffixes@.len() ==> #[trigger] suffixes@[x]@
                == normalized_suffix(policy.allowed_dns_suffixes@[x]@),
            forall|x: int| 0 <= x < i ==> permitted_name(#[trigger] dv[x], policy.allowed_dns_suffixes@),
    {
        assert(dv[i as int] == dns@[i as int]@);
        if !name_permitted(&dns[i], &suffixes, &policy.allowed_dns_suffixes) {
            assert(!permitted_name(dv[i as int], policy.allowed_dns_suffixes@));
            return Err(policy_error("DNS SAN is outside the permitted namespace"));
        }
    }
    Ok(dns)
}

pub fn validate_common_name(cns: &Vec<Option<String>>, dns: &Vec<Vec<char>>) -> (r: Result<(), IssuerError>)
    ensures
        agrees(r, common_name_check(crate::csr::optional_strings_view(cns@), char_vecs_view(dns@))),
{
    let ghost dv = char_vecs_view(dns@);
    if cns.len() == 0 {
        return Ok(());
    }
    if cns.len() > 1 {
        return Err(policy_error("CSR must not contain multiple common names"));
    }
    let cn = match &cns[0] {
        None => return Err(policy_error("CSR common name is not valid UTF-8")),
        Some(cn) => lower_chars(&chars_of(cn.as_str())),
    };
    for i in 0..dns.len()
        invariant
            dv == char_vecs_view(dns@),
            cns@.len() == 1,
            cns@[0] is Some,
            lower(cns@[0]->0@) == cn@,
            forall|x: int| 0 <= x < i ==> #[trigger] dv[x] != cn@,
    {
        if chars_equal(&dns[i], &cn) {
            assert(dv[i as int] == cn@);
            return Ok(());
        }
    }
    assert(!dv.contains(cn@));
    Err(policy_error("CSR common name must match a DNS subject alternative name"))
}

/// Checks a CertificateRequest against an issuance policy and, on success,
/// returns the DER encoding of its PKCS#10 request. Fails closed: the result
/// is `Ok` only where every check of [`csr_verdict`] passes.
pub fn decode_and_validate_csr(request: &CertificateRequest, policy: &IssuancePolicy) -> (r: Result<Vec<u8>, IssuerError>)
    ensures
        match r {
            Ok(der) => csr_verdict(*request, *policy) == Ok::<Seq<u8>, ErrorView>(der@),
            Err(e) => csr_verdict(*request, *policy) == Err::<Seq<u8>, ErrorView>(e@),
        },
{
    if matches!(request.spec.is_ca, Some(true)) {
        return Err(policy_error("CA certificate requests are prohibited"));
    }
    validate_usages(request)?;
    validate_duration(request, policy)?;
    let bytes = match base64_decode(request.spec.request.as_str().as_bytes()) {
        None => return Err(policy_error("request is not valid base64")),
        Some(b) => b,
    };
    let (label, der) = match parse_pem(bytes.as_slice()) {
        None => return Err(policy_error("request is not valid PEM")),
        Some(p) => p,
    };
    if !same_text(label.as_str(), "CERTIFICATE REQUEST") && !same_text(label.as_str(), "NEW CERTIFICATE REQUEST") {
        return Err(policy_error("PEM object is not a certificate request"));
    }
    match csr_trailing_bytes(der.as_slice()) {
        None => return Err(policy_error("CSR is not valid DER")),
        Some(n) => if n != 0 {
            return Err(policy_error("trailing data after CSR is prohibited"));
        },
    }
    let (algorithm, curve) = match csr_public_key_algorithm(der.as_slice()) {
        None => return Err(policy_error("CSR is not valid DER")),
        Some(k) => k,
    };
    validate_public_key(&algorithm, &curve)?;
    match csr_signature_oid(der.as_slice()) {
        None => return Err(policy_error("CSR is not valid DER")),
        Some(sig) => if !same_text(sig.as_str(), "1.2.840.10045.4.3.3") {
            return Err(policy_error("only ECDSA P-384 with SHA-384 is permitted"));
        },
    }
    let extensions = match csr_extensions(der.as_slice()) {
        None => return Err(policy_error("CSR is not valid DER")),
        Some(e) => e,
    };
    let dns = validate_dns_sans(&extensions, policy)?;
    let cns = match csr_subject_common_names(der.as_slice()) {
        None => return Err(policy_error("CSR is not valid DER")),
        Some(c) => c,
    };
    validate_common_name(&cns, &dns)?;
    Ok(der)
}

/// An accepted CSR meets the whole issuance policy: not a CA request; usages
/// present and limited to `digital signature` and `server auth`; a duration
/// within the maximum; a PEM `CERTIFICATE REQUEST` whose DER has no trailing
/// data; an EC P-384 key; an ECDSA-with-SHA-384 signature; only DNS subject
/// alternative names, between one and `max_dns_sans` of them, each without a
/// wildcard and within an allowed suffix; and no common name other than one
/// of those DNS names.
pub proof fn law_accepted_request_meets_policy(request: CertificateRequest, policy: IssuancePolicy, der: Seq<u8>)
    requires
        csr_verdict(request, policy) == Ok::<Seq<u8>, ErrorView>(der),
    ensures
        request.spec.is_ca != Some(true),
        request.spec.usages matches Some(u) && u@.len() > 0 && all_allowed_usages(u@),
        request.spec.duration matches Some(d) && humantime_duration(d@) matches Some(req)
            && humantime_duration(policy.max_duration@) matches Some(max) && !longer(req, max),
        base64_decoded(encode_utf8(request.spec.request@)) matches Some(bytes)
            && pem_block(bytes) matches Some((label, contents)) && contents == der
            && (label == "CERTIFICATE REQUEST"@ || label == "NEW CERTIFICATE REQUEST"@),
        csr_trailing_len(der) == Some(0nat),
        csr_key_algorithm(der) == Some(("1.2.840.10045.2.1"@, Some("1.3.132.0.34"@))),
        csr_signature_algorithm(der) == Some("1.2.840.10045.4.3.3"@),
        csr_requested_extensions(der) matches Some(Some(exts)) && {
            let names = san_names(exts);
            &&& all_dns(names)
            &&& 0 < names.len() <= policy.max_dns_sans
            &&& forall|i: int| 0 <= i < names.len() ==> permitted_name(#[trigger] lowered_dns(names)[i], policy.allowed_dns_suffixes@)
            &&& csr_common_names(der) matches Some(cns) && (cns.len() == 0 || {
                &&& cns.len() == 1
                &&& cns[0] matches Some(cn) && lowered_dns(names).contains(lower(cn))
            })
        },
{
    let names = san_names(csr_requested_extensions(der)->0->0);
    assert(lowered_dns(names).len() == names.len());
}

/// The name is one of the suffixes (lowercased, leading dots dropped) or
/// ends with a dot followed by one.
pub open spec fn equal_to_or_below_suffix(name: Seq<char>, suffixes: Seq<String>) -> bool {
    exists|j: int| 0 <= j < suffixes.len() && {
        let t = normalized_suffix(#[trigger] suffixes[j]@);
        name == t || (seq!['.'] + t).is_suffix_of(name)
    }
}

/// Usages pass exactly when they are present, not empty, and each is
/// `digital signature` or `server auth`.
pub proof fn law_usages_limited_to_signature_and_server_auth(usages: Option<Vec<String>>)
    ensures
        usage_check(usages) is Ok <==> (usages is Some && usages->0@.len() > 0 && forall|i: int| 0 <= i < usages->0@.len()
            ==> (#[trigger] usages->0@[i])@ == "digital signature"@ || usages->0@[i]@ == "server auth"@),
{
}

/// An accepted request asks only for `digital signature` and `server auth`,
/// and each of its DNS names, lowercased, is one of the allowed suffixes
/// (lowercased, leading dots dropped) or ends with a dot followed by one.
pub proof fn law_accepted_request_stays_in_policy(request: CertificateRequest, policy: IssuancePolicy, der: Seq<u8>)
    requires
        csr_verdict(request, policy) == Ok::<Seq<u8>, ErrorView>(der),
    ensures
        request.spec.usages is Some,
        forall|i: int| 0 <= i < request.spec.usages->0@.len()
            ==> (#[trigger] request.spec.usages->0@[i])@ == "digital signature"@ || request.spec.usages->0@[i]@ == "server auth"@,
        csr_requested_extensions(der) matches Some(Some(_)),
        lowered_dns(san_names(csr_requested_extensions(der)->0->0)).len() > 0,
        forall|k: int| 0 <= k < lowered_dns(san_names(csr_requested_extensions(der)->0->0)).len()
            ==> equal_to_or_below_suffix(#[trigger] lowered_dns(san_names(csr_requested_extensions(der)->0->0))[k], policy.allowed_dns_suffixes@),
{
    law_accepted_request_meets_policy(request, policy, der);
    law_usages_limited_to_signature_and_server_auth(request.spec.usages);
    let names = lowered_dns(san_names(csr_requested_extensions(der)->0->0));
    assert(names.len() == san_names(csr_requested_extensions(der)->0->0).len());
    assert forall|k: int| 0 <= k < names.len() implies equal_to_or_below_suffix(#[trigger] names[k], policy.allowed_dns_suffixes@) by {
        let name = names[k];
        assert(permitted_name(name, policy.allowed_dns_suffixes@));
        let j = choose|j: int| 0 <= j < policy.allowed_dns_suffixes@.len() && within_suffix(name, normalized_suffix(#[trigger] policy.allowed_dns_suffixes@[j]@));
        let t = normalized_suffix(policy.allowed_dns_suffixes@[j]@);
        law_within_suffix_is_equal_or_below_a_dot(name, t);
    }
}

/// An empty allowlist denies every request.
pub proof fn law_empty_allowlist_denies_all(request: CertificateRequest, policy: IssuancePolicy)
    requires
        policy.allowed_dns_suffixes@.len() == 0,
    ensures
        csr_verdict(request, policy) is Err,
{
}

/// Wildcard DNS names are never accepted, whatever the allowlist.
pub proof fn law_no_wildcards(name: Seq<char>, suffixes: Seq<String>)
    requires
        name.contains('*'),
    ensures
        !permitted_name(name, suffixes),
{
}

/// Every suffix of `narrow` also appears in `wide`.
pub open spec fn suffixes_covered(narrow: Seq<String>, wide: Seq<String>) -> bool {
    forall|i: int| 0 <= i < narrow.len() ==> exists|j: int| 0 <= j < wide.len() && (#[trigger] wide[j])@ == (#[trigger] narrow[i])@
}

/// Widening a policy never rejects an accepted SAN list: where
/// [`validate_dns_sans`] accepts the requested extensions under `policy`, it
/// accepts them under a policy that keeps every allowed suffix and has a SAN
/// bound no lower, with the same names.
pub proof fn law_widening_policy_keeps_accepted_names(
    exts: Option<Seq<ExtensionView>>,
    policy: IssuancePolicy,
    wider: IssuancePolicy,
    dns: Seq<Seq<char>>,
)
    requires
        dns_san_check(exts, policy) == Ok::<Seq<Seq<char>>, ErrorView>(dns),
        suffixes_covered(policy.allowed_dns_suffixes@, wider.allowed_dns_suffixes@),
        wider.max_dns_sans >= policy.max_dns_sans,
    ensures
        dns_san_check(exts, wider) == Ok::<Seq<Seq<char>>, ErrorView>(dns),
{
    let narrow = policy.allowed_dns_suffixes@;
    let wide = wider.allowed_dns_suffixes@;
    assert(narrow.len() > 0);
    let w0 = choose|j: int| 0 <= j < wide.len() && (#[trigger] wide[j])@ == (#[trigger] narrow[0])@;
    assert(wide.len() > 0);
    assert forall|name: Seq<char>| permitted_name(name, narrow) implies permitted_name(name, wide) by {
        let j = choose|j: int| 0 <= j < narrow.len() && within_suffix(name, normalized_suffix(#[trigger] narrow[j]@));
        let k = choose|k: int| 0 <= k < wide.len() && (#[trigger] wide[k])@ == (#[trigger] narrow[j])@;
        assert(within_suffix(name, normalized_suffix(wide[k]@)));
    }
}

} // verus!
