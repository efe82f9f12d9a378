use vstd::prelude::*;

verus! {

/// The parts of a cert-manager `CertificateRequest` that the issuer reads.
#[derive(Debug)]
pub struct CertificateRequest {
    pub metadata: RequestMetadata,
    pub spec: CertificateRequestSpec,
    pub status: Option<CertificateRequestStatus>,
}

/// Object metadata of a CertificateRequest.
#[derive(Debug)]
pub struct RequestMetadata {
    pub name: Option<String>,
    pub generate_name: Option<String>,
    pub namespace: Option<String>,
    pub uid: Option<String>,
    pub generation: Option<i64>,
}

/// Desired state of a CertificateRequest.
#[derive(Debug)]
pub struct CertificateRequestSpec {
    /// Base64 of the PEM-encoded PKCS#10 request.
    pub request: String,
    /// Requested lifetime, such as `24h`.
    pub duration: Option<String>,
    pub is_ca: Option<bool>,
    pub usages: Option<Vec<String>>,
    pub issuer_ref: IssuerReference,
    /// UID of the user that created the request, recorded at admission.
    pub uid: Option<String>,
}

/// Reference from a CertificateRequest to the issuer that should sign it.
#[derive(Debug)]
pub struct IssuerReference {
    pub name: String,
    pub kind: Option<String>,
    pub group: Option<String>,
}

/// Observed state of a CertificateRequest.
#[derive(Debug)]
pub struct CertificateRequestStatus {
    pub certificate: Option<String>,
    pub conditions: Option<Vec<StatusCondition>>,
}

/// A status condition, in the shape of a Kubernetes `metav1.Condition`.
#[derive(Debug)]
pub struct StatusCondition {
    pub type_: String,
    pub status: String,
    pub reason: String,
    pub message: String,
    pub last_transition_time: String,
    pub observed_generation: Option<i64>,
}

impl StatusCondition {
    /// A copy of this condition.
    pub fn duplicate(&self) -> (r: StatusCondition)
        ensures
            r == *self,
    {
        StatusCondition {
            type_: self.type_.clone(),
            status: self.status.clone(),
            reason: self.reason.clone(),
            message: self.message.clone(),
            last_transition_time: self.last_transition_time.clone(),
            observed_generation: self.observed_generation,
        }
    }
}

/// The parts of a Kubernetes `Secret` that the issuer reads.
#[derive(Debug)]
pub struct Secret {
    /// Metadata labels, in the order the API returned them.
    pub labels: Option<Vec<(String, String)>>,
    pub immutable: Option<bool>,
    /// Secret data, in the order the API returned it.
    pub data: Option<Vec<(String, Vec<u8>)>>,
}

/// The value stored under the first entry whose key is `key`.
pub open spec fn lookup<V>(entries: Seq<(String, V)>, key: Seq<char>) -> Option<V>
    decreases entries.len(),
{
    if entries.len() == 0 {
        None
    } else if entries[0].0@ == key {
        Some(entries[0].1)
    } else {
        lookup(entries.drop_first(), key)
    }
}

/// No two entries share a key, as in the maps the Kubernetes API returns.
pub open spec fn unique_keys<V>(entries: Seq<(String, V)>) -> bool {
    forall|i: int, j: int|
        0 <= i < entries.len() && 0 <= j < entries.len() && i != j ==> (#[trigger] entries[i]).0@ != (#[trigger] entries[j]).0@
}

impl Secret {
    /// Labels and data hold each key at most once.
    pub open spec fn well_formed(self) -> bool {
        &&& self.labels matches Some(l) ==> unique_keys(l@)
        &&& self.data matches Some(d) ==> unique_keys(d@)
    }
}

/// With unique keys, [`lookup`] is map lookup: it finds `v` under `key`
/// exactly where some entry holds `key` with `v`, and finds nothing exactly
/// where no entry holds `key`; the order of the entries does not matter.
pub proof fn law_lookup_is_map_lookup<V>(entries: Seq<(String, V)>, key: Seq<char>, v: V)
    requires
        unique_keys(entries),
    ensures
        lookup(entries, key) == Some(v) <==> exists|i: int| 0 <= i < entries.len() && (#[trigger] entries[i]).0@ == key && entries[i].1 == v,
        lookup(entries, key) is None <==> forall|i: int| 0 <= i < entries.len() ==> (#[trigger] entries[i]).0@ != key,
    decreases entries.len(),
{
    if entries.len() > 0 {
        let rest = entries.drop_first();
        assert forall|i: int, j: int| 0 <= i < rest.len() && 0 <= j < rest.len() && i != j implies (#[trigger] rest[i]).0@ != (#[trigger] rest[j]).0@ by {
            assert(rest[i] == entries[i + 1] && rest[j] == entries[j + 1]);
        }
        law_lookup_is_map_lookup(rest, key, v);
        assert forall|i: int| 0 < i < entries.len() implies #[trigger] entries[i] == rest[i - 1] by {}
        if entries[0].0@ == key {
            assert forall|i: int| 0 <= i < entries.len() && (#[trigger] entries[i]).0@ == key implies i == 0 by {
                if i != 0 {
                    assert(entries[i].0@ != entries[0].0@);
                }
            }
        } else {
            if exists|i: int| 0 <= i < entries.len() && (#[trigger] entries[i]).0@ == key && entries[i].1 == v {
                let i = choose|i: int| 0 <= i < entries.len() && (#[trigger] entries[i]).0@ == key && entries[i].1 == v;
                assert(rest[i - 1] == entries[i]);
            }
            if exists|i: int| 0 <= i < entries.len() && (#[trigger] entries[i]).0@ == key {
                let i = choose|i: int| 0 <= i < entries.len() && (#[trigger] entries[i]).0@ == key;
                assert(rest[i - 1] == entries[i]);
            }
        }
    }
}

} // verus!
