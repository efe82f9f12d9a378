//! Turning an issued certificate chain into the value written to the
//! CertificateRequest status.
use vstd::prelude::*;
use vstd::utf8::encode_utf8;

use crate::error::{ErrorView, IssuerError};
use crate::trusted::{base64_encode, base64_encoded, certificate_pem, encode_certificate_pem};

verus! {

/// The PEM encodings of the given DER certificates, concatenated in order;
/// `None` where one cannot be encoded.
pub open spec fn chain_pem(certs: Seq<Seq<u8>>) -> Option<Seq<char>>
    decreases certs.len(),
{
    if certs.len() == 0 {
        Some(Seq::empty())
    } else {
        match chain_pem(certs.drop_last()) {
            None => None,
            Some(head) => match certificate_pem(certs.last()) {
                None => None,
                Some(tail) => Some(head + tail),
            },
        }
    }
}

/// The views of a list of DER certificates.
pub open spec fn ders_view(v: Seq<Vec<u8>>) -> Seq<Seq<u8>> {
    v.map_values(|d: Vec<u8>| d@)
}

/// The status value for an issued chain: base64 of the PEM of the leaf
/// followed by the PEM of each further certificate, in order.
pub open spec fn chain_payload(leaf: Seq<u8>, others: Seq<Seq<u8>>) -> Result<Seq<char>, ErrorView> {
    match chain_pem(seq![leaf] + others) {
        None => Err(ErrorView::Encoding("certificate could not be encoded"@)),
        Some(pem) => if encode_utf8(pem).len() / 3 > usize::MAX / 4 - 1 {
            // No string in memory is this long: allocations stay within `isize::MAX` bytes.
            Err(ErrorView::Encoding("certificate could not be encoded"@))
        } else {
            Ok(base64_encoded(encode_utf8(pem)))
        },
    }
}

/// Encodes an issued chain for the CertificateRequest status: the leaf
/// certificate's PEM, each intermediate's PEM after it, all base64-encoded.
pub fn issued_certificate_payload(leaf: &Vec<u8>, intermediates: &Vec<Vec<u8>>) -> (r: Result<String, IssuerError>)
    ensures
        match r {
            Ok(s) => chain_payload(leaf@, ders_view(intermediates@)) == Ok::<Seq<char>, ErrorView>(s@),
            Err(e) => chain_payload(leaf@, ders_view(intermediates@)) == Err::<Seq<char>, ErrorView>(e@),
        },
{
    let ghost all = seq![leaf@] + ders_view(intermediates@);
    let mut pem = match encode_certificate_pem(leaf.as_slice()) {
        None => {
            assert(all.take(1).drop_last() == Seq::<Seq<u8>>::empty());
            assert(chain_pem(all.take(1)) is None);
            proof { lemma_chain_pem_prefix_none(all, 1); }
            return Err(IssuerError::Encoding(String::from_str("certificate could not be encoded")));
        },
        Some(p) => p,
    };
    proof {
        assert(all.take(1).drop_last() == Seq::<Seq<u8>>::empty());
        assert(all.take(1).last() == leaf@);
        assert(Seq::<char>::empty() + pem@ == pem@);
        assert(chain_pem(Seq::<Seq<u8>>::empty()) == Some(Seq::<char>::empty()));
        assert(all.take(1).len() == 1);
        assert(chain_pem(all.take(1)) == Some(pem@));
    }
    for i in 0..intermediates.len()
        invariant
            all == seq![leaf@] + ders_view(intermediates@),
            chain_pem(all.take(i + 1)) == Some(pem@),
    {
        proof {
            assert(all.take(i + 2).drop_last() == all.take(i + 1));
            assert(all.take(i + 2).last() == intermediates@[i as int]@);
        }
        match encode_certificate_pem(intermediates[i].as_slice()) {
            None => {
                proof { lemma_chain_pem_prefix_none(all, i + 2); }
                return Err(IssuerError::Encoding(String::from_str("certificate could not be encoded")));
            },
            Some(p) => pem.append(p.as_str()),
        }
    }
    assert(all.take(intermediates.len() + 1) == all);
    let bytes = pem.as_str().as_bytes();
    if bytes.len() / 3 > usize::MAX / 4 - 1 {
        // Unreachable: no allocation, and so no string, exceeds `isize::MAX`
        // bytes. Without this branch the encoder would panic here.
        return Err(IssuerError::Encoding(String::from_str("certificate could not be encoded")));
    }
    Ok(base64_encode(bytes))
}

/// Once a prefix of the chain cannot be encoded, neither can the chain.
proof fn lemma_chain_pem_prefix_none(all: Seq<Seq<u8>>, n: int)
    requires
        0 <= n <= all.len(),
        chain_pem(all.take(n)) is None,
    ensures
        chain_pem(all) is None,
    decreases all.len() - n,
{
    if n == all.len() {
        assert(all.take(n) == all);
    } else {
        assert(all.take(n + 1).drop_last() == all.take(n));
        lemma_chain_pem_prefix_none(all, n + 1);
    }
}

/// The PEM encoding of each certificate, where it has one.
pub open spec fn pem_of_each(certs: Seq<Seq<u8>>) -> Seq<Seq<char>> {
    certs.map_values(|d: Seq<u8>| certificate_pem(d)->0)
}

proof fn lemma_chain_pem_concatenates(certs: Seq<Seq<u8>>)
    ensures
        chain_pem(certs) is Some ==> {
            &&& forall|i: int| 0 <= i < certs.len() ==> certificate_pem(#[trigger] certs[i]) is Some
            &&& chain_pem(certs)->0 == pem_of_each(certs).flatten_alt()
        },
    decreases certs.len(),
{
    if certs.len() > 0 {
        lemma_chain_pem_concatenates(certs.drop_last());
        assert(pem_of_each(certs).drop_last() =~= pem_of_each(certs.drop_last()));
        if chain_pem(certs) is Some {
            assert forall|i: int| 0 <= i < certs.len() implies certificate_pem(#[trigger] certs[i]) is Some by {
                if i < certs.len() - 1 {
                    assert(certs.drop_last()[i] == certs[i]);
                }
            }
        }
    }
}

/// The status value holds every certificate of the chain: it is the base64
/// of the PEM of the leaf followed by the PEM of each further certificate,
/// in order, none left out; and each of them has a PEM encoding.
pub proof fn law_payload_holds_every_certificate(leaf: Seq<u8>, others: Seq<Seq<u8>>, payload: Seq<char>)
    requires
        chain_payload(leaf, others) == Ok::<Seq<char>, ErrorView>(payload),
    ensures
        certificate_pem(leaf) is Some,
        forall|i: int| 0 <= i < others.len() ==> certificate_pem(#[trigger] others[i]) is Some,
        pem_of_each(seq![leaf] + others).len() == others.len() + 1,
        payload == base64_encoded(encode_utf8(pem_of_each(seq![leaf] + others).flatten())),
{
    let all = seq![leaf] + others;
    lemma_chain_pem_concatenates(all);
    pem_of_each(all).lemma_flatten_and_flatten_alt_are_equivalent();
    assert(all[0] == leaf);
    assert forall|i: int| 0 <= i < others.len() implies certificate_pem(#[trigger] others[i]) is Some by {
        assert(all[i + 1] == others[i]);
    }
}

} // verus!
