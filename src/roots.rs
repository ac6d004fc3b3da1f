use vstd::prelude::*;

use tokio_rustls::rustls::pki_types::CertificateDer;
use tokio_rustls::rustls::RootCertStore;

use crate::certificate::{
    load_ca_certificate, load_certificate_bundle, path_extension_of, pem_certificates_of,
    encoding_for_extension_spec, CertEncoding, Certificate,
};
use crate::error::TlsError;

verus! {

#[verifier::external_type_specification]
#[verifier::external_body]
pub struct ExRootCertStore(RootCertStore);

#[verifier::external_type_specification]
#[verifier::external_body]
pub struct ExRustlsError(tokio_rustls::rustls::Error);

/// The trust anchors a root store holds, in the order they were added.
pub uninterp spec fn trust_anchors(store: RootCertStore) -> Seq<Seq<u8>>;

/// The trust anchor rustls derives from a DER certificate (its subject, key
/// and name constraints), or nothing where the certificate does not parse.
pub uninterp spec fn trust_anchor_of(der: Seq<u8>) -> Option<Seq<u8>>;

/// Relies on rustls::RootCertStore::empty: a store without anchors.
#[verifier::external_body]
fn empty_root_store() -> (r: RootCertStore)
    ensures
        trust_anchors(r) == Seq::<Seq<u8>>::empty(),
{
    RootCertStore::empty()
}

/// Relies on rustls::RootCertStore::add: the anchor parsed from `der` is
/// appended, or the store is left as it was and the parse error returned.
#[verifier::external_body]
fn add_root(store: &mut RootCertStore, der: &[u8]) -> (r: Result<(), tokio_rustls::rustls::Error>)
    ensures
        match trust_anchor_of(der@) {
            Some(a) => r is Ok && trust_anchors(*final(store)) == trust_anchors(*old(store)).push(a),
            None => r is Err && trust_anchors(*final(store)) == trust_anchors(*old(store)),
        },
{
    store.add(CertificateDer::from_slice(der))
}

/// Relies on rustls::RootCertStore::is_empty: whether the store has no anchor.
#[verifier::external_body]
fn root_store_is_empty(store: &RootCertStore) -> (r: bool)
    ensures
        r == (trust_anchors(*store).len() == 0),
{
    store.is_empty()
}

/// The root store under `TrustAll`: empty, since no chain is verified.
pub fn root_store_for_trust_all() -> (r: RootCertStore)
    ensures
        trust_anchors(r).len() == 0,
{
    empty_root_store()
}

/// Every certificate parses into a trust anchor.
pub open spec fn all_parse(ders: Seq<Seq<u8>>) -> bool {
    forall|i: int| 0 <= i < ders.len() ==> (#[trigger] trust_anchor_of(ders[i])) is Some
}

/// The trust anchors of certificates that all parse.
pub open spec fn anchors_of(ders: Seq<Seq<u8>>) -> Seq<Seq<u8>> {
    ders.map_values(|d: Seq<u8>| trust_anchor_of(d)->Some_0)
}

/// The trust anchors of those certificates that parse, in order.
pub open spec fn parseable_anchors(ders: Seq<Seq<u8>>) -> Seq<Seq<u8>>
    decreases ders.len(),
{
    if ders.len() == 0 {
        Seq::empty()
    } else {
        let rest = parseable_anchors(ders.drop_last());
        match trust_anchor_of(ders.last()) {
            Some(a) => rest.push(a),
            None => rest,
        }
    }
}

pub open spec fn ders_of(certs: Seq<Certificate>) -> Seq<Seq<u8>> {
    certs.map_values(|c: Certificate| c.der@)
}

/// Builds a root store from certificates, in order; the first certificate
/// that does not parse fails the whole store.
pub fn root_store_from_certificates(certs: &Vec<Certificate>) -> (r: Result<RootCertStore, TlsError>)
    ensures
        r is Ok <==> all_parse(ders_of(certs@)),
        r is Ok ==> trust_anchors(r->Ok_0) == anchors_of(ders_of(certs@)),
        r is Err ==> r matches Err(TlsError::InvalidCertificate { .. }),
{
    let ghost ders = ders_of(certs@);
    let mut store = empty_root_store();
    let mut i: usize = 0;
    while i < certs.len()
        invariant
            ders == ders_of(certs@),
            i <= certs.len(),
            all_parse(ders.take(i as int)),
            trust_anchors(store) == anchors_of(ders.take(i as int)),
        decreases certs.len() - i,
    {
        let ghost before = trust_anchors(store);
        match add_root(&mut store, certs[i].der.as_slice()) {
            Ok(()) => {},
            Err(e) => {
                assert(trust_anchor_of(ders[i as int]) is None);
                assert(!all_parse(ders));
                return Err(TlsError::InvalidCertificate { message: e.to_string() });
            },
        }
        assert(ders.take(i + 1) =~= ders.take(i as int).push(ders[i as int]));
        assert(anchors_of(ders.take(i + 1)) =~= before.push(trust_anchor_of(ders[i as int])->Some_0));
        i = i + 1;
    }
    assert(ders.take(certs.len() as int) =~= ders);
    Ok(store)
}

/// A bundle whose certificates all parse yields one trust anchor per
/// certificate.
pub proof fn bundle_store_has_one_anchor_per_certificate(ders: Seq<Seq<u8>>)
    requires
        all_parse(ders),
    ensures
        anchors_of(ders).len() == ders.len(),
        forall|i: int| 0 <= i < ders.len() ==> Some(#[trigger] anchors_of(ders)[i]) == trust_anchor_of(ders[i]),
{
}

/// The platform's certificates leave the store empty exactly when none of
/// them parses.
pub proof fn native_store_empty_iff_none_parses(ders: Seq<Seq<u8>>)
    ensures
        parseable_anchors(ders).len() == 0 <==> forall|i: int| 0 <= i < ders.len() ==> (#[trigger] trust_anchor_of(ders[i])) is None,
    decreases ders.len(),
{
    if ders.len() > 0 {
        let rest = ders.drop_last();
        native_store_empty_iff_none_parses(rest);
        assert forall|i: int| 0 <= i < rest.len() implies #[trigger] rest[i] == ders[i] by {}
        if parseable_anchors(ders).len() == 0 {
            assert forall|i: int| 0 <= i < ders.len() implies (#[trigger] trust_anchor_of(ders[i])) is None by {
                if i < rest.len() {
                    assert(rest[i] == ders[i]);
                }
            }
        } else if forall|i: int| 0 <= i < ders.len() ==> (#[trigger] trust_anchor_of(ders[i])) is None {
            assert(trust_anchor_of(ders[ders.len() - 1]) is None);
            assert forall|i: int| 0 <= i < rest.len() implies (#[trigger] trust_anchor_of(rest[i])) is None by {
                assert(trust_anchor_of(ders[i]) is None);
            }
        }
    }
}

/// A root store built from the platform's certificates, with how many of
/// them were taken and how many were passed over as unparseable.
pub struct NativeRoots {
    pub store: RootCertStore,
    pub valid: usize,
    pub invalid: usize,
}

/// Builds a root store from the platform's certificates, passing over those
/// that do not parse; a store left without any anchor is refused.
pub fn native_root_store(ders: &Vec<Vec<u8>>) -> (r: Result<NativeRoots, TlsError>)
    ensures
        r is Ok <==> parseable_anchors(ders.deep_view()).len() > 0,
        r is Err ==> r matches Err(TlsError::EmptyNativeStore),
        r is Ok ==> {
            &&& trust_anchors(r->Ok_0.store) == parseable_anchors(ders.deep_view())
            &&& r->Ok_0.valid == parseable_anchors(ders.deep_view()).len()
            &&& r->Ok_0.valid + r->Ok_0.invalid == ders.len()
        },
{
    let ghost all = ders.deep_view();
    let mut store = empty_root_store();
    let mut valid: usize = 0;
    let mut invalid: usize = 0;
    let mut i: usize = 0;
    while i < ders.len()
        invariant
            all == ders.deep_view(),
            i <= ders.len(),
            trust_anchors(store) == parseable_anchors(all.take(i as int)),
            valid == trust_anchors(store).len(),
            valid + invalid == i,
        decreases ders.len() - i,
    {
        assert(all.take(i + 1).drop_last() =~= all.take(i as int));
        assert(all[i as int] == ders[i as int]@);
        match add_root(&mut store, ders[i].as_slice()) {
            Ok(()) => valid = valid + 1,
            Err(_) => invalid = invalid + 1,
        }
        i = i + 1;
    }
    assert(all.take(ders.len() as int) =~= all);
    if root_store_is_empty(&store) {
        return Err(TlsError::EmptyNativeStore);
    }
    Ok(NativeRoots { store, valid, invalid })
}

/// Builds a root store from every certificate of a PEM bundle; a section that
/// fails to decode, or a certificate that fails to parse, fails the whole
/// store, so that no partial store is ever produced.
pub fn root_store_for_bundle(bundle: &[u8]) -> (r: Result<RootCertStore, TlsError>)
    ensures
        match pem_certificates_of(bundle@) {
            None => r matches Err(TlsError::MalformedPem { .. }),
            Some(ders) => if all_parse(ders) {
                r is Ok && trust_anchors(r->Ok_0) == anchors_of(ders)
            } else {
                r matches Err(TlsError::InvalidCertificate { .. })
            },
        },
{
    let certs = load_certificate_bundle(bundle)?;
    proof {
        if let Some(ders) = pem_certificates_of(bundle@) {
            assert(ders_of(certs@) =~= ders);
        }
    }
    root_store_from_certificates(&certs)
}

/// Builds a root store from the one certificate of the CA file `path`.
pub fn root_store_for_file(path: &str, contents: Vec<u8>) -> (r: Result<RootCertStore, TlsError>)
    ensures
        match encoding_for_extension_spec(path_extension_of(path@)) {
            None => r matches Err(TlsError::UnsupportedExtension),
            Some(CertEncoding::Der) => match trust_anchor_of(contents@) {
                Some(a) => r is Ok && trust_anchors(r->Ok_0) == seq![a],
                None => r matches Err(TlsError::InvalidCertificate { .. }),
            },
            Some(CertEncoding::Pem) => match pem_certificates_of(contents@) {
                None => r matches Err(TlsError::MalformedPem { .. }),
                Some(ders) => if ders.len() != 1 {
                    r matches Err(TlsError::CertificateCount { found }) && found == ders.len()
                } else {
                    match trust_anchor_of(ders[0]) {
                        Some(a) => r is Ok && trust_anchors(r->Ok_0) == seq![a],
                        None => r matches Err(TlsError::InvalidCertificate { .. }),
                    }
                },
            },
        },
{
    let cert = load_ca_certificate(path, contents)?;
    let ghost der = cert.der@;
    let certs = vec![cert];
    let r = root_store_from_certificates(&certs);
    proof {
        assert(ders_of(certs@) =~= seq![der]);
        let one = seq![der];
        assert(one[0] == der);
        if trust_anchor_of(der) is Some {
            assert forall|i: int| 0 <= i < one.len() implies (#[trigger] trust_anchor_of(one[i])) is Some by {
                assert(i == 0);
            }
            assert(anchors_of(one) =~= seq![trust_anchor_of(der)->Some_0]);
        }
    }
    r
}

} // verus!
