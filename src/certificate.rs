use vstd::prelude::*;

use crate::error::TlsError;

verus! {

/// How a certificate was encoded where it was read from.
#[derive(Clone, Copy, Debug, PartialEq, Eq, Structural)]
pub enum CertEncoding {
    Pem,
    Der,
}

pub open spec fn ascii_lower(b: u8) -> u8 {
    if 65 <= b && b <= 90 {
        (b + 32) as u8
    } else {
        b
    }
}

/// Byte strings equal up to ASCII case.
pub open spec fn eq_ignore_ascii_case_spec(a: Seq<u8>, b: Seq<u8>) -> bool {
    a.len() == b.len() && forall|i: int| 0 <= i < a.len() ==> ascii_lower(#[trigger] a[i]) == ascii_lower(b[i])
}

/// Compares two byte strings, ignoring ASCII case.
pub fn eq_ignore_ascii_case(a: &[u8], b: &[u8]) -> (r: bool)
    ensures
        r == eq_ignore_ascii_case_spec(a@, b@),
{
    if a.len() != b.len() {
        return false;
    }
    let mut i: usize = 0;
    while i < a.len()
        invariant
            a@.len() == b@.len(),
            i <= a@.len(),
            forall|j: int| 0 <= j < i ==> ascii_lower(#[trigger] a@[j]) == ascii_lower(b@[j]),
        decreases a@.len() - i,
    {
        let x = a[i];
        let y = b[i];
        let lx: u8 = if 65 <= x && x <= 90 { x + 32 } else { x };
        let ly: u8 = if 65 <= y && y <= 90 { y + 32 } else { y };
        if lx != ly {
            return false;
        }
        i = i + 1;
    }
    true
}

pub open spec fn bytes_opt_view(o: Option<&[u8]>) -> Option<Seq<u8>> {
    match o {
        Some(e) => Some(e@),
        None => None,
    }
}

/// The encoding a certificate file's extension announces, if any.
pub open spec fn encoding_for_extension_spec(ext: Option<Seq<u8>>) -> Option<CertEncoding> {
    match ext {
        Some(e) => if eq_ignore_ascii_case_spec(e, seq![112u8, 101, 109])
            || eq_ignore_ascii_case_spec(e, seq![99u8, 114, 116]) {
            Some(CertEncoding::Pem)
        } else if eq_ignore_ascii_case_spec(e, seq![100u8, 101, 114]) {
            Some(CertEncoding::Der)
        } else {
            None
        },
        None => None,
    }
}

/// The `pem` and `crt` extensions, in any letter case, announce the same
/// encoding, so a file's contents load alike under either.
pub proof fn pem_and_crt_extensions_agree(e1: Seq<u8>, e2: Seq<u8>)
    requires
        eq_ignore_ascii_case_spec(e1, seq![112u8, 101, 109]) || eq_ignore_ascii_case_spec(e1, seq![99u8, 114, 116]),
        eq_ignore_ascii_case_spec(e2, seq![112u8, 101, 109]) || eq_ignore_ascii_case_spec(e2, seq![99u8, 114, 116]),
    ensures
        encoding_for_extension_spec(Some(e1)) == Some(CertEncoding::Pem),
        encoding_for_extension_spec(Some(e1)) == encoding_for_extension_spec(Some(e2)),
{
}

/// Maps a file extension to a certificate encoding: `pem` and `crt` are PEM,
/// `der` is DER, in any letter case; anything else is refused.
pub fn encoding_for_extension(ext: Option<&[u8]>) -> (r: Result<CertEncoding, TlsError>)
    ensures
        match encoding_for_extension_spec(bytes_opt_view(ext)) {
            Some(enc) => r == Ok::<CertEncoding, TlsError>(enc),
            None => r matches Err(TlsError::UnsupportedExtension),
        },
{
    match ext {
        Some(e) => {
            let pem: [u8; 3] = [112u8, 101, 109];
            let crt: [u8; 3] = [99u8, 114, 116];
            let der: [u8; 3] = [100u8, 101, 114];
            assert(pem@ =~= seq![112u8, 101, 109]);
            assert(crt@ =~= seq![99u8, 114, 116]);
            assert(der@ =~= seq![100u8, 101, 114]);
            if eq_ignore_ascii_case(e, pem.as_slice()) || eq_ignore_ascii_case(e, crt.as_slice()) {
                Ok(CertEncoding::Pem)
            } else if eq_ignore_ascii_case(e, der.as_slice()) {
                Ok(CertEncoding::Der)
            } else {
                Err(TlsError::UnsupportedExtension)
            }
        },
        None => Err(TlsError::UnsupportedExtension),
    }
}

#[verifier::external_type_specification]
#[verifier::external_body]
pub struct ExIoError(std::io::Error);

/// A certificate in DER form, tagged with the encoding it was read in.
#[derive(Clone, Debug)]
pub struct Certificate {
    pub der: Vec<u8>,
    pub encoding: CertEncoding,
}

/// The extension of a path's file name, under the path syntax of the target
/// the library is built for: the bytes after its final dot, or nothing where
/// the name has no such part.
pub uninterp spec fn path_extension_of(path: Seq<char>) -> Option<Seq<u8>>;

/// The DER contents of each CERTIFICATE section of a PEM text, in order, with
/// other kinds of section passed over; nothing where a section fails to decode.
pub uninterp spec fn pem_certificates_of(pem: Seq<u8>) -> Option<Seq<Seq<u8>>>;

pub open spec fn vec_opt_view(o: Option<Vec<u8>>) -> Option<Seq<u8>> {
    match o {
        Some(e) => Some(e@),
        None => None,
    }
}

/// Relies on std::path::Path::extension for the extension of the file name.
#[verifier::external_body]
fn path_extension(path: &str) -> (r: Option<Vec<u8>>)
    ensures
        vec_opt_view(r) == path_extension_of(path@),
{
    std::path::Path::new(path).extension().map(|e| e.as_encoded_bytes().to_vec())
}

/// Relies on rustls_pemfile::certs for splitting PEM text into certificates;
/// the first section that fails to decode ends the reading with its error.
#[verifier::external_body]
fn pem_certificates(pem: &[u8]) -> (r: Result<Vec<Vec<u8>>, std::io::Error>)
    ensures
        match pem_certificates_of(pem@) {
            Some(certs) => r is Ok && r->Ok_0.deep_view() == certs,
            None => r is Err,
        },
{
    let mut rd: &[u8] = pem;
    rustls_pemfile::certs(&mut rd).map(|c| c.map(|d| d.to_vec())).collect()
}

/// The encoding announced by the extension of `path`.
pub fn encoding_for_path(path: &str) -> (r: Result<CertEncoding, TlsError>)
    ensures
        match encoding_for_extension_spec(path_extension_of(path@)) {
            Some(enc) => r == Ok::<CertEncoding, TlsError>(enc),
            None => r matches Err(TlsError::UnsupportedExtension),
        },
{
    let ext = path_extension(path);
    match ext {
        Some(e) => encoding_for_extension(Some(e.as_slice())),
        None => encoding_for_extension(None),
    }
}

/// Decodes the contents of a single-certificate CA file named `path`: a `der`
/// file is taken as it is; a `pem` or `crt` file must hold exactly one
/// certificate.
pub fn load_ca_certificate(path: &str, contents: Vec<u8>) -> (r: Result<Certificate, TlsError>)
    ensures
        match encoding_for_extension_spec(path_extension_of(path@)) {
            None => r matches Err(TlsError::UnsupportedExtension),
            Some(CertEncoding::Der) => r is Ok && r->Ok_0.der@ == contents@
                && r->Ok_0.encoding == CertEncoding::Der,
            Some(CertEncoding::Pem) => match pem_certificates_of(contents@) {
                None => r matches Err(TlsError::MalformedPem { .. }),
                Some(certs) => if certs.len() == 1 {
                    r is Ok && r->Ok_0.der@ == certs[0] && r->Ok_0.encoding == CertEncoding::Pem
                } else {
                    r matches Err(TlsError::CertificateCount { found }) && found == certs.len()
                },
            },
        },
{
    match encoding_for_path(path) {
        Err(e) => Err(e),
        Ok(CertEncoding::Der) => Ok(Certificate { der: contents, encoding: CertEncoding::Der }),
        Ok(CertEncoding::Pem) => match pem_certificates(contents.as_slice()) {
            Err(e) => Err(TlsError::MalformedPem { message: e.to_string() }),
            Ok(mut certs) => {
                if certs.len() != 1 {
                    return Err(TlsError::CertificateCount { found: certs.len() });
                }
                let ghost all = certs.deep_view();
                match certs.pop() {
                    Some(der) => {
                        assert(der@ == all[0]);
                        Ok(Certificate { der, encoding: CertEncoding::Pem })
                    },
                    None => Err(TlsError::CertificateCount { found: 0 }),
                }
            },
        },
    }
}

/// Decodes every certificate of a PEM bundle, in order; a section that fails
/// to decode fails the whole bundle.
pub fn load_certificate_bundle(bundle: &[u8]) -> (r: Result<Vec<Certificate>, TlsError>)
    ensures
        match pem_certificates_of(bundle@) {
            None => r matches Err(TlsError::MalformedPem { .. }),
            Some(certs) => r is Ok && r->Ok_0.len() == certs.len()
                && forall|i: int| 0 <= i < certs.len() ==> {
                    &&& (#[trigger] r->Ok_0[i]).der@ == certs[i]
                    &&& r->Ok_0[i].encoding == CertEncoding::Pem
                },
        },
{
    match pem_certificates(bundle) {
        Err(e) => Err(TlsError::MalformedPem { message: e.to_string() }),
        Ok(ders) => {
            let ghost all = ders.deep_view();
            let mut out: Vec<Certificate> = Vec::new();
            let mut i: usize = 0;
            while i < ders.len()
                invariant
                    all == ders.deep_view(),
                    i <= ders.len(),
                    out.len() == i,
                    forall|j: int| 0 <= j < i ==> {
                        &&& (#[trigger] out@[j]).der@ == all[j]
                        &&& out@[j].encoding == CertEncoding::Pem
                    },
                decreases ders.len() - i,
            {
                let der = ders[i].clone();
                assert(der@ == all[i as int]);
                out.push(Certificate { der, encoding: CertEncoding::Pem });
                i = i + 1;
            }
            Ok(out)
        },
    }
}

} // verus!
