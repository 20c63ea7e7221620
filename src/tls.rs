use vstd::prelude::*;

use rustls::pki_types::pem::PemObject;
use rustls::pki_types::{CertificateDer, PrivateKeyDer};
use rustls::sign::CertifiedKey;

verus! {

/// The DER encoding of a private key, with the PEM section it came from.
#[derive(Clone, Copy, Debug, PartialEq, Eq, Structural)]
pub enum KeyFormat {
    /// `RSA PRIVATE KEY`
    Pkcs1,
    /// `EC PRIVATE KEY`
    Sec1,
    /// `PRIVATE KEY`
    Pkcs8,
}

/// A private key as found in a PEM file: its format and its DER bytes.
#[derive(Clone)]
pub struct KeyMaterial {
    pub format: KeyFormat,
    pub der: Vec<u8>,
}

impl View for KeyMaterial {
    type V = (KeyFormat, Seq<u8>);

    open spec fn view(&self) -> (KeyFormat, Seq<u8>) {
        (self.format, self.der@)
    }
}

/// How the TLS library turned down a chain and a key.
#[derive(Clone, Copy, Debug, PartialEq, Eq, Structural)]
pub enum CertifyError {
    /// No signing key of a supported algorithm could be made from the key.
    KeyUnsupported,
    /// The leaf certificate could not be read.
    CertificateRejected,
    /// The key's public half differs from the leaf certificate's.
    KeyMismatch,
}

/// The model of a parsed key list.
pub open spec fn key_list_view(parsed: Option<Vec<KeyMaterial>>) -> Option<Seq<(KeyFormat, Seq<u8>)>> {
    match parsed {
        Some(v) => Some(v@.map_values(|k: KeyMaterial| k@)),
        None => None,
    }
}

#[verifier::external_type_specification]
#[verifier::external_body]
pub struct ExCertifiedKey(CertifiedKey);

/// The DER certificates of every `CERTIFICATE` section of a PEM text, in order,
/// or `None` where the text is not well-formed PEM.
pub uninterp spec fn pem_certificates(pem: Seq<u8>) -> Option<Seq<Seq<u8>>>;

/// The private keys of every key section of a PEM text, in order, or `None`
/// where the text is not well-formed PEM.
pub uninterp spec fn pem_private_keys(pem: Seq<u8>) -> Option<Seq<(KeyFormat, Seq<u8>)>>;

/// What the TLS library's ring provider makes of a chain and a key when the
/// system's random source serves it: success, or the reason it refused them.
pub uninterp spec fn certify_outcome(chain: Seq<Seq<u8>>, format: KeyFormat, der: Seq<u8>) -> Result<(), CertifyError>;

/// Relies on `CertificateDer::pem_slice_iter` of rustls-pki-types: it yields each
/// `CERTIFICATE` section in order, skips sections of other kinds, and yields an
/// error where the text is malformed; the result depends on the bytes alone,
/// and empty bytes hold no section.
#[verifier::external_body]
pub(crate) fn parse_certificates(pem: &[u8]) -> (r: Option<Vec<Vec<u8>>>)
    ensures
        r.deep_view() == pem_certificates(pem@),
        pem@.len() == 0 ==> r.deep_view() == Some(Seq::<Seq<u8>>::empty()),
{
    CertificateDer::pem_slice_iter(pem)
        .map(|c| c.map(|c| c.as_ref().to_vec()))
        .collect::<Result<Vec<Vec<u8>>, _>>()
        .ok()
}

/// Relies on `PrivateKeyDer::pem_slice_iter` of rustls-pki-types: it yields each
/// PKCS#1, SEC1 or PKCS#8 key section in order, skips sections of other kinds,
/// and yields an error where the text is malformed; the result depends on the
/// bytes alone; empty bytes hold no section. A key variant that this crate
/// does not know counts as malformed.
#[verifier::external_body]
pub(crate) fn parse_private_keys(pem: &[u8]) -> (r: Option<Vec<KeyMaterial>>)
    ensures
        pem_private_keys(pem@) == key_list_view(r),
        pem@.len() == 0 ==> key_list_view(r) == Some(Seq::<(KeyFormat, Seq<u8>)>::empty()),
{
    PrivateKeyDer::pem_slice_iter(pem)
        .map(|k| match k.ok()? {
            PrivateKeyDer::Pkcs1(k) => Some(KeyMaterial { format: KeyFormat::Pkcs1, der: k.secret_pkcs1_der().to_vec() }),
            PrivateKeyDer::Sec1(k) => Some(KeyMaterial { format: KeyFormat::Sec1, der: k.secret_sec1_der().to_vec() }),
            PrivateKeyDer::Pkcs8(k) => Some(KeyMaterial { format: KeyFormat::Pkcs8, der: k.secret_pkcs8_der().to_vec() }),
            _ => None,
        })
        .collect()
}

/// The verdict carried by a result of `certify`.
pub open spec fn certify_view(r: Result<CertifiedKey, CertifyError>) -> Result<(), CertifyError> {
    match r {
        Ok(_) => Ok(()),
        Err(e) => Err(e),
    }
}

/// Relies on `CertifiedKey::from_der` of rustls with its ring provider: it loads
/// the key as an RSA, ECDSA or EdDSA signing key (else `Error::General`), reads
/// the leaf certificate (else `NoCertificatesPresented` or `InvalidCertificate`),
/// and refuses a key whose public half differs from the leaf's
/// (`InconsistentKeys`). Loading an ECDSA key draws from the system's random
/// source and fails where that draw fails, which comes out as
/// `Error::General`; a PKCS#1 key is an RSA key, whose loading draws nothing.
#[verifier::external_body]
pub(crate) fn certify(chain: &Vec<Vec<u8>>, key: &KeyMaterial) -> (r: Result<CertifiedKey, CertifyError>)
    ensures
        certify_view(r) == Err::<(), CertifyError>(CertifyError::KeyUnsupported) || certify_view(r) == certify_outcome(chain.deep_view(), key.format, key.der@),
        key.format == KeyFormat::Pkcs1 ==> certify_view(r) == certify_outcome(chain.deep_view(), key.format, key.der@),
{
    let der = key.der.clone();
    let key = match key.format {
        KeyFormat::Pkcs1 => PrivateKeyDer::Pkcs1(der.into()),
        KeyFormat::Sec1 => PrivateKeyDer::Sec1(der.into()),
        KeyFormat::Pkcs8 => PrivateKeyDer::Pkcs8(der.into()),
    };
    let chain = chain.iter().map(|c| CertificateDer::from(c.clone())).collect();
    CertifiedKey::from_der(chain, key, &rustls::crypto::ring::default_provider()).map_err(|e| match e {
        rustls::Error::General(_) => CertifyError::KeyUnsupported,
        rustls::Error::InconsistentKeys(_) => CertifyError::KeyMismatch,
        _ => CertifyError::CertificateRejected,
    })
}

} // verus!
