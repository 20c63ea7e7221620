use vstd::prelude::*;

use std::sync::Arc;

use rustls::sign::CertifiedKey;

use crate::error::{Artifact, LoadError};
use crate::tls::{
    certify, certify_outcome, key_list_view, parse_certificates, parse_private_keys,
    pem_certificates, pem_private_keys, CertifyError, KeyFormat, KeyMaterial,
};

verus! {

/// The model of a certificate/key pair: the DER chain, leaf first, and the key.
pub ghost struct PairView {
    pub chain: Seq<Seq<u8>>,
    pub key: (KeyFormat, Seq<u8>),
}

/// A pair that the TLS library can present: a non-empty chain whose leaf
/// certificate the key signs for.
pub open spec fn pair_is_consistent(p: PairView) -> bool {
    &&& p.chain.len() > 0
    &&& certify_outcome(p.chain, p.key.0, p.key.1) is Ok
}

/// What parsing the certificate file must give: at least one certificate.
pub open spec fn chain_verdict(parsed: Option<Seq<Seq<u8>>>) -> Result<Seq<Seq<u8>>, LoadError> {
    match parsed {
        Some(c) => if c.len() > 0 {
            Ok(c)
        } else {
            Err(LoadError::Parse(Artifact::Certificate))
        },
        None => Err(LoadError::Parse(Artifact::Certificate)),
    }
}

/// What parsing the key file must give: exactly one private key.
pub open spec fn key_verdict(parsed: Option<Seq<(KeyFormat, Seq<u8>)>>) -> Result<(KeyFormat, Seq<u8>), LoadError> {
    match parsed {
        Some(k) => if k.len() == 1 {
            Ok(k[0])
        } else {
            Err(LoadError::Parse(Artifact::PrivateKey))
        },
        None => Err(LoadError::Parse(Artifact::PrivateKey)),
    }
}

/// The load error that a refusal of the TLS library stands for.
pub open spec fn certify_verdict(e: CertifyError) -> LoadError {
    match e {
        CertifyError::KeyUnsupported => LoadError::Parse(Artifact::PrivateKey),
        CertifyError::CertificateRejected => LoadError::Parse(Artifact::Certificate),
        CertifyError::KeyMismatch => LoadError::KeyMismatch,
    }
}

/// The TLS library's verdict on a chain and a key. `served` tells whether the
/// system's random source served the call: where it did not, a key that needs
/// it (any but a PKCS#1 RSA key) is refused as unsupported.
pub open spec fn certify_stage(chain: Seq<Seq<u8>>, key: (KeyFormat, Seq<u8>), served: bool) -> Result<(), CertifyError> {
    if served || key.0 == KeyFormat::Pkcs1 {
        certify_outcome(chain, key.0, key.1)
    } else {
        Err(CertifyError::KeyUnsupported)
    }
}

/// The outcome of loading a pair from the bytes of a certificate file and of a
/// key file: the certificate file is checked first, then the key file, then
/// whether the key belongs to the leaf certificate. `served` is as in
/// `certify_stage`.
pub open spec fn load_spec(cert_pem: Seq<u8>, key_pem: Seq<u8>, served: bool) -> Result<PairView, LoadError> {
    match chain_verdict(pem_certificates(cert_pem)) {
        Err(e) => Err(e),
        Ok(chain) => match key_verdict(pem_private_keys(key_pem)) {
            Err(e) => Err(e),
            Ok(key) => match certify_stage(chain, key, served) {
                Ok(_) => Ok(PairView { chain, key }),
                Err(e) => Err(certify_verdict(e)),
            },
        },
    }
}

/// An immutable, validated certificate chain with its private signing key.
/// No value of this type exists whose key does not match its leaf certificate.
pub struct CertificateKeyPair {
    chain: Vec<Vec<u8>>,
    key: Ghost<(KeyFormat, Seq<u8>)>,
    certified: Arc<CertifiedKey>,
}

impl View for CertificateKeyPair {
    type V = PairView;

    closed spec fn view(&self) -> PairView {
        PairView { chain: self.chain.deep_view(), key: self.key@ }
    }
}

/// The model of a load's result.
pub open spec fn loaded_view(r: Result<CertificateKeyPair, LoadError>) -> Result<PairView, LoadError> {
    match r {
        Ok(p) => Ok(p@),
        Err(e) => Err(e),
    }
}

impl CertificateKeyPair {
    #[verifier::type_invariant]
    closed spec fn consistent(self) -> bool {
        pair_is_consistent(self@)
    }

    /// The chain is non-empty and its leaf is signed for by the key.
    pub(crate) fn reveal_consistency(&self)
        ensures
            pair_is_consistent(self@),
    {
        proof {
            use_type_invariant(self);
        }
    }

    /// The certificate chain in DER, leaf first.
    pub fn chain(&self) -> (r: &Vec<Vec<u8>>)
        ensures
            r.deep_view() == self@.chain,
    {
        &self.chain
    }

    /// The leaf certificate in DER.
    pub fn leaf_certificate(&self) -> (r: &Vec<u8>)
        ensures
            r@ == self@.chain[0],
    {
        proof {
            use_type_invariant(self);
        }
        &self.chain[0]
    }

    /// The TLS library's object for this pair, as handed to a handshake.
    pub fn certified_key(&self) -> Arc<CertifiedKey> {
        self.certified.clone()
    }
}

/// Judges the result of parsing the certificate file.
pub fn check_chain(parsed: Option<Vec<Vec<u8>>>) -> (r: Result<Vec<Vec<u8>>, LoadError>)
    ensures
        chain_verdict(parsed.deep_view()) == (match r {
            Ok(c) => Ok(c.deep_view()),
            Err(e) => Err(e),
        }),
{
    match parsed {
        Some(c) => if c.len() > 0 {
            Ok(c)
        } else {
            Err(LoadError::Parse(Artifact::Certificate))
        },
        None => Err(LoadError::Parse(Artifact::Certificate)),
    }
}

/// Judges the result of parsing the key file.
pub fn check_keys(parsed: Option<Vec<KeyMaterial>>) -> (r: Result<KeyMaterial, LoadError>)
    ensures
        key_verdict(key_list_view(parsed)) == (match r {
            Ok(k) => Ok(k@),
            Err(e) => Err(e),
        }),
{
    match parsed {
        Some(mut k) => if k.len() == 1 {
            let key = k.pop().unwrap();
            Ok(key)
        } else {
            Err(LoadError::Parse(Artifact::PrivateKey))
        },
        None => Err(LoadError::Parse(Artifact::PrivateKey)),
    }
}

/// The load error that a refusal of the TLS library stands for.
pub fn certify_error_kind(e: CertifyError) -> (r: LoadError)
    ensures
        r == certify_verdict(e),
{
    match e {
        CertifyError::KeyUnsupported => LoadError::Parse(Artifact::PrivateKey),
        CertifyError::CertificateRejected => LoadError::Parse(Artifact::Certificate),
        CertifyError::KeyMismatch => LoadError::KeyMismatch,
    }
}

/// Parses and cross-checks a PEM certificate chain and a PEM private key.
/// Every check before the TLS library's is exact; the library's verdict is
/// the one it gives when the random source serves it, or else a refusal of
/// the key (see `certify_stage`).
pub fn load_pair(cert_pem: &[u8], key_pem: &[u8]) -> (r: Result<CertificateKeyPair, LoadError>)
    ensures
        loaded_view(r) == load_spec(cert_pem@, key_pem@, true) || loaded_view(r) == load_spec(cert_pem@, key_pem@, false),
        cert_pem@.len() == 0 ==> r matches Err(LoadError::Parse(Artifact::Certificate)),
        chain_verdict(pem_certificates(cert_pem@)) is Ok && key_pem@.len() == 0 ==> r matches Err(LoadError::Parse(Artifact::PrivateKey)),
        r matches Ok(p) ==> pair_is_consistent(p@),
{
    let chain = match check_chain(parse_certificates(cert_pem)) {
        Ok(c) => c,
        Err(e) => return Err(e),
    };
    let key = match check_keys(parse_private_keys(key_pem)) {
        Ok(k) => k,
        Err(e) => return Err(e),
    };
    match certify(&chain, &key) {
        Ok(certified) => {
            let pair = CertificateKeyPair { chain, key: Ghost(key@), certified: Arc::new(certified) };
            Ok(pair)
        },
        Err(e) => Err(certify_error_kind(e)),
    }
}

/// Where the key file holds an RSA key in PKCS#1 form, the random source plays
/// no part: a load has exactly one outcome.
pub proof fn lemma_pkcs1_load_is_determined(cert_pem: Seq<u8>, key_pem: Seq<u8>)
    requires
        key_verdict(pem_private_keys(key_pem)) matches Ok(k) && k.0 == KeyFormat::Pkcs1,
    ensures
        load_spec(cert_pem, key_pem, true) == load_spec(cert_pem, key_pem, false),
{
}

} // verus!
