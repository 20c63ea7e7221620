//! Hot reloading of a TLS server's certificates and private keys.
//!
//! A [`loader`] turns the PEM bytes of a certificate chain and of a private
//! key into a validated [`loader::CertificateKeyPair`]. A
//! [`watched::CertifiedKeyWatched`] keeps one such pair current as its files
//! change, keeping the previous pair whenever a new reading does not load. An
//! [`identities::CertifiedKeysWatched`] selects among several identities by the
//! server name that a client presents.

pub mod error;
pub mod identities;
pub mod loader;
pub mod provider;
pub mod tls;
pub mod watched;

