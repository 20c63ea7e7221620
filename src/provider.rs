use vstd::prelude::*;

use rustls::crypto::CryptoProvider;

verus! {

/// Relies on `CryptoProvider::get_default` of rustls: whether a process-wide
/// provider has been installed. It is process state, so nothing is promised.
#[verifier::external_body]
fn provider_installed() -> bool {
    CryptoProvider::get_default().is_some()
}

/// Relies on `CryptoProvider::install_default` of rustls, given the ring
/// provider: it installs it unless a provider is already installed, and never
/// panics. Whether this call installed it is process state: nothing is promised.
#[verifier::external_body]
fn install_ring_provider() -> bool {
    rustls::crypto::ring::default_provider().install_default().is_ok()
}

/// Makes sure that a process-wide crypto provider is installed, installing
/// the ring provider where none is. Calling it again, or after another part
/// of the process installed a provider, does nothing.
pub fn install_crypto_provider() {
    if !provider_installed() {
        // Another thread may have installed one in between: that is no error.
        let _ = install_ring_provider();
    }
}

} // verus!
