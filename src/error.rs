use vstd::prelude::*;

verus! {

/// Which of the two artifacts of an identity a failure concerns.
#[derive(Clone, Copy, Debug, PartialEq, Eq, Structural)]
pub enum Artifact {
    Certificate,
    PrivateKey,
}

/// Why a certificate/key pair could not be loaded.
#[derive(Clone, Copy, Debug, PartialEq, Eq, Structural)]
pub enum LoadError {
    /// The artifact could not be read from storage.
    Io(Artifact),
    /// The artifact is not well-formed PEM, or holds nothing usable.
    Parse(Artifact),
    /// Both artifacts parsed, but the key does not belong to the leaf certificate.
    KeyMismatch,
}

/// A configuration that cannot be served.
#[derive(Clone, Debug, PartialEq, Eq)]
pub enum ConfigError {
    /// No identity was configured.
    EmptyBundleList,
    /// Two identities share this server name.
    DuplicateServerName(String),
}

/// Why a set of identities could not be built.
#[derive(Clone, Debug, PartialEq, Eq)]
pub enum Error {
    /// The configuration itself is unusable; nothing was loaded.
    Configuration(ConfigError),
    /// The identity of this server name could not be loaded.
    Load { server_name: String, error: LoadError },
}

} // verus!
