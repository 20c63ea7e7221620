use vstd::prelude::*;

use std::sync::Arc;

use crate::error::{Artifact, LoadError};
use crate::loader::{load_pair, load_spec, loaded_view, pair_is_consistent, CertificateKeyPair, PairView};

verus! {

/// The model of a watched pair: the two paths it reloads from and the pair
/// that handshakes are currently given.
pub ghost struct WatchedView {
    pub cert_path: Seq<char>,
    pub key_path: Seq<char>,
    pub current: PairView,
}

/// What one reload attempt did.
#[derive(Clone, Copy, Debug, PartialEq, Eq, Structural)]
pub enum ReloadReport {
    /// A new pair was validated and now serves handshakes.
    Published,
    /// The attempt failed; the previous pair still serves handshakes.
    Kept(LoadError),
}

/// How loudly a reload attempt is to be logged.
#[derive(Clone, Copy, Debug, PartialEq, Eq, Structural)]
pub enum Severity {
    Debug,
    Info,
    Warn,
}

/// When each of an identity's two files was last seen modified, in
/// nanoseconds since the epoch; `None` where a file could not be looked at.
#[derive(Clone, Copy, Debug, PartialEq, Eq, Structural)]
pub struct FileStamps {
    pub cert: Option<u128>,
    pub key: Option<u128>,
}

impl FileStamps {
    /// Records a new look at the files. True where either file changed, was
    /// created or went away since the last look: that calls for a reload.
    pub fn observe(&mut self, now: FileStamps) -> (changed: bool)
        ensures
            changed == (now != *old(self)),
            *final(self) == now,
    {
        let changed = now != *self;
        *self = now;
        changed
    }
}

/// The outcome of loading a pair from what was read from storage, where `None`
/// stands for an artifact that could not be read; `served` tells whether the
/// random source served the TLS library (see `certify_stage`).
pub open spec fn read_and_load(cert: Option<Seq<u8>>, key: Option<Seq<u8>>, served: bool) -> Result<PairView, LoadError> {
    match cert {
        None => Err(LoadError::Io(Artifact::Certificate)),
        Some(c) => match key {
            None => Err(LoadError::Io(Artifact::PrivateKey)),
            Some(k) => load_spec(c, k, served),
        },
    }
}

/// The model of what was read of one artifact.
pub open spec fn read_view(r: Option<&[u8]>) -> Option<Seq<u8>> {
    match r {
        Some(b) => Some(b@),
        None => None,
    }
}

/// Publishing the outcome of a load: the freshly loaded pair replaces the
/// current one, or a failure keeps it.
pub open spec fn apply_step(s: WatchedView, outcome: Result<PairView, LoadError>) -> (WatchedView, ReloadReport) {
    match outcome {
        Ok(p) => (WatchedView { current: p, ..s }, ReloadReport::Published),
        Err(e) => (s, ReloadReport::Kept(e)),
    }
}

/// One reload from what was read from storage.
pub open spec fn reload_step(s: WatchedView, cert: Option<Seq<u8>>, key: Option<Seq<u8>>, served: bool) -> (WatchedView, ReloadReport) {
    apply_step(s, read_and_load(cert, key, served))
}

/// A routine mismatch (one of the two files rewritten before the other) is
/// quiet; a malformed or unreadable artifact is a warning.
pub open spec fn severity_of(r: ReloadReport) -> Severity {
    match r {
        ReloadReport::Published => Severity::Info,
        ReloadReport::Kept(LoadError::KeyMismatch) => Severity::Debug,
        ReloadReport::Kept(_) => Severity::Warn,
    }
}

impl ReloadReport {
    /// How loudly this attempt is to be logged.
    pub fn severity(&self) -> (r: Severity)
        ensures
            r == severity_of(*self),
    {
        match self {
            ReloadReport::Published => Severity::Info,
            ReloadReport::Kept(LoadError::KeyMismatch) => Severity::Debug,
            ReloadReport::Kept(_) => Severity::Warn,
        }
    }
}

/// Loads a pair from what was read from storage; `None` stands for an artifact
/// that could not be read.
pub fn load_files(cert: Option<&[u8]>, key: Option<&[u8]>) -> (r: Result<CertificateKeyPair, LoadError>)
    ensures
        loaded_view(r) == read_and_load(read_view(cert), read_view(key), true) || loaded_view(r) == read_and_load(read_view(cert), read_view(key), false),
        r matches Ok(p) ==> pair_is_consistent(p@),
{
    match cert {
        None => Err(LoadError::Io(Artifact::Certificate)),
        Some(c) => match key {
            None => Err(LoadError::Io(Artifact::PrivateKey)),
            Some(k) => load_pair(c, k),
        },
    }
}

/// One certificate/key identity that is reloaded whenever its files change.
/// The pair it serves is always one that passed the loader.
pub struct CertifiedKeyWatched {
    cert_path: String,
    key_path: String,
    current: Arc<CertificateKeyPair>,
}

impl View for CertifiedKeyWatched {
    type V = WatchedView;

    closed spec fn view(&self) -> WatchedView {
        WatchedView { cert_path: self.cert_path@, key_path: self.key_path@, current: self.current@ }
    }
}

impl CertifiedKeyWatched {
    /// Makes the identity from the first reading of its two files; fails where
    /// that reading does not give a valid pair, as there is nothing to fall back to.
    pub fn new(key_path: String, cert_path: String, cert: Option<&[u8]>, key: Option<&[u8]>) -> (r: Result<Self, LoadError>)
        ensures
            watched_view(r) == watched_from(cert_path@, key_path@, read_and_load(read_view(cert), read_view(key), true))
                || watched_view(r) == watched_from(cert_path@, key_path@, read_and_load(read_view(cert), read_view(key), false)),
            r matches Ok(w) ==> pair_is_consistent(w@.current),
    {
        match load_files(cert, key) {
            Ok(pair) => {
                pair.reveal_consistency();
                Ok(CertifiedKeyWatched { cert_path, key_path, current: Arc::new(pair) })
            },
            Err(e) => Err(e),
        }
    }

    /// The pair that handshakes are given now.
    pub fn current_snapshot(&self) -> (r: Arc<CertificateKeyPair>)
        ensures
            r@ == self@.current,
            pair_is_consistent(r@),
    {
        self.current.reveal_consistency();
        self.current.clone()
    }

    /// The path of the certificate chain file.
    pub fn cert_path(&self) -> (r: &String)
        ensures
            r@ == self@.cert_path,
    {
        &self.cert_path
    }

    /// The path of the private key file.
    pub fn key_path(&self) -> (r: &String)
        ensures
            r@ == self@.key_path,
    {
        &self.key_path
    }

    /// Publishes the outcome of a load done beforehand: a new pair replaces
    /// the current one, a failure keeps it.
    pub fn apply(&mut self, outcome: Result<CertificateKeyPair, LoadError>) -> (r: ReloadReport)
        ensures
            (final(self)@, r) == apply_step(old(self)@, loaded_view(outcome)),
    {
        match outcome {
            Ok(pair) => {
                self.current = Arc::new(pair);
                ReloadReport::Published
            },
            Err(e) => ReloadReport::Kept(e),
        }
    }

    /// Handles a change of either file, given both files as read now: publishes
    /// the new pair if it loads, else keeps the current one.
    pub fn reload(&mut self, cert: Option<&[u8]>, key: Option<&[u8]>) -> (r: ReloadReport)
        ensures
            (final(self)@, r) == reload_step(old(self)@, read_view(cert), read_view(key), true)
                || (final(self)@, r) == reload_step(old(self)@, read_view(cert), read_view(key), false),
            r is Kept ==> final(self)@ == old(self)@,
            pair_is_consistent(final(self)@.current),
    {
        let outcome = load_files(cert, key);
        let r = self.apply(outcome);
        self.current.reveal_consistency();
        r
    }
}

/// The model of a construction's result.
pub open spec fn watched_view(r: Result<CertifiedKeyWatched, LoadError>) -> Result<WatchedView, LoadError> {
    match r {
        Ok(w) => Ok(w@),
        Err(e) => Err(e),
    }
}

/// The identity that a first load makes, or its failure.
pub open spec fn watched_from(cert_path: Seq<char>, key_path: Seq<char>, outcome: Result<PairView, LoadError>) -> Result<WatchedView, LoadError> {
    match outcome {
        Ok(p) => Ok(WatchedView { cert_path, key_path, current: p }),
        Err(e) => Err(e),
    }
}

/// Reloading from the very bytes that the current pair was loaded from
/// leaves the identity as it was, whatever the random source does, and
/// succeeds where it serves the TLS library.
pub proof fn lemma_reload_idempotent(s: WatchedView, cert: Seq<u8>, key: Seq<u8>, served: bool)
    requires
        read_and_load(Some(cert), Some(key), true) is Ok,
    ensures
        ({
            let s1 = reload_step(s, Some(cert), Some(key), true).0;
            let (s2, r) = reload_step(s1, Some(cert), Some(key), served);
            &&& s2 == s1
            &&& served ==> r == ReloadReport::Published
        }),
{
}

/// A new key beside the old certificate changes nothing, whatever the random
/// source does, and is reported as a mismatch where it serves; once the
/// matching certificate is written too, the new pair is published.
pub proof fn lemma_partial_update(s: WatchedView, old_cert: Seq<u8>, new_cert: Seq<u8>, new_key: Seq<u8>, served: bool)
    requires
        read_and_load(Some(old_cert), Some(new_key), true) == Err::<PairView, LoadError>(LoadError::KeyMismatch),
        read_and_load(Some(new_cert), Some(new_key), true) is Ok,
    ensures
        reload_step(s, Some(old_cert), Some(new_key), served).0 == s,
        reload_step(s, Some(old_cert), Some(new_key), served).1 is Kept,
        reload_step(s, Some(old_cert), Some(new_key), true).1 == ReloadReport::Kept(LoadError::KeyMismatch),
        severity_of(ReloadReport::Kept(LoadError::KeyMismatch)) == Severity::Debug,
        ({
            let (s2, r2) = reload_step(s, Some(new_cert), Some(new_key), true);
            &&& r2 == ReloadReport::Published
            &&& Ok::<PairView, LoadError>(s2.current) == read_and_load(Some(new_cert), Some(new_key), true)
            &&& s2.cert_path == s.cert_path
            &&& s2.key_path == s.key_path
        }),
{
}

} // verus!
