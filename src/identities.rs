use vstd::prelude::*;

use std::sync::Arc;

use vstd::string::StringSliceAdditionalSpecFns;

use crate::error::{ConfigError, Error, LoadError};
use crate::loader::{pair_is_consistent, CertificateKeyPair, PairView};
use crate::loader::loaded_view;
use crate::watched::{
    apply_step, load_files, read_and_load, read_view, reload_step, watched_from, watched_view, CertifiedKeyWatched,
    ReloadReport, WatchedView,
};

verus! {

/// One configured identity: the server name it answers to and the files of
/// its certificate chain and private key. Server names match exactly; a
/// wildcard name must be listed for each host it is to serve.
#[derive(Clone, Debug)]
pub struct BundleCert {
    pub sni: String,
    pub cert_path: String,
    pub key_path: String,
}

/// What was read of one identity's two files; `None` stands for a file that
/// could not be read.
#[derive(Clone)]
pub struct PairFiles {
    pub cert: Option<Vec<u8>>,
    pub key: Option<Vec<u8>>,
}

/// The model of what was read of a file.
pub open spec fn bytes_view(b: Option<Vec<u8>>) -> Option<Seq<u8>> {
    match b {
        Some(v) => Some(v@),
        None => None,
    }
}

/// The outcome of loading one identity from what was read of its files;
/// `served` is as in `read_and_load`.
pub open spec fn files_outcome(f: PairFiles, served: bool) -> Result<PairView, LoadError> {
    read_and_load(bytes_view(f.cert), bytes_view(f.key), served)
}

/// No two bundles before index `j` share a server name.
pub open spec fn distinct_before(b: Seq<BundleCert>, j: int) -> bool {
    forall|x: int, y: int| 0 <= x < y < j ==> b[x].sni@ != b[y].sni@
}

/// The bundle at `j` is the first one whose server name was already used.
pub open spec fn first_repeat_at(b: Seq<BundleCert>, j: int) -> bool {
    &&& 0 <= j < b.len()
    &&& distinct_before(b, j)
    &&& exists|x: int| 0 <= x < j && b[x].sni@ == b[j].sni@
}

/// A bundle list that can be served: non-empty, with distinct server names.
pub open spec fn config_valid(b: Seq<BundleCert>) -> bool {
    b.len() > 0 && distinct_before(b, b.len() as int)
}

/// The identity at `i` is the first whose files do not load, where `sv`
/// tells for each identity whether the random source served its load.
pub open spec fn first_failure_at(f: Seq<PairFiles>, sv: Seq<bool>, i: int) -> bool {
    &&& 0 <= i < f.len()
    &&& files_outcome(f[i], sv[i]) is Err
    &&& forall|k: int| 0 <= k < i ==> files_outcome(f[k], sv[k]) is Ok
}

/// Every identity's files load.
pub open spec fn all_load(f: Seq<PairFiles>, sv: Seq<bool>) -> bool {
    forall|k: int| 0 <= k < f.len() ==> files_outcome(f[k], sv[k]) is Ok
}

/// The map that a valid configuration is built into, or the first identity
/// that failed, given for each identity whether the random source served it.
pub open spec fn built_as(b: Seq<BundleCert>, f: Seq<PairFiles>, sv: Seq<bool>, r: Result<CertifiedKeysWatched, Error>) -> bool {
    &&& sv.len() == f.len()
    &&& all_load(f, sv) ==> (r matches Ok(m) && m@ == built_entries(b, f, sv))
    &&& !all_load(f, sv) ==> (r matches Err(Error::Load { server_name, error })
        && exists|i: int| first_failure_at(f, sv, i) && server_name@ == b[i].sni@
            && files_outcome(f[i], sv[i]) == Err::<PairView, LoadError>(error))
}

/// The pair that a successful load gives.
pub open spec fn loaded_pair(r: Result<PairView, LoadError>) -> PairView {
    match r {
        Ok(p) => p,
        Err(_) => arbitrary(),
    }
}

/// The entries that a valid configuration whose files all load is built into.
pub open spec fn built_entries(b: Seq<BundleCert>, f: Seq<PairFiles>, sv: Seq<bool>) -> Seq<(Seq<char>, WatchedView)> {
    Seq::new(b.len(), |i: int| (b[i].sni@, WatchedView {
        cert_path: b[i].cert_path@,
        key_path: b[i].key_path@,
        current: loaded_pair(files_outcome(f[i], sv[i])),
    }))
}

/// No two entries share a server name.
pub open spec fn names_distinct(e: Seq<(Seq<char>, WatchedView)>) -> bool {
    forall|x: int, y: int| 0 <= x < y < e.len() ==> e[x].0 != e[y].0
}

/// The index of the entry for a server name, if there is one.
pub open spec fn position(e: Seq<(Seq<char>, WatchedView)>, name: Seq<char>) -> Option<int> {
    if exists|i: int| 0 <= i < e.len() && e[i].0 == name {
        Some(choose|i: int| 0 <= i < e.len() && e[i].0 == name)
    } else {
        None
    }
}

/// The pair served for a server name presented by a client: none where the
/// client presented no name, or a name that is not configured.
pub open spec fn resolve_spec(e: Seq<(Seq<char>, WatchedView)>, name: Option<Seq<char>>) -> Option<PairView> {
    match name {
        None => None,
        Some(n) => match position(e, n) {
            Some(i) => Some(e[i].1.current),
            None => None,
        },
    }
}

/// The model of an optional server name.
pub open spec fn name_view(n: Option<&str>) -> Option<Seq<char>> {
    match n {
        Some(s) => Some(s@),
        None => None,
    }
}

/// Two strings are equal exactly where their UTF-8 bytes are.
proof fn lemma_bytes_determine_str(a: &str, b: &str)
    requires
        a.spec_bytes() == b.spec_bytes(),
    ensures
        a@ == b@,
{
    vstd::utf8::encode_utf8_decode_utf8(a@);
    vstd::utf8::encode_utf8_decode_utf8(b@);
}

/// Compares two byte strings.
fn bytes_equal(a: &[u8], b: &[u8]) -> (r: bool)
    ensures
        r == (a@ == b@),
{
    if a.len() != b.len() {
        return false;
    }
    let mut i: usize = 0;
    while i < a.len()
        invariant
            a@.len() == b@.len(),
            0 <= i <= a@.len(),
            forall|k: int| 0 <= k < i ==> a@[k] == b@[k],
        decreases a@.len() - i,
    {
        if a[i] != b[i] {
            return false;
        }
        i = i + 1;
    }
    assert(a@ =~= b@);
    true
}

/// Compares two strings without allocating.
fn str_equal(a: &str, b: &str) -> (r: bool)
    ensures
        r == (a@ == b@),
{
    let r = bytes_equal(a.as_bytes(), b.as_bytes());
    proof {
        if r {
            lemma_bytes_determine_str(a, b);
        }
    }
    r
}

/// Checks a bundle list before anything is loaded from it: it must hold at
/// least one identity, and no server name twice.
pub fn validate_bundles(bundle: &Vec<BundleCert>) -> (r: Result<(), ConfigError>)
    ensures
        bundle@.len() == 0 ==> r == Err::<(), ConfigError>(ConfigError::EmptyBundleList),
        config_valid(bundle@) ==> r is Ok,
        bundle@.len() > 0 && !config_valid(bundle@) ==> (r matches Err(ConfigError::DuplicateServerName(n))
            && exists|j: int| first_repeat_at(bundle@, j) && n@ == bundle@[j].sni@),
{
    let n = bundle.len();
    if n == 0 {
        return Err(ConfigError::EmptyBundleList);
    }
    let mut j: usize = 0;
    while j < n
        invariant
            n == bundle@.len(),
            0 <= j <= n,
            distinct_before(bundle@, j as int),
        decreases n - j,
    {
        let mut i: usize = 0;
        while i < j
            invariant
                n == bundle@.len(),
                0 <= i <= j < n,
                distinct_before(bundle@, j as int),
                forall|x: int| 0 <= x < i ==> bundle@[x].sni@ != bundle@[j as int].sni@,
            decreases j - i,
        {
            if bundle[i].sni == bundle[j].sni {
                assert(first_repeat_at(bundle@, j as int));
                return Err(ConfigError::DuplicateServerName(bundle[j].sni.clone()));
            }
            i = i + 1;
        }
        j = j + 1;
    }
    Ok(())
}

struct Identity {
    server_name: String,
    pair: CertifiedKeyWatched,
}

/// The identities of a server, selected by the name that a client presents
/// (SNI). Built once; each identity keeps reloading on its own.
pub struct CertifiedKeysWatched {
    keys: Vec<Identity>,
}

impl View for CertifiedKeysWatched {
    type V = Seq<(Seq<char>, WatchedView)>;

    closed spec fn view(&self) -> Seq<(Seq<char>, WatchedView)> {
        self.keys@.map_values(|e: Identity| (e.server_name@, e.pair@))
    }
}

impl CertifiedKeysWatched {
    #[verifier::type_invariant]
    closed spec fn unique_names(self) -> bool {
        names_distinct(self@)
    }

    /// Builds one identity per bundle from what was read of its files (`files`
    /// in the same order). The configuration is checked before anything is
    /// loaded; then the first identity that does not load fails the whole map.
    pub fn new(bundle: Vec<BundleCert>, files: &Vec<PairFiles>) -> (r: Result<Self, Error>)
        requires
            files@.len() == bundle@.len(),
        ensures
            bundle@.len() == 0 ==> r == Err::<Self, Error>(Error::Configuration(ConfigError::EmptyBundleList)),
            bundle@.len() > 0 && !config_valid(bundle@) ==> (r matches Err(Error::Configuration(ConfigError::DuplicateServerName(n)))
                && exists|j: int| first_repeat_at(bundle@, j) && n@ == bundle@[j].sni@),
            config_valid(bundle@) ==> exists|sv: Seq<bool>| built_as(bundle@, files@, sv, r),
            r matches Ok(m) ==> forall|k: int| 0 <= k < m@.len() ==> pair_is_consistent(#[trigger] m@[k].1.current),
    {
        match validate_bundles(&bundle) {
            Ok(()) => {},
            Err(e) => return Err(Error::Configuration(e)),
        }
        let n = bundle.len();
        let mut keys: Vec<Identity> = Vec::new();
        let mut i: usize = 0;
        let ghost mut sv: Seq<bool> = Seq::empty();
        while i < n
            invariant
                n == bundle@.len(),
                n == files@.len(),
                config_valid(bundle@),
                0 <= i <= n,
                keys@.len() == i,
                sv.len() == i,
                forall|k: int| 0 <= k < i ==> files_outcome(files@[k], sv[k]) is Ok,
                forall|k: int| 0 <= k < i ==> (#[trigger] keys@[k]).server_name@ == bundle@[k].sni@
                    && keys@[k].pair@ == (WatchedView {
                        cert_path: bundle@[k].cert_path@,
                        key_path: bundle@[k].key_path@,
                        current: loaded_pair(files_outcome(files@[k], sv[k])),
                    })
                    && pair_is_consistent(keys@[k].pair@.current),
            decreases n - i,
        {
            let f = &files[i];
            let b = &bundle[i];
            let cert = match &f.cert {
                Some(c) => Some(c.as_slice()),
                None => None,
            };
            let key = match &f.key {
                Some(k) => Some(k.as_slice()),
                None => None,
            };
            assert(read_view(cert) == bytes_view(f.cert));
            assert(read_view(key) == bytes_view(f.key));
            let w = CertifiedKeyWatched::new(b.key_path.clone(), b.cert_path.clone(), cert, key);
            let ghost served = watched_view(w) == watched_from(
                b.cert_path@,
                b.key_path@,
                read_and_load(read_view(cert), read_view(key), true),
            );
            match w {
                Ok(pair) => {
                    keys.push(Identity { server_name: b.sni.clone(), pair });
                    proof {
                        sv = sv.push(served);
                    }
                },
                Err(error) => {
                    let ghost all = sv.push(served) + Seq::new((n - i - 1) as nat, |k: int| true);
                    let r = Err(Error::Load { server_name: b.sni.clone(), error });
                    proof {
                        assert(files_outcome(files@[i as int], all[i as int]) is Err);
                        assert(first_failure_at(files@, all, i as int));
                        assert(!all_load(files@, all));
                        assert(built_as(bundle@, files@, all, r));
                    }
                    return r;
                },
            }
            i = i + 1;
        }
        let ghost entries = keys@.map_values(|e: Identity| (e.server_name@, e.pair@));
        assert(entries =~= built_entries(bundle@, files@, sv));
        let r = Ok(CertifiedKeysWatched { keys });
        assert(built_as(bundle@, files@, sv, r));
        r
    }

    /// The pair to present to a client that asked for `server_name`; none
    /// where it asked for no name or a name that is not configured.
    pub fn resolve(&self, server_name: Option<&str>) -> (r: Option<Arc<CertificateKeyPair>>)
        ensures
            match resolve_spec(self@, name_view(server_name)) {
                Some(p) => r matches Some(a) && a@ == p,
                None => r is None,
            },
            r matches Some(a) ==> pair_is_consistent(a@),
    {
        let name = match server_name {
            Some(n) => n,
            None => return None,
        };
        match self.find(name) {
            Some(i) => {
                assert(self@[i as int] == (self.keys@[i as int].server_name@, self.keys@[i as int].pair@));
                Some(self.keys[i].pair.current_snapshot())
            },
            None => None,
        }
    }

    /// Publishes, for the identity of `server_name`, the outcome of a load
    /// done beforehand; the other identities are untouched. `None` where no
    /// such identity exists.
    pub fn publish(&mut self, server_name: &str, outcome: Result<CertificateKeyPair, LoadError>) -> (r: Option<ReloadReport>)
        ensures
            match position(old(self)@, server_name@) {
                None => r is None && final(self)@ == old(self)@,
                Some(i) => {
                    let (s, report) = apply_step(old(self)@[i].1, loaded_view(outcome));
                    r == Some(report) && final(self)@ == old(self)@.update(i, (old(self)@[i].0, s))
                },
            },
    {
        match self.find(server_name) {
            Some(i) => {
                let mut keys: Vec<Identity> = Vec::new();
                std::mem::swap(&mut self.keys, &mut keys);
                assert(old(self)@[i as int] == (keys@[i as int].server_name@, keys@[i as int].pair@));
                let ghost before = keys@;
                let report = keys[i].pair.apply(outcome);
                proof {
                    let e = keys@.map_values(|e: Identity| (e.server_name@, e.pair@));
                    assert(keys@ =~= before.update(i as int, keys@[i as int]));
                    assert(e =~= old(self)@.update(i as int, (old(self)@[i as int].0, e[i as int].1)));
                }
                self.keys = keys;
                Some(report)
            },
            None => None,
        }
    }

    /// Handles a change of the files of the identity for `server_name`, given
    /// both files as read now; the other identities are untouched. `None`
    /// where no such identity exists.
    pub fn reload(&mut self, server_name: &str, cert: Option<&[u8]>, key: Option<&[u8]>) -> (r: Option<ReloadReport>)
        ensures
            match position(old(self)@, server_name@) {
                None => r is None && final(self)@ == old(self)@,
                Some(i) => exists|served: bool| {
                    let (s, report) = #[trigger] reload_step(old(self)@[i].1, read_view(cert), read_view(key), served);
                    r == Some(report) && final(self)@ == old(self)@.update(i, (old(self)@[i].0, s))
                },
            },
    {
        let outcome = load_files(cert, key);
        let ghost served = loaded_view(outcome) == read_and_load(read_view(cert), read_view(key), true);
        let r = self.publish(server_name, outcome);
        proof {
            if let Some(i) = position(old(self)@, server_name@) {
                let _ = reload_step(old(self)@[i].1, read_view(cert), read_view(key), served);
            }
        }
        r
    }

    fn find(&self, name: &str) -> (r: Option<usize>)
        ensures
            names_distinct(self@),
            match r {
                Some(i) => position(self@, name@) == Some(i as int) && i < self@.len(),
                None => position(self@, name@) is None,
            },
    {
        proof {
            use_type_invariant(self);
        }
        let mut i: usize = 0;
        while i < self.keys.len()
            invariant
                0 <= i <= self@.len(),
                self@.len() == self.keys@.len(),
                names_distinct(self@),
                forall|k: int| 0 <= k < i ==> self@[k].0 != name@,
            decreases self@.len() - i,
        {
            if str_equal(self.keys[i].server_name.as_str(), name) {
                proof {
                    let e = self@;
                    assert(e[i as int].0 == name@);
                    assert(exists|k: int| 0 <= k < e.len() && e[k].0 == name@);
                    let j = choose|j: int| 0 <= j < e.len() && e[j].0 == name@;
                    assert(j == i as int) by {
                        if j < i as int {
                            assert(e[j].0 != e[i as int].0);
                        } else if j > i as int {
                            assert(e[i as int].0 != e[j].0);
                        }
                    }
                }
                return Some(i);
            }
            i = i + 1;
        }
        assert(!exists|k: int| 0 <= k < self@.len() && self@[k].0 == name@);
        None
    }
}

} // verus!
