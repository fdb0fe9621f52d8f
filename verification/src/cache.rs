//! The content-addressed external-artifact cache.
//!
//! Each external file descriptor declares a download URL and an expected
//! checksum. A cached entry is only ever reused when its checksum matches the
//! declared one; bytes whose digest does not match the declared checksum are
//! rejected and never stored. Reported modification times are clamped to the
//! owning manifest's modification time so that re-fetching unchanged content
//! never triggers spurious rebuilds.
use vstd::prelude::*;

use crate::text::join_path;
use crate::text::last_segment;
use crate::text::push_deep;
use crate::text::spec_joined;
use crate::text::spec_last_segment;
use crate::text::str_eq;

verus! {

/// A bundling post-processing step an external file may request.
#[derive(Debug, Clone, Copy, PartialEq, Eq, Structural)]
pub enum BundleModule {
    Go,
}

/// Declares a single externally-sourced artifact required by a package: its
/// download URL, the checksum its bytes must have, and which bundling steps
/// apply once it is fetched. Immutable once read from the manifest.
#[derive(Debug, PartialEq, Eq)]
pub struct ExternalFile {
    pub url: String,
    pub checksum: String,
    pub bundle_modules: Option<Vec<BundleModule>>,
}

/// The mathematical value of an external file descriptor.
pub struct ExternalFileV {
    pub url: Seq<char>,
    pub checksum: Seq<char>,
    pub bundle_modules: Option<Seq<BundleModule>>,
}

impl View for ExternalFile {
    type V = ExternalFileV;

    open spec fn view(&self) -> ExternalFileV {
        ExternalFileV {
            url: self.url@,
            checksum: self.checksum@,
            bundle_modules: match self.bundle_modules {
                Some(v) => Some(v@),
                None => None,
            },
        }
    }
}

impl DeepView for ExternalFile {
    type V = ExternalFileV;

    open spec fn deep_view(&self) -> ExternalFileV {
        self@
    }
}

fn clone_bundles(v: &Vec<BundleModule>) -> (r: Vec<BundleModule>)
    ensures
        r@ == v@,
{
    let mut r: Vec<BundleModule> = Vec::new();
    for i in 0..v.len()
        invariant
            r@ == v@.take(i as int),
    {
        r.push(v[i]);
        proof {
            assert(r@ =~= v@.take(i + 1));
        }
    }
    proof {
        assert(v@.take(v@.len() as int) =~= v@);
    }
    r
}

impl Clone for ExternalFile {
    fn clone(&self) -> (r: Self)
        ensures
            r@ == self@,
    {
        let bundle_modules = match &self.bundle_modules {
            Some(v) => Some(clone_bundles(v)),
            None => None,
        };
        ExternalFile { url: self.url.clone(), checksum: self.checksum.clone(), bundle_modules }
    }
}

/// The mathematical value of a cache entry: the checksum its bytes were
/// verified against and its reported modification time.
pub struct CacheEntryV {
    pub checksum: Seq<char>,
    pub mtime: i64,
}

/// The on-disk materialization of an external file descriptor: its verified
/// checksum and its reported modification time (seconds).
#[derive(Debug, PartialEq, Eq)]
pub struct CacheEntry {
    pub checksum: String,
    pub mtime: i64,
}

impl View for CacheEntry {
    type V = CacheEntryV;

    open spec fn view(&self) -> CacheEntryV {
        CacheEntryV { checksum: self.checksum@, mtime: self.mtime }
    }
}

/// The digest, or nothing, held under a URL in a sequence of cache entries:
/// the first entry whose key matches.
pub open spec fn spec_entry_in(s: Seq<(String, CacheEntry)>, url: Seq<char>) -> Option<CacheEntryV>
    decreases s.len(),
{
    if s.len() == 0 {
        None
    } else if s[0].0@ == url {
        Some(s[0].1@)
    } else {
        spec_entry_in(s.drop_first(), url)
    }
}

proof fn lemma_entry_skip(s: Seq<(String, CacheEntry)>, url: Seq<char>, i: int)
    requires
        0 <= i <= s.len(),
        forall|j: int| 0 <= j < i ==> (#[trigger] s[j]).0@ != url,
    ensures
        spec_entry_in(s, url) == spec_entry_in(s.skip(i), url),
    decreases i,
{
    if i > 0 {
        lemma_entry_skip(s.drop_first(), url, i - 1);
        assert(s.drop_first().skip(i - 1) =~= s.skip(i));
    } else {
        assert(s.skip(0) =~= s);
    }
}

proof fn lemma_entry_update(
    s: Seq<(String, CacheEntry)>,
    i: int,
    kv: (String, CacheEntry),
    u: Seq<char>,
)
    requires
        0 <= i < s.len(),
        s[i].0@ == kv.0@,
        forall|j: int| 0 <= j < i ==> (#[trigger] s[j]).0@ != kv.0@,
    ensures
        spec_entry_in(s.update(i, kv), kv.0@) == Some(kv.1@),
        u != kv.0@ ==> spec_entry_in(s.update(i, kv), u) == spec_entry_in(s, u),
    decreases i,
{
    let t = s.update(i, kv);
    if i == 0 {
        assert(t[0] == kv);
        assert(t.drop_first() =~= s.drop_first());
    } else {
        assert(t[0] == s[0]);
        assert(t.drop_first() =~= s.drop_first().update(i - 1, kv));
        lemma_entry_update(s.drop_first(), i - 1, kv, u);
    }
}

proof fn lemma_entry_push(s: Seq<(String, CacheEntry)>, kv: (String, CacheEntry), u: Seq<char>)
    ensures
        spec_entry_in(s.push(kv), u) == (if spec_entry_in(s, u) is Some {
            spec_entry_in(s, u)
        } else if u == kv.0@ {
            Some(kv.1@)
        } else {
            None
        }),
    decreases s.len(),
{
    let t = s.push(kv);
    if s.len() == 0 {
        assert(t[0] == kv);
        assert(t.drop_first() =~= Seq::<(String, CacheEntry)>::empty());
        assert(spec_entry_in(t.drop_first(), u) is None);
        assert(spec_entry_in(s, u) is None);
    } else {
        assert(t[0] == s[0]);
        assert(t.drop_first() =~= s.drop_first().push(kv));
        lemma_entry_push(s.drop_first(), kv, u);
    }
}

/// A modification time clamped to the owning manifest's: the smaller of the
/// two.
pub open spec fn spec_clamp(t: i64, m: i64) -> i64 {
    if t <= m {
        t
    } else {
        m
    }
}

fn clamp(t: i64, m: i64) -> (r: i64)
    ensures
        r == spec_clamp(t, m),
{
    if t <= m {
        t
    } else {
        m
    }
}

/// Clamping is idempotent and never reports a time later than the manifest's:
/// however often unchanged content is re-fetched under the same manifest
/// modification time, the reported time settles at its first clamped value.
pub proof fn lemma_clamp_idempotent(t: i64, m: i64)
    ensures
        spec_clamp(t, m) <= m,
        spec_clamp(spec_clamp(t, m), m) == spec_clamp(t, m),
{
}

/// Re-fetching unchanged content under the same manifest modification time
/// reproduces the cache entry identically: a descriptor whose entry already
/// carries a clamped time is reused without the reported time moving.
pub proof fn lemma_refetch_unchanged(c: Cache, f: ExternalFile, t: i64, m: i64)
    requires
        spec_entry(c, f.url@) == Some(
            CacheEntryV { checksum: f.checksum@, mtime: spec_clamp(t, m) },
        ),
    ensures
        spec_valid_hit(c, f),
        spec_fetched_entry(c, f, DownloadOutcome::Hit, m) == spec_entry(c, f.url@)->Some_0,
{
    lemma_clamp_idempotent(t, m);
}

/// The SHA-512 digest of a byte sequence. Left abstract: the `sha2` crate
/// computes it.
pub uninterp spec fn sha512_of(b: Seq<u8>) -> Seq<u8>;

/// Relies on `sha2::Sha512`: the digest is a function of the input bytes
/// alone and is 64 bytes long.
#[verifier::external_body]
fn sha512_bytes(b: &[u8]) -> (r: Vec<u8>)
    ensures
        r@ == sha512_of(b@),
        r@.len() == 64,
{
    let out = <sha2::Sha512 as sha2::Digest>::digest(b);
    out.to_vec()
}

/// The character for one hexadecimal digit, lower case.
pub open spec fn spec_hex_digit(d: nat) -> char {
    if d == 0 {
        '0'
    } else if d == 1 {
        '1'
    } else if d == 2 {
        '2'
    } else if d == 3 {
        '3'
    } else if d == 4 {
        '4'
    } else if d == 5 {
        '5'
    } else if d == 6 {
        '6'
    } else if d == 7 {
        '7'
    } else if d == 8 {
        '8'
    } else if d == 9 {
        '9'
    } else if d == 10 {
        'a'
    } else if d == 11 {
        'b'
    } else if d == 12 {
        'c'
    } else if d == 13 {
        'd'
    } else if d == 14 {
        'e'
    } else {
        'f'
    }
}

/// The lower-case hexadecimal rendering of a byte sequence, two digits per
/// byte.
pub open spec fn spec_hex_lower(b: Seq<u8>) -> Seq<char>
    decreases b.len(),
{
    if b.len() == 0 {
        Seq::<char>::empty()
    } else {
        spec_hex_lower(b.drop_last()) + seq![
            spec_hex_digit((b.last() >> 4) as nat),
            spec_hex_digit((b.last() & 0x0f) as nat),
        ]
    }
}

fn hex_digit_str(d: u8) -> (r: &'static str)
    requires
        d < 16,
    ensures
        r@ == seq![spec_hex_digit(d as nat)],
{
    let r: &'static str = if d == 0 {
        "0"
    } else if d == 1 {
        "1"
    } else if d == 2 {
        "2"
    } else if d == 3 {
        "3"
    } else if d == 4 {
        "4"
    } else if d == 5 {
        "5"
    } else if d == 6 {
        "6"
    } else if d == 7 {
        "7"
    } else if d == 8 {
        "8"
    } else if d == 9 {
        "9"
    } else if d == 10 {
        "a"
    } else if d == 11 {
        "b"
    } else if d == 12 {
        "c"
    } else if d == 13 {
        "d"
    } else if d == 14 {
        "e"
    } else {
        "f"
    };
    proof {
        reveal_strlit("0");
        reveal_strlit("1");
        reveal_strlit("2");
        reveal_strlit("3");
        reveal_strlit("4");
        reveal_strlit("5");
        reveal_strlit("6");
        reveal_strlit("7");
        reveal_strlit("8");
        reveal_strlit("9");
        reveal_strlit("a");
        reveal_strlit("b");
        reveal_strlit("c");
        reveal_strlit("d");
        reveal_strlit("e");
        reveal_strlit("f");
        assert(r@ =~= seq![spec_hex_digit(d as nat)]);
    }
    r
}

/// Renders bytes as lower-case hexadecimal, two digits per byte.
pub fn to_hex_lower(b: &[u8]) -> (r: String)
    ensures
        r@ == spec_hex_lower(b@),
{
    let mut r = String::new();
    let len = b.len();
    for i in 0..len
        invariant
            len == b@.len(),
            r@ == spec_hex_lower(b@.take(i as int)),
    {
        let byte = b[i];
        let hi = byte >> 4;
        let lo = byte & 0x0f;
        assert(byte >> 4 < 16 && byte & 0x0f < 16) by (bit_vector);
        r.append(hex_digit_str(hi));
        r.append(hex_digit_str(lo));
        proof {
            assert(b@.take(i + 1).drop_last() =~= b@.take(i as int));
            assert(b@.take(i + 1).last() == b@[i as int]);
            assert(r@ =~= spec_hex_lower(b@.take(i + 1)));
        }
    }
    proof {
        assert(b@.take(b@.len() as int) =~= b@);
    }
    r
}

/// The checksum text of a byte sequence: its SHA-512 digest in lower-case
/// hexadecimal.
pub open spec fn spec_digest_text(b: Seq<u8>) -> Seq<char> {
    spec_hex_lower(sha512_of(b))
}

/// Computes the checksum text of the given bytes.
pub fn compute_digest(bytes: &[u8]) -> (r: String)
    ensures
        r@ == spec_digest_text(bytes@),
{
    let digest = sha512_bytes(bytes);
    to_hex_lower(digest.as_slice())
}

/// How the cache reaches external sources: its own upstream location, and
/// whether falling back to a file's declared URL is allowed.
#[derive(Debug)]
pub struct CacheConfig {
    /// The location verified copies of external files are normally served
    /// from.
    pub lookaside_base: String,
    /// Whether a file missing there may be fetched from its declared
    /// upstream URL.
    pub upstream_fallback: bool,
}

/// The locations a descriptor's bytes are downloaded from, in order: the
/// cache's own upstream location first, and the declared URL itself only
/// when the fallback is enabled.
pub open spec fn spec_download_urls(cfg: CacheConfig, f: ExternalFile) -> Seq<Seq<char>> {
    seq![spec_joined(cfg.lookaside_base@, '/', spec_last_segment(f.url@))] + if cfg.upstream_fallback {
        seq![f.url@]
    } else {
        Seq::<Seq<char>>::empty()
    }
}

/// Plans where a descriptor's bytes are downloaded from, in order.
pub fn download_urls(cfg: &CacheConfig, f: &ExternalFile) -> (r: Vec<String>)
    ensures
        r.deep_view() == spec_download_urls(*cfg, *f),
{
    let mut r: Vec<String> = Vec::new();
    push_deep(&mut r, join_path(cfg.lookaside_base.as_str(), last_segment(f.url.as_str()).as_str()));
    if cfg.upstream_fallback {
        push_deep(&mut r, f.url.clone());
    }
    proof {
        assert(r.deep_view() =~= spec_download_urls(*cfg, *f));
    }
    r
}

/// How fetching one external file went: the cache already held verified
/// content, the declared source served bytes, or no source could be reached.
pub enum DownloadOutcome {
    Hit,
    Fetched { bytes: Vec<u8>, mtime: i64 },
    Failed,
}

/// Why a fetch failed. Checksum mismatches carry the offending URL and both
/// checksums; they are never silently accepted.
#[derive(Debug, PartialEq, Eq)]
pub enum FetchError {
    ChecksumMismatch { url: String, expected: String, actual: String },
    DownloadFailed { url: String },
}

impl FetchError {
    /// The single human-readable line describing the failure.
    pub fn message(&self) -> (r: String)
        ensures
            self matches FetchError::ChecksumMismatch { url, expected, actual } ==> r@
                == "checksum mismatch for "@ + url@ + ": expected "@ + expected@ + ", got "@
                + actual@,
            self matches FetchError::DownloadFailed { url } ==> r@ == "failed to download "@
                + url@,
    {
        match self {
            FetchError::ChecksumMismatch { url, expected, actual } => {
                let mut s: String = "checksum mismatch for ".to_owned();
                s.append(url.as_str());
                s.append(": expected ");
                s.append(expected.as_str());
                s.append(", got ");
                s.append(actual.as_str());
                s
            },
            FetchError::DownloadFailed { url } => {
                let mut s: String = "failed to download ".to_owned();
                s.append(url.as_str());
                s
            },
        }
    }
}

/// The content-addressed cache of external files, keyed by their download
/// URL. No other component writes to it.
pub struct Cache {
    entries: Vec<(String, CacheEntry)>,
}

/// The entry the cache holds for a URL, if any. Its definition is internal
/// to the cache; every operation states its effect through it.
pub closed spec fn spec_entry(c: Cache, url: Seq<char>) -> Option<CacheEntryV> {
    spec_entry_in(c.entries@, url)
}

/// A descriptor has a valid cache hit iff an entry is stored under its URL
/// and that entry's checksum matches the declared one.
pub open spec fn spec_valid_hit(c: Cache, f: ExternalFile) -> bool {
    spec_entry(c, f.url@) matches Some(e) && e.checksum == f.checksum@
}

/// The entry a successful fetch leaves for a descriptor: on a cache hit the
/// stored entry with its time clamped to the manifest's, on a download the
/// declared checksum with the fetched file's time clamped likewise. (A
/// failed outcome leaves no entry, so its value here is immaterial.)
pub open spec fn spec_fetched_entry(
    c0: Cache,
    f: ExternalFile,
    o: DownloadOutcome,
    manifest_mtime: i64,
) -> CacheEntryV {
    match o {
        DownloadOutcome::Hit => CacheEntryV {
            checksum: f.checksum@,
            mtime: spec_clamp(spec_entry(c0, f.url@)->Some_0.mtime, manifest_mtime),
        },
        DownloadOutcome::Fetched { bytes, mtime } => CacheEntryV {
            checksum: f.checksum@,
            mtime: spec_clamp(mtime, manifest_mtime),
        },
        DownloadOutcome::Failed => CacheEntryV { checksum: f.checksum@, mtime: 0 },
    }
}

/// A download outcome satisfies its descriptor iff it is a valid hit, or
/// served bytes whose digest equals the declared checksum.
pub open spec fn spec_outcome_ok(f: ExternalFile, o: DownloadOutcome) -> bool {
    match o {
        DownloadOutcome::Hit => true,
        DownloadOutcome::Fetched { bytes, mtime } => spec_digest_text(bytes@) == f.checksum@,
        DownloadOutcome::Failed => false,
    }
}

/// The error a failing outcome surfaces for its descriptor.
pub open spec fn spec_err_matches(e: FetchError, f: ExternalFile, o: DownloadOutcome) -> bool {
    match o {
        DownloadOutcome::Hit => false,
        DownloadOutcome::Fetched { bytes, mtime } => {
            &&& e matches FetchError::ChecksumMismatch { url, expected, actual }
            &&& url@ == f.url@
            &&& expected@ == f.checksum@
            &&& actual@ == spec_digest_text(bytes@)
        },
        DownloadOutcome::Failed => e matches FetchError::DownloadFailed { url } && url@ == f.url@,
    }
}

impl Cache {
    /// An empty cache.
    pub fn new() -> (r: Cache)
        ensures
            forall|u: Seq<char>| spec_entry(r, u) is None,
    {
        let c = Cache { entries: Vec::new() };
        proof {
            assert(forall|u: Seq<char>| spec_entry(c, u) is None);
        }
        c
    }

    fn find_index(&self, url: &str) -> (r: Option<usize>)
        ensures
            match r {
                Some(i) => i < self.entries@.len() && self.entries@[i as int].0@ == url@ && (forall|
                    j: int,
                |
                    0 <= j < i ==> (#[trigger] self.entries@[j]).0@ != url@),
                None => forall|j: int|
                    0 <= j < self.entries@.len() ==> (#[trigger] self.entries@[j]).0@ != url@,
            },
    {
        for i in 0..self.entries.len()
            invariant
                forall|j: int| 0 <= j < i ==> (#[trigger] self.entries@[j]).0@ != url@,
        {
            if str_eq(self.entries[i].0.as_str(), url) {
                return Some(i);
            }
        }
        None
    }

    /// The entry stored under a URL, if any.
    pub fn lookup(&self, url: &str) -> (r: Option<&CacheEntry>)
        ensures
            match r {
                Some(e) => spec_entry(*self, url@) == Some(e@),
                None => spec_entry(*self, url@) is None,
            },
    {
        match self.find_index(url) {
            Some(i) => {
                proof {
                    lemma_entry_skip(self.entries@, url@, i as int);
                    assert(self.entries@.skip(i as int)[0] == self.entries@[i as int]);
                }
                Some(&self.entries[i].1)
            },
            None => {
                proof {
                    lemma_entry_skip(self.entries@, url@, self.entries@.len() as int);
                }
                None
            },
        }
    }

    /// Decides whether a descriptor already has a valid cached entry: one
    /// stored under its URL whose checksum matches the declared one.
    pub fn has_valid_entry(&self, file: &ExternalFile) -> (r: bool)
        ensures
            r == spec_valid_hit(*self, *file),
    {
        match self.lookup(file.url.as_str()) {
            Some(e) => str_eq(e.checksum.as_str(), file.checksum.as_str()),
            None => false,
        }
    }

    /// Reuses a valid cached entry, clamping its reported modification time
    /// to the owning manifest's. Entries under other URLs are untouched.
    pub fn reuse_hit(&mut self, file: &ExternalFile, manifest_mtime: i64)
        requires
            spec_valid_hit(*old(self), *file),
        ensures
            spec_entry(*final(self), file.url@) == Some(
                spec_fetched_entry(*old(self), *file, DownloadOutcome::Hit, manifest_mtime),
            ),
            forall|u: Seq<char>|
                u != file.url@ ==> #[trigger] spec_entry(*final(self), u) == spec_entry(
                    *old(self),
                    u,
                ),
    {
        let i = match self.find_index(file.url.as_str()) {
            Some(i) => i,
            None => {
                proof {
                    lemma_entry_skip(self.entries@, file.url@, self.entries@.len() as int);
                }
                unreached()
            },
        };
        proof {
            lemma_entry_skip(self.entries@, file.url@, i as int);
            assert(self.entries@.skip(i as int)[0] == self.entries@[i as int]);
        }
        let key = self.entries[i].0.clone();
        let old_mtime = self.entries[i].1.mtime;
        let entry = CacheEntry {
            checksum: file.checksum.clone(),
            mtime: clamp(old_mtime, manifest_mtime),
        };
        proof {
            assert forall|u: Seq<char>| true implies #[trigger] spec_entry_in(
                self.entries@.update(i as int, (key, entry)),
                u,
            ) == (if u == file.url@ {
                Some(entry@)
            } else {
                spec_entry_in(self.entries@, u)
            }) by {
                lemma_entry_update(self.entries@, i as int, (key, entry), u);
            }
        }
        self.entries.set(i, (key, entry));
    }

    /// Admits one descriptor's downloaded bytes after checksum verification:
    /// when the digest of the bytes does not equal the declared checksum the
    /// fetch fails with a checksum-mismatch error naming the URL and both
    /// checksums, and the cache is left exactly as it was; otherwise the
    /// entry is stored (replacing any entry under the same URL) with its
    /// modification time clamped to the manifest's. `actual_digest` is the
    /// checksum text of the downloaded bytes.
    pub fn admit_verified(
        &mut self,
        file: &ExternalFile,
        actual_digest: &str,
        fetched_mtime: i64,
        manifest_mtime: i64,
    ) -> (r: Result<(), FetchError>)
        ensures
            r is Err <==> actual_digest@ != file.checksum@,
            r matches Err(e) ==> {
                &&& *final(self) == *old(self)
                &&& e matches FetchError::ChecksumMismatch { url, expected, actual }
                &&& url@ == file.url@
                &&& expected@ == file.checksum@
                &&& actual@ == actual_digest@
            },
            r is Ok ==> spec_entry(*final(self), file.url@) == Some(
                CacheEntryV {
                    checksum: file.checksum@,
                    mtime: spec_clamp(fetched_mtime, manifest_mtime),
                },
            ),
            forall|u: Seq<char>|
                u != file.url@ ==> #[trigger] spec_entry(*final(self), u) == spec_entry(
                    *old(self),
                    u,
                ),
    {
        if !str_eq(actual_digest, file.checksum.as_str()) {
            return Err(
                FetchError::ChecksumMismatch {
                    url: file.url.clone(),
                    expected: file.checksum.clone(),
                    actual: actual_digest.to_owned(),
                },
            );
        }
        let entry = CacheEntry {
            checksum: file.checksum.clone(),
            mtime: clamp(fetched_mtime, manifest_mtime),
        };
        match self.find_index(file.url.as_str()) {
            Some(i) => {
                let key = self.entries[i].0.clone();
                proof {
                    assert forall|u: Seq<char>| true implies #[trigger] spec_entry_in(
                        self.entries@.update(i as int, (key, entry)),
                        u,
                    ) == (if u == file.url@ {
                        Some(entry@)
                    } else {
                        spec_entry_in(self.entries@, u)
                    }) by {
                        lemma_entry_update(self.entries@, i as int, (key, entry), u);
                    }
                }
                self.entries.set(i, (key, entry));
            },
            None => {
                let key = file.url.clone();
                proof {
                    lemma_entry_skip(self.entries@, file.url@, self.entries@.len() as int);
                    assert forall|u: Seq<char>| true implies #[trigger] spec_entry_in(
                        self.entries@.push((key, entry)),
                        u,
                    ) == (if u == file.url@ {
                        Some(entry@)
                    } else {
                        spec_entry_in(self.entries@, u)
                    }) by {
                        lemma_entry_push(self.entries@, (key, entry), u);
                    }
                }
                self.entries.push((key, entry));
            },
        }
        Ok(())
    }

    /// Verifies and admits downloaded bytes: computes their checksum text and
    /// admits the entry when it equals the declared checksum, failing with a
    /// checksum-mismatch error otherwise (and leaving the cache unchanged).
    pub fn admit_download(
        &mut self,
        file: &ExternalFile,
        bytes: &[u8],
        fetched_mtime: i64,
        manifest_mtime: i64,
    ) -> (r: Result<(), FetchError>)
        ensures
            r is Err <==> spec_digest_text(bytes@) != file.checksum@,
            r matches Err(e) ==> {
                &&& *final(self) == *old(self)
                &&& e matches FetchError::ChecksumMismatch { url, expected, actual }
                &&& url@ == file.url@
                &&& expected@ == file.checksum@
                &&& actual@ == spec_digest_text(bytes@)
            },
            r is Ok ==> spec_entry(*final(self), file.url@) == Some(
                CacheEntryV {
                    checksum: file.checksum@,
                    mtime: spec_clamp(fetched_mtime, manifest_mtime),
                },
            ),
            forall|u: Seq<char>|
                u != file.url@ ==> #[trigger] spec_entry(*final(self), u) == spec_entry(
                    *old(self),
                    u,
                ),
    {
        let digest = compute_digest(bytes);
        self.admit_verified(file, digest.as_str(), fetched_mtime, manifest_mtime)
    }

    /// Materializes every declared external file: valid cached entries are
    /// reused with their times clamped, downloaded bytes are verified against
    /// the declared checksum and stored, and the first failure aborts the
    /// fetch. On success every descriptor's entry reports a modification
    /// time no later than the owning manifest's; entries under other URLs
    /// are untouched; a failing descriptor never gains a cache entry.
    pub fn fetch(
        &mut self,
        files: &Vec<ExternalFile>,
        outcomes: &Vec<DownloadOutcome>,
        manifest_mtime: i64,
    ) -> (r: Result<(), FetchError>)
        requires
            files@.len() == outcomes@.len(),
            forall|i: int, j: int|
                0 <= i < j < files@.len() ==> (#[trigger] files@[i]).url@ != (
                #[trigger] files@[j]).url@,
            forall|i: int|
                0 <= i < files@.len() && (#[trigger] outcomes@[i]) is Hit ==> spec_valid_hit(
                    *old(self),
                    files@[i],
                ),
        ensures
            r is Ok <==> (forall|i: int|
                0 <= i < files@.len() ==> spec_outcome_ok(
                    #[trigger] files@[i],
                    outcomes@[i],
                )),
            r is Ok ==> forall|i: int|
                0 <= i < files@.len() ==> spec_entry(*final(self), (#[trigger] files@[i]).url@)
                    == Some(spec_fetched_entry(*old(self), files@[i], outcomes@[i], manifest_mtime))
                    && spec_fetched_entry(
                    *old(self),
                    files@[i],
                    outcomes@[i],
                    manifest_mtime,
                ).mtime <= manifest_mtime,
            r matches Err(e) ==> exists|i: int|
                {
                    &&& 0 <= i < files@.len()
                    &&& #[trigger] spec_err_matches(e, files@[i], outcomes@[i])
                    &&& forall|j: int| 0 <= j < i ==> spec_outcome_ok(files@[j], #[trigger] outcomes@[j])
                    &&& spec_entry(*final(self), files@[i].url@) == spec_entry(
                        *old(self),
                        files@[i].url@,
                    )
                },
            forall|u: Seq<char>|
                (forall|i: int| 0 <= i < files@.len() ==> (#[trigger] files@[i]).url@ != u)
                    ==> #[trigger] spec_entry(*final(self), u) == spec_entry(*old(self), u),
    {
        let n = files.len();
        for idx in 0..n
            invariant
                n == files@.len(),
                n == outcomes@.len(),
                forall|i: int, j: int|
                    0 <= i < j < files@.len() ==> (#[trigger] files@[i]).url@ != (
                    #[trigger] files@[j]).url@,
                forall|i: int|
                    0 <= i < files@.len() && (#[trigger] outcomes@[i]) is Hit ==> spec_valid_hit(
                        *old(self),
                        files@[i],
                    ),
                forall|i: int|
                    idx <= i < files@.len() ==> #[trigger] spec_entry(*self, files@[i].url@)
                        == spec_entry(*old(self), files@[i].url@),
                forall|i: int|
                    0 <= i < idx ==> spec_outcome_ok(#[trigger] files@[i], outcomes@[i]),
                forall|i: int|
                    0 <= i < idx ==> spec_entry(*self, (#[trigger] files@[i]).url@) == Some(
                        spec_fetched_entry(*old(self), files@[i], outcomes@[i], manifest_mtime),
                    ),
                forall|u: Seq<char>|
                    (forall|i: int| 0 <= i < files@.len() ==> (#[trigger] files@[i]).url@ != u)
                        ==> #[trigger] spec_entry(*self, u) == spec_entry(*old(self), u),
        {
            let file = &files[idx];
            match &outcomes[idx] {
                DownloadOutcome::Hit => {
                    self.reuse_hit(file, manifest_mtime);
                },
                DownloadOutcome::Fetched { bytes, mtime } => {
                    match self.admit_download(file, bytes.as_slice(), *mtime, manifest_mtime) {
                        Ok(()) => {},
                        Err(e) => {
                            proof {
                                assert(spec_err_matches(
                                    e,
                                    files@[idx as int],
                                    outcomes@[idx as int],
                                ));
                                assert(spec_entry(*self, files@[idx as int].url@) == spec_entry(
                                    *old(self),
                                    files@[idx as int].url@,
                                ));
                            }
                            return Err(e);
                        },
                    }
                },
                DownloadOutcome::Failed => {
                    let e = FetchError::DownloadFailed { url: file.url.clone() };
                    proof {
                        assert(spec_err_matches(e, files@[idx as int], outcomes@[idx as int]));
                        assert(spec_entry(*self, files@[idx as int].url@) == spec_entry(
                            *old(self),
                            files@[idx as int].url@,
                        ));
                    }
                    return Err(e);
                },
            }
        }
        Ok(())
    }
}

} // verus!
