use twoliter::compute_digest;
use twoliter::to_hex_lower;
use twoliter::Cache;
use twoliter::DownloadOutcome;
use twoliter::ExternalFile;
use twoliter::FetchError;

const SHA512_EMPTY: &str = "cf83e1357eefb8bdf1542850d66d8007d620e4050b5715dc83f4a921d36ce9ce47d0d13c5d85f2b0ff8318d2877eec2f63b931bd47417a81a538327af927da3e";

fn file(url: &str, checksum: &str) -> ExternalFile {
    ExternalFile {
        url: url.to_string(),
        checksum: checksum.to_string(),
        bundle_modules: None,
    }
}

#[test]
fn hex_rendering_is_exact() {
    assert_eq!(to_hex_lower(&[]), "");
    assert_eq!(to_hex_lower(&[0xbe, 0xef]), "beef");
    assert_eq!(to_hex_lower(&[0x00, 0x0f, 0xa0]), "000fa0");
}

#[test]
fn digest_of_empty_bytes_matches_known_vector() {
    assert_eq!(compute_digest(&[]), SHA512_EMPTY);
}

#[test]
fn digest_depends_on_the_bytes() {
    // The digest must not echo its input: compare against an independent
    // computation through the hashing crate itself.
    let bytes = b"hello world";
    let independent = {
        let out = <sha2::Sha512 as sha2::Digest>::digest(bytes.as_slice());
        let mut s = String::new();
        for b in out.as_slice() {
            s.push(char::from_digit((b >> 4) as u32, 16).unwrap());
            s.push(char::from_digit((b & 0x0f) as u32, 16).unwrap());
        }
        s
    };
    assert_eq!(compute_digest(bytes.as_slice()), independent);
    assert_ne!(compute_digest(bytes.as_slice()), compute_digest(&[]));
}

#[test]
fn checksum_mismatch_fails_and_leaves_no_entry() {
    let f = file("https://example.com/pkg-1.0.tar.gz", SHA512_EMPTY);
    let mut cache = Cache::new();
    // Bytes whose digest differs from the declared checksum must be
    // rejected with a checksum-mismatch error, and no entry may appear.
    let r = cache.admit_download(&f, b"tampered".as_slice(), 100, 200);
    match r {
        Err(FetchError::ChecksumMismatch { url, expected, actual }) => {
            assert_eq!(url, "https://example.com/pkg-1.0.tar.gz");
            assert_eq!(expected, SHA512_EMPTY);
            assert_eq!(actual, compute_digest(b"tampered".as_slice()));
        }
        other => panic!("expected a checksum mismatch, got {:?}", other),
    }
    assert!(cache.lookup("https://example.com/pkg-1.0.tar.gz").is_none());
    assert!(!cache.has_valid_entry(&f));
}

#[test]
fn matching_download_is_admitted_with_clamped_mtime() {
    let f = file("https://example.com/pkg-1.0.tar.gz", SHA512_EMPTY);
    let mut cache = Cache::new();
    let r = cache.admit_download(&f, &[], 300, 200);
    assert!(r.is_ok());
    let e = cache.lookup("https://example.com/pkg-1.0.tar.gz").unwrap();
    assert_eq!(e.checksum, SHA512_EMPTY);
    // The file's own time (300) is later than the manifest's (200): the
    // reported time is clamped to the manifest's.
    assert_eq!(e.mtime, 200);
    assert!(cache.has_valid_entry(&f));
}

#[test]
fn earlier_file_time_is_kept() {
    let f = file("https://example.com/pkg-1.0.tar.gz", SHA512_EMPTY);
    let mut cache = Cache::new();
    cache.admit_download(&f, &[], 150, 200).unwrap();
    let e = cache.lookup("https://example.com/pkg-1.0.tar.gz").unwrap();
    assert_eq!(e.mtime, 150);
}

#[test]
fn refetch_of_unchanged_content_keeps_the_entry_identical() {
    // The manifest declares pkg-1.0.tar.gz with checksum abc123; a source
    // serves matching bytes, so the first fetch succeeds. A second fetch
    // with an identical manifest modification time reuses the entry with an
    // unchanged reported time.
    let f = file("https://example.com/pkg-1.0.tar.gz", "abc123");
    let manifest_mtime = 200;
    let mut cache = Cache::new();
    cache
        .admit_verified(&f, "abc123", 350, manifest_mtime)
        .unwrap();
    let (first_checksum, first_mtime) = {
        let e = cache.lookup(&f.url).unwrap();
        (e.checksum.clone(), e.mtime)
    };
    assert_eq!(first_checksum, "abc123");
    assert_eq!(first_mtime, 200);

    assert!(cache.has_valid_entry(&f));
    let files = vec![file("https://example.com/pkg-1.0.tar.gz", "abc123")];
    let outcomes = vec![DownloadOutcome::Hit];
    cache.fetch(&files, &outcomes, manifest_mtime).unwrap();
    let second = cache.lookup(&f.url).unwrap();
    assert_eq!(second.checksum, first_checksum);
    assert_eq!(second.mtime, first_mtime);
}

#[test]
fn fetch_surfaces_a_failed_download() {
    let f = file("https://example.com/a.tar.gz", "abc");
    let mut cache = Cache::new();
    let files = vec![f];
    let outcomes = vec![DownloadOutcome::Failed];
    let r = cache.fetch(&files, &outcomes, 10);
    assert_eq!(
        r,
        Err(FetchError::DownloadFailed {
            url: "https://example.com/a.tar.gz".to_string()
        })
    );
    assert!(cache.lookup("https://example.com/a.tar.gz").is_none());
}

#[test]
fn fetch_stores_every_verified_file() {
    let a = file("https://example.com/a.tar.gz", SHA512_EMPTY);
    let b = file("https://example.com/b.tar.gz", compute_digest(b"b!".as_slice()).as_str());
    let mut cache = Cache::new();
    let files = vec![a, b];
    let outcomes = vec![
        DownloadOutcome::Fetched { bytes: vec![], mtime: 50 },
        DownloadOutcome::Fetched { bytes: b"b!".to_vec(), mtime: 500 },
    ];
    cache.fetch(&files, &outcomes, 100).unwrap();
    assert_eq!(cache.lookup("https://example.com/a.tar.gz").unwrap().mtime, 50);
    assert_eq!(cache.lookup("https://example.com/b.tar.gz").unwrap().mtime, 100);
}

#[test]
fn download_plan_tries_the_lookaside_location_first() {
    let f = file("https://example.com/archives/pkg-1.0.tar.gz", "abc123");
    let gated = twoliter::CacheConfig {
        lookaside_base: "https://cache.example.com/lookaside".to_string(),
        upstream_fallback: false,
    };
    assert_eq!(
        twoliter::download_urls(&gated, &f),
        vec!["https://cache.example.com/lookaside/pkg-1.0.tar.gz".to_string()]
    );
    let open = twoliter::CacheConfig {
        lookaside_base: "https://cache.example.com/lookaside".to_string(),
        upstream_fallback: true,
    };
    assert_eq!(
        twoliter::download_urls(&open, &f),
        vec![
            "https://cache.example.com/lookaside/pkg-1.0.tar.gz".to_string(),
            "https://example.com/archives/pkg-1.0.tar.gz".to_string(),
        ]
    );
}

#[test]
fn last_segment_is_the_file_name() {
    assert_eq!(twoliter::last_segment("https://example.com/a/b.tar.gz"), "b.tar.gz");
    assert_eq!(twoliter::last_segment("plain-name"), "plain-name");
    assert_eq!(twoliter::last_segment("trailing/"), "");
    assert_eq!(twoliter::last_segment(""), "");
}

#[test]
fn fetch_error_messages_name_the_url_and_checksums() {
    let mismatch = FetchError::ChecksumMismatch {
        url: "https://example.com/x".to_string(),
        expected: "aa".to_string(),
        actual: "bb".to_string(),
    };
    assert_eq!(
        mismatch.message(),
        "checksum mismatch for https://example.com/x: expected aa, got bb"
    );
    let failed = FetchError::DownloadFailed {
        url: "https://example.com/x".to_string(),
    };
    assert_eq!(failed.message(), "failed to download https://example.com/x");
}
