use twoliter::join_path;
use twoliter::parse_semver;
use twoliter::server_version_from_output;
use twoliter::str_eq;
use twoliter::u64_to_dec_string;
use twoliter::version_tag;
use twoliter::DockerError;
use twoliter::Version;

#[test]
fn decimal_rendering_is_exact() {
    assert_eq!(u64_to_dec_string(0), "0");
    assert_eq!(u64_to_dec_string(7), "7");
    assert_eq!(u64_to_dec_string(10), "10");
    assert_eq!(u64_to_dec_string(1234567890123), "1234567890123");
    assert_eq!(u64_to_dec_string(u64::MAX), "18446744073709551615");
}

#[test]
fn paths_join_with_a_slash() {
    assert_eq!(join_path("sources", "group-a"), "sources/group-a");
    assert_eq!(join_path("", "x"), "/x");
}

#[test]
fn text_equality_is_by_characters() {
    assert!(str_eq("abc", "abc"));
    assert!(!str_eq("abc", "abd"));
    assert!(!str_eq("abc", "ab"));
    assert!(str_eq("", ""));
}

#[test]
fn version_text_and_tag_are_exact() {
    let v = Version::new(1, 25, 0);
    assert_eq!(v.to_text(), "1.25.0");
    assert_eq!(version_tag(&v), "v1.25.0");
}

#[test]
fn semver_parse_keeps_the_numeric_triple() {
    assert_eq!(parse_semver("1.2.3"), Some(Version::new(1, 2, 3)));
    // Pre-release and build metadata are read past; the model keeps the
    // numeric triple.
    assert_eq!(parse_semver("1.2.3-alpha.1+build5"), Some(Version::new(1, 2, 3)));
    assert_eq!(parse_semver("not-a-version"), None);
    assert_eq!(parse_semver("1.2"), None);
}

#[test]
fn daemon_version_is_trimmed_and_parsed() {
    assert_eq!(
        server_version_from_output(" 27.1.1\n"),
        Ok(Version::new(27, 1, 1))
    );
    let e = server_version_from_output("oops\n").unwrap_err();
    assert_eq!(
        e,
        DockerError::VersionParse {
            raw: "oops".to_string()
        }
    );
    assert_eq!(
        e.message(),
        "failed to parse docker version as semver: oops"
    );
}

#[test]
fn preflight_errors_name_the_missing_tool() {
    let e = twoliter::PreflightError::MissingTool {
        name: "lz4".to_string(),
    };
    assert_eq!(e.message(), "failed to find required tool lz4 in PATH");
    assert_eq!(
        twoliter::required_tools(),
        vec!["docker".to_string(), "gzip".to_string(), "lz4".to_string()]
    );
}
