use twoliter::ArtifactVendor;
use twoliter::Image;
use twoliter::NamedVendor;
use twoliter::ProjectImage;
use twoliter::SdkAction;
use twoliter::SdkFetch;
use twoliter::SdkFetchEvent;
use twoliter::SdkFetchState;
use twoliter::ValidIdentifier;
use twoliter::Vendor;
use twoliter::Version;

fn sdk_image() -> ProjectImage {
    ProjectImage {
        image: Image {
            name: ValidIdentifier::from_str("my-sdk").unwrap(),
            version: Version::new(0, 50, 1),
            vendor: ValidIdentifier::from_str("alpha").unwrap(),
        },
        vendor: ArtifactVendor::Verbatim(NamedVendor {
            name: ValidIdentifier::from_str("alpha").unwrap(),
            vendor: Vendor {
                registry: "registry.example.com".to_string(),
            },
        }),
    }
}

#[test]
fn cached_sdk_is_not_fetched() {
    let mut fetch = SdkFetch::new(&sdk_image(), "build/sdk-archives".to_string());
    assert_eq!(fetch.uri, "registry.example.com/my-sdk:v0.50.1");
    match fetch.start() {
        SdkAction::CheckCache { uri } => {
            assert_eq!(uri, "registry.example.com/my-sdk:v0.50.1")
        }
        other => panic!("the fetch must begin with the cache check, got {:?}", other),
    }
    match fetch.step(SdkFetchEvent::CacheChecked { cached: true }) {
        SdkAction::Finish { ok } => assert!(ok),
        other => panic!("a cached image finishes the fetch, got {:?}", other),
    }
    match fetch.state {
        SdkFetchState::Done { fetched } => assert!(!fetched),
        other => panic!("expected the done state, got {:?}", other),
    }
}

#[test]
fn uncached_sdk_is_pulled_then_loaded() {
    let mut fetch = SdkFetch::new(&sdk_image(), "build/sdk-archives".to_string());
    match fetch.step(SdkFetchEvent::CacheChecked { cached: false }) {
        SdkAction::CreateTempFile { dir } => assert_eq!(dir, "build/sdk-archives"),
        other => panic!("an uncached image needs a temporary file, got {:?}", other),
    }
    match fetch.step(SdkFetchEvent::TempFileCreated {
        path: "build/sdk-archives/tmp123.tar".to_string(),
    }) {
        SdkAction::QueryPlatform => {}
        other => panic!("the host platform is queried next, got {:?}", other),
    }
    match fetch.step(SdkFetchEvent::PlatformKnown {
        platform: "linux/amd64".to_string(),
    }) {
        SdkAction::RunPull { args } => assert_eq!(
            args,
            vec![
                "pull",
                "registry.example.com/my-sdk:v0.50.1",
                "build/sdk-archives/tmp123.tar",
                "--platform",
                "linux/amd64",
            ]
        ),
        other => panic!("the pull must run next, got {:?}", other),
    }
    match fetch.step(SdkFetchEvent::CommandExited { success: true }) {
        SdkAction::RunLoad { archive_path } => {
            assert_eq!(archive_path, "build/sdk-archives/tmp123.tar")
        }
        other => panic!("a successful pull is loaded, got {:?}", other),
    }
    match fetch.step(SdkFetchEvent::CommandExited { success: true }) {
        SdkAction::Finish { ok } => assert!(ok),
        other => panic!("a successful load finishes the fetch, got {:?}", other),
    }
    match fetch.state {
        SdkFetchState::Done { fetched } => assert!(fetched),
        other => panic!("expected the done state, got {:?}", other),
    }
}

#[test]
fn failed_pull_abandons_the_fetch() {
    let mut fetch = SdkFetch::new(&sdk_image(), "build/sdk-archives".to_string());
    fetch.step(SdkFetchEvent::CacheChecked { cached: false });
    fetch.step(SdkFetchEvent::TempFileCreated {
        path: "build/sdk-archives/tmp123.tar".to_string(),
    });
    fetch.step(SdkFetchEvent::PlatformKnown {
        platform: "linux/arm64".to_string(),
    });
    match fetch.step(SdkFetchEvent::CommandExited { success: false }) {
        SdkAction::Finish { ok } => assert!(!ok),
        other => panic!("a failed pull abandons the fetch, got {:?}", other),
    }
    assert!(matches!(fetch.state, SdkFetchState::Failed));
}
