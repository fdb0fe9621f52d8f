use twoliter::resolve_project_image;
use twoliter::ArtifactVendor;
use twoliter::Image;
use twoliter::NamedVendor;
use twoliter::ResolutionError;
use twoliter::ValidIdentifier;
use twoliter::Vendor;
use twoliter::VendorOverride;
use twoliter::Version;

fn ident(s: &str) -> ValidIdentifier {
    ValidIdentifier::from_str(s).unwrap()
}

fn vendor(name: &str, registry: &str) -> NamedVendor {
    NamedVendor {
        name: ident(name),
        vendor: Vendor {
            registry: registry.to_string(),
        },
    }
}

fn kit_image() -> Image {
    Image {
        name: ident("my-kit"),
        version: Version::new(1, 2, 3),
        vendor: ident("alpha"),
    }
}

#[test]
fn overridden_vendor_redirects_the_project_uri_only() {
    // Vendor alpha is overridden to beta: the URI the build pulls from
    // reflects beta's registry, the original source URI still reflects
    // alpha's, and the two differ.
    let vendors = vec![vendor("alpha", "registry.alpha.example.com")];
    let overrides = vec![VendorOverride {
        declared: ident("alpha"),
        vendor: vendor("beta", "registry.beta.example.com"),
    }];
    let p = resolve_project_image(&kit_image(), &vendors, &overrides).unwrap();

    let project = p.project_image_uri();
    assert_eq!(
        project.registry.as_deref(),
        Some("registry.beta.example.com")
    );
    assert_eq!(project.repo, "my-kit");
    assert_eq!(project.tag, "v1.2.3");
    assert_eq!(
        project.uri(),
        "registry.beta.example.com/my-kit:v1.2.3"
    );

    let original = p.original_source_uri();
    assert_eq!(
        original.registry.as_deref(),
        Some("registry.alpha.example.com")
    );
    assert_eq!(
        original.uri(),
        "registry.alpha.example.com/my-kit:v1.2.3"
    );

    assert_ne!(project, original);
    assert_eq!(p.vendor_name().as_str(), "beta");
    assert_eq!(
        p.display_line(),
        "my-kit-1.2.3@registry.alpha.example.com/my-kit:v1.2.3 \
         (overridden-to: registry.beta.example.com/my-kit:v1.2.3)"
    );
}

#[test]
fn verbatim_vendor_uses_one_uri() {
    let vendors = vec![vendor("alpha", "registry.alpha.example.com")];
    let p = resolve_project_image(&kit_image(), &vendors, &vec![]).unwrap();
    assert!(matches!(p.vendor, ArtifactVendor::Verbatim(_)));
    assert_eq!(p.project_image_uri(), p.original_source_uri());
    assert_eq!(
        p.display_line(),
        "my-kit-1.2.3@registry.alpha.example.com/my-kit:v1.2.3"
    );
    assert_eq!(p.vendor_name().as_str(), "alpha");
    assert_eq!(p.name().as_str(), "my-kit");
    assert_eq!(p.version(), &Version::new(1, 2, 3));
}

#[test]
fn missing_vendor_is_a_resolution_error() {
    let vendors = vec![vendor("other", "registry.other.example.com")];
    let e = resolve_project_image(&kit_image(), &vendors, &vec![]).unwrap_err();
    assert_eq!(
        e,
        ResolutionError::MissingVendor {
            name: "alpha".to_string()
        }
    );
    assert_eq!(e.message(), "no vendor configured with name alpha");
}

#[test]
fn override_of_another_vendor_does_not_apply() {
    let vendors = vec![vendor("alpha", "registry.alpha.example.com")];
    let overrides = vec![VendorOverride {
        declared: ident("gamma"),
        vendor: vendor("beta", "registry.beta.example.com"),
    }];
    let p = resolve_project_image(&kit_image(), &vendors, &overrides).unwrap();
    assert!(matches!(p.vendor, ArtifactVendor::Verbatim(_)));
    assert_eq!(p.project_image_uri(), p.original_source_uri());
}

#[test]
fn image_from_vended_artifact_copies_all_three_fields() {
    let img = kit_image();
    let copy = Image::from_vended_artifact(&img);
    assert_eq!(copy, img);
    assert_eq!(img.to_text(), "my-kit-1.2.3@alpha");
}

#[test]
fn uri_without_registry_renders_repo_and_tag() {
    let u = twoliter::ImageUri {
        registry: None,
        repo: "my-kit".to_string(),
        tag: "v1.2.3".to_string(),
    };
    assert_eq!(u.uri(), "my-kit:v1.2.3");
}
