//! The dependency resolution model: versioned artifact references, vendors
//! and vendor overrides, and the registry URIs a build pulls from.
//!
//! Resolution is pure data transformation: given a declared dependency
//! (name, version, vendor name) and the project's configured vendors and
//! overrides, it produces a `ProjectImage` that can answer both "where does
//! this artifact normally come from" (for audit) and "where will this build
//! actually pull it from".
use vstd::prelude::*;

use crate::identifier::ValidIdentifier;
use crate::text::str_eq;
use crate::version::spec_version_tag;
use crate::version::spec_version_text;
use crate::version::version_tag;
use crate::version::Version;

verus! {

/// A source of artifacts, identified by its registry location.
#[derive(Debug, PartialEq, Eq, Hash, PartialOrd, Ord)]
pub struct Vendor {
    pub registry: String,
}

impl Clone for Vendor {
    fn clone(&self) -> (r: Self)
        ensures
            r == *self,
    {
        Vendor { registry: self.registry.clone() }
    }
}

/// A vendor together with the name the project configuration knows it by.
#[derive(Debug, PartialEq, Eq, Hash)]
pub struct NamedVendor {
    pub name: ValidIdentifier,
    pub vendor: Vendor,
}

impl Clone for NamedVendor {
    fn clone(&self) -> (r: Self)
        ensures
            r == *self,
    {
        NamedVendor { name: self.name.clone(), vendor: self.vendor.clone() }
    }
}

/// A configured substitution: dependencies declaring `declared` as their
/// vendor are redirected to `vendor`.
#[derive(Debug, PartialEq, Eq, Hash)]
pub struct VendorOverride {
    pub declared: ValidIdentifier,
    pub vendor: NamedVendor,
}

/// The vendor an artifact is resolved against: either the declared vendor
/// itself, or a configured override that remembers the declared one for
/// display and audit purposes.
#[derive(Debug, PartialEq, Eq, Hash)]
pub enum ArtifactVendor {
    Verbatim(NamedVendor),
    Overridden { vendor: NamedVendor, original: NamedVendor },
}

impl Clone for ArtifactVendor {
    fn clone(&self) -> (r: Self)
        ensures
            r == *self,
    {
        match self {
            ArtifactVendor::Verbatim(v) => ArtifactVendor::Verbatim(v.clone()),
            ArtifactVendor::Overridden { vendor, original } => ArtifactVendor::Overridden {
                vendor: vendor.clone(),
                original: original.clone(),
            },
        }
    }
}

impl ArtifactVendor {
    /// The vendor the build will actually use.
    pub open spec fn spec_vendor(&self) -> NamedVendor {
        match self {
            ArtifactVendor::Verbatim(v) => *v,
            ArtifactVendor::Overridden { vendor, .. } => *vendor,
        }
    }

    /// The vendor the dependency declared, before any override.
    pub open spec fn spec_original(&self) -> NamedVendor {
        match self {
            ArtifactVendor::Verbatim(v) => *v,
            ArtifactVendor::Overridden { original, .. } => *original,
        }
    }

    /// The name of the vendor the build will use.
    pub fn vendor_name(&self) -> (r: &ValidIdentifier)
        ensures
            *r == self.spec_vendor().name,
    {
        match self {
            ArtifactVendor::Verbatim(v) => &v.name,
            ArtifactVendor::Overridden { vendor, .. } => &vendor.name,
        }
    }

    /// The registry the build will pull from.
    pub fn registry(&self) -> (r: &String)
        ensures
            *r == self.spec_vendor().vendor.registry,
    {
        match self {
            ArtifactVendor::Verbatim(v) => &v.vendor.registry,
            ArtifactVendor::Overridden { vendor, .. } => &vendor.vendor.registry,
        }
    }

    /// The vendor the dependency declared, before any override.
    pub fn original_vendor(&self) -> (r: &NamedVendor)
        ensures
            *r == self.spec_original(),
    {
        match self {
            ArtifactVendor::Verbatim(v) => v,
            ArtifactVendor::Overridden { original, .. } => original,
        }
    }

    /// The repository path under which `image` is stored: derived from the
    /// artifact's name alone.
    pub fn repo_for<'a>(&self, image: &'a Image) -> (r: &'a ValidIdentifier)
        ensures
            *r == image.name,
    {
        &image.name
    }

    /// The URI under which this vendor serves `image`.
    pub fn image_uri_for(&self, image: &Image) -> (r: ImageUri)
        ensures
            r@ == spec_image_uri_for(*self, *image),
    {
        ImageUri {
            registry: Some(self.registry().clone()),
            repo: self.repo_for(image).0.clone(),
            tag: version_tag(&image.version),
        }
    }
}

/// A versioned artifact reference: one concrete dependency, identified by
/// name, version and vendor name. Two references denote the same dependency
/// only if all three fields match.
#[derive(Debug, PartialEq, Eq, Hash, PartialOrd, Ord)]
pub struct Image {
    pub name: ValidIdentifier,
    pub version: Version,
    pub vendor: ValidIdentifier,
}

impl Clone for Image {
    fn clone(&self) -> (r: Self)
        ensures
            r == *self,
    {
        Image { name: self.name.clone(), version: self.version, vendor: self.vendor.clone() }
    }
}

/// An artifact/vendor name combination identifying a resolved artifact.
pub trait VendedArtifact {
    spec fn spec_artifact_name(&self) -> Seq<char>;

    spec fn spec_vendor_name(&self) -> Seq<char>;

    spec fn spec_version(&self) -> Version;

    fn artifact_name(&self) -> (r: &ValidIdentifier)
        ensures
            r@ == self.spec_artifact_name(),
    ;

    fn vendor_name(&self) -> (r: &ValidIdentifier)
        ensures
            r@ == self.spec_vendor_name(),
    ;

    fn version(&self) -> (r: &Version)
        ensures
            *r == self.spec_version(),
    ;
}

impl VendedArtifact for Image {
    open spec fn spec_artifact_name(&self) -> Seq<char> {
        self.name@
    }

    open spec fn spec_vendor_name(&self) -> Seq<char> {
        self.vendor@
    }

    open spec fn spec_version(&self) -> Version {
        self.version
    }

    fn artifact_name(&self) -> (r: &ValidIdentifier) {
        &self.name
    }

    fn vendor_name(&self) -> (r: &ValidIdentifier) {
        &self.vendor
    }

    fn version(&self) -> (r: &Version) {
        &self.version
    }
}

/// The one-line text of an image reference: `name-version@vendor`.
pub open spec fn spec_image_text(img: Image) -> Seq<char> {
    img.name@ + seq!['-'] + spec_version_text(img.version) + seq!['@'] + img.vendor@
}

impl Image {
    /// Renders the reference as `name-version@vendor`.
    pub fn to_text(&self) -> (r: String)
        ensures
            r@ == spec_image_text(*self),
    {
        let mut s = self.name.0.clone();
        s.append("-");
        s.append(self.version.to_text().as_str());
        s.append("@");
        s.append(self.vendor.as_str());
        proof {
            reveal_strlit("-");
            reveal_strlit("@");
            assert(s@ =~= spec_image_text(*self));
        }
        s
    }

    /// Builds the reference that identifies `artifact`.
    pub fn from_vended_artifact<A: VendedArtifact>(artifact: &A) -> (r: Self)
        ensures
            r.name@ == artifact.spec_artifact_name(),
            r.vendor@ == artifact.spec_vendor_name(),
            r.version == artifact.spec_version(),
    {
        Image {
            name: artifact.artifact_name().clone(),
            vendor: artifact.vendor_name().clone(),
            version: *artifact.version(),
        }
    }
}

/// The mathematical value of an image URI: its registry (when one is
/// named), repository path, and tag.
pub struct ImageUriView {
    pub registry: Option<Seq<char>>,
    pub repo: Seq<char>,
    pub tag: Seq<char>,
}

/// A container-image URI, split into registry, repository path and tag.
#[derive(Debug, PartialEq, Eq, Hash)]
pub struct ImageUri {
    pub registry: Option<String>,
    pub repo: String,
    pub tag: String,
}

impl View for ImageUri {
    type V = ImageUriView;

    open spec fn view(&self) -> ImageUriView {
        ImageUriView {
            registry: match self.registry {
                Some(r) => Some(r@),
                None => None,
            },
            repo: self.repo@,
            tag: self.tag@,
        }
    }
}

/// The one-line text of a URI: `registry/repo:tag`, or `repo:tag` when no
/// registry is named.
pub open spec fn spec_uri_text(u: ImageUriView) -> Seq<char> {
    (match u.registry {
        Some(r) => r + seq!['/'] + u.repo,
        None => u.repo,
    }) + seq![':'] + u.tag
}

impl ImageUri {
    /// Renders the URI as `registry/repo:tag` (or `repo:tag`).
    pub fn uri(&self) -> (r: String)
        ensures
            r@ == spec_uri_text(self@),
    {
        let mut s: String = match &self.registry {
            Some(reg) => {
                let mut t = reg.clone();
                t.append("/");
                t.append(self.repo.as_str());
                t
            },
            None => self.repo.clone(),
        };
        s.append(":");
        s.append(self.tag.as_str());
        proof {
            reveal_strlit("/");
            reveal_strlit(":");
            assert(s@ =~= spec_uri_text(self@));
        }
        s
    }
}

/// The URI under which `vendor` serves `image`: the vendor's registry, the
/// repository path derived from the artifact name, and a `v`-prefixed
/// version tag.
pub open spec fn spec_image_uri_for(av: ArtifactVendor, image: Image) -> ImageUriView {
    ImageUriView {
        registry: Some(av.spec_vendor().vendor.registry@),
        repo: image.name@,
        tag: spec_version_tag(image.version),
    }
}

/// An image paired with the vendor it was resolved against.
#[derive(Debug, PartialEq, Eq, Hash)]
pub struct ProjectImage {
    pub image: Image,
    pub vendor: ArtifactVendor,
}

impl Clone for ProjectImage {
    fn clone(&self) -> (r: Self)
        ensures
            r == *self,
    {
        ProjectImage { image: self.image.clone(), vendor: self.vendor.clone() }
    }
}

/// The URI the artifact normally comes from: always the un-overridden
/// vendor's location.
pub open spec fn spec_original_source_uri(p: ProjectImage) -> ImageUriView {
    ImageUriView {
        registry: Some(p.vendor.spec_original().vendor.registry@),
        repo: p.image.name@,
        tag: spec_version_tag(p.image.version),
    }
}

/// The URI the build will actually pull from: the override vendor's location
/// when overridden, else the original source location.
pub open spec fn spec_project_image_uri(p: ProjectImage) -> ImageUriView {
    ImageUriView {
        registry: Some(p.vendor.spec_vendor().vendor.registry@),
        repo: p.image.name@,
        tag: spec_version_tag(p.image.version),
    }
}

/// The one-line rendering of a resolved artifact: both URIs when the vendor
/// is overridden, only the original source URI when it is not.
pub open spec fn spec_display_line(p: ProjectImage) -> Seq<char> {
    p.image.name@ + seq!['-'] + spec_version_text(p.image.version) + seq!['@'] + spec_uri_text(
        spec_original_source_uri(p),
    ) + if p.vendor is Overridden {
        " (overridden-to: "@ + spec_uri_text(spec_project_image_uri(p)) + ")"@
    } else {
        Seq::<char>::empty()
    }
}

impl ProjectImage {
    /// An overridden vendor actually redirects: it names a registry other
    /// than the declared vendor's. (An "override" to the very same registry
    /// would be indistinguishable from no override.)
    pub open spec fn redirects(&self) -> bool {
        self.vendor matches ArtifactVendor::Overridden { vendor, original } ==> vendor.vendor.registry@ != original.vendor.registry@
    }

    pub fn name(&self) -> (r: &ValidIdentifier)
        ensures
            *r == self.image.name,
    {
        &self.image.name
    }

    pub fn version(&self) -> (r: &Version)
        ensures
            *r == self.image.version,
    {
        &self.image.version
    }

    pub fn vendor_name(&self) -> (r: &ValidIdentifier)
        ensures
            *r == self.vendor.spec_vendor().name,
    {
        self.vendor.vendor_name()
    }

    /// Returns the URI for the original vendor.
    pub fn original_source_uri(&self) -> (r: ImageUri)
        ensures
            r@ == spec_original_source_uri(*self),
    {
        match &self.vendor {
            ArtifactVendor::Overridden { .. } => {
                let original = ArtifactVendor::Verbatim(self.vendor.original_vendor().clone());
                original.image_uri_for(&self.image)
            },
            ArtifactVendor::Verbatim(_) => self.vendor.image_uri_for(&self.image),
        }
    }

    /// Returns the image URI that the project will use for this image.
    ///
    /// This differs from the original source URI exactly when the vendor is
    /// overridden to another registry.
    pub fn project_image_uri(&self) -> (r: ImageUri)
        ensures
            r@ == spec_project_image_uri(*self),
    {
        self.vendor.image_uri_for(&self.image)
    }

    /// Renders the resolved artifact for operators: shows both URIs when the
    /// vendor is overridden and only one when it is not.
    pub fn display_line(&self) -> (r: String)
        ensures
            r@ == spec_display_line(*self),
    {
        let mut s = self.image.name.0.clone();
        s.append("-");
        s.append(self.image.version.to_text().as_str());
        s.append("@");
        s.append(self.original_source_uri().uri().as_str());
        match &self.vendor {
            ArtifactVendor::Overridden { .. } => {
                s.append(" (overridden-to: ");
                s.append(self.project_image_uri().uri().as_str());
                s.append(")");
            },
            ArtifactVendor::Verbatim(_) => {},
        }
        proof {
            reveal_strlit("-");
            reveal_strlit("@");
            assert(s@ =~= spec_display_line(*self));
        }
        s
    }
}

/// The project image URI reflects the vendor the build uses and the original
/// source URI reflects the declared vendor; the two are equal iff no
/// override is configured. Requires that a configured override actually
/// names a different registry.
pub proof fn lemma_uri_override(p: ProjectImage)
    requires
        p.redirects(),
    ensures
        spec_project_image_uri(p).registry == Some(p.vendor.spec_vendor().vendor.registry@),
        spec_original_source_uri(p).registry == Some(p.vendor.spec_original().vendor.registry@),
        (spec_project_image_uri(p) == spec_original_source_uri(p)) <==> p.vendor is Verbatim,
{
    match p.vendor {
        ArtifactVendor::Verbatim(_) => {
            assert(spec_project_image_uri(p) == spec_original_source_uri(p));
        },
        ArtifactVendor::Overridden { vendor, original } => {
            assert(spec_project_image_uri(p).registry != spec_original_source_uri(p).registry);
        },
    }
}

/// Why a dependency could not be resolved.
#[derive(Debug, PartialEq, Eq)]
pub enum ResolutionError {
    /// The declared vendor name has no configuration in the project.
    MissingVendor { name: String },
}

impl ResolutionError {
    /// The single human-readable line describing the failure.
    pub fn message(&self) -> (r: String)
        ensures
            self matches ResolutionError::MissingVendor { name } ==> r@ == "no vendor configured with name "@
                + name@,
    {
        match self {
            ResolutionError::MissingVendor { name } => {
                let mut s: String = "no vendor configured with name ".to_owned();
                s.append(name.as_str());
                s
            },
        }
    }
}

/// The first configured vendor carrying `name`, if any.
pub open spec fn spec_find_vendor(vendors: Seq<NamedVendor>, name: Seq<char>) -> Option<
    NamedVendor,
>
    decreases vendors.len(),
{
    if vendors.len() == 0 {
        None
    } else if vendors[0].name@ == name {
        Some(vendors[0])
    } else {
        spec_find_vendor(vendors.drop_first(), name)
    }
}

/// The first configured override for declared vendor `name`, if any.
pub open spec fn spec_find_override(overrides: Seq<VendorOverride>, name: Seq<char>) -> Option<
    VendorOverride,
>
    decreases overrides.len(),
{
    if overrides.len() == 0 {
        None
    } else if overrides[0].declared@ == name {
        Some(overrides[0])
    } else {
        spec_find_override(overrides.drop_first(), name)
    }
}

proof fn lemma_find_vendor_skip(vendors: Seq<NamedVendor>, name: Seq<char>, i: int)
    requires
        0 <= i <= vendors.len(),
        forall|j: int| 0 <= j < i ==> (#[trigger] vendors[j]).name@ != name,
    ensures
        spec_find_vendor(vendors, name) == spec_find_vendor(vendors.skip(i), name),
    decreases i,
{
    if i > 0 {
        lemma_find_vendor_skip(vendors.drop_first(), name, i - 1);
        assert(vendors.drop_first().skip(i - 1) =~= vendors.skip(i));
    } else {
        assert(vendors.skip(0) =~= vendors);
    }
}

proof fn lemma_find_override_skip(overrides: Seq<VendorOverride>, name: Seq<char>, i: int)
    requires
        0 <= i <= overrides.len(),
        forall|j: int| 0 <= j < i ==> (#[trigger] overrides[j]).declared@ != name,
    ensures
        spec_find_override(overrides, name) == spec_find_override(overrides.skip(i), name),
    decreases i,
{
    if i > 0 {
        lemma_find_override_skip(overrides.drop_first(), name, i - 1);
        assert(overrides.drop_first().skip(i - 1) =~= overrides.skip(i));
    } else {
        assert(overrides.skip(0) =~= overrides);
    }
}

fn find_vendor<'a>(vendors: &'a Vec<NamedVendor>, name: &ValidIdentifier) -> (r: Option<
    &'a NamedVendor,
>)
    ensures
        match r {
            Some(v) => spec_find_vendor(vendors@, name@) == Some(*v),
            None => spec_find_vendor(vendors@, name@) is None,
        },
{
    for i in 0..vendors.len()
        invariant
            forall|j: int| 0 <= j < i ==> (#[trigger] vendors@[j]).name@ != name@,
    {
        if str_eq(vendors[i].name.as_str(), name.as_str()) {
            proof {
                lemma_find_vendor_skip(vendors@, name@, i as int);
                assert(vendors@.skip(i as int)[0] == vendors@[i as int]);
            }
            return Some(&vendors[i]);
        }
    }
    proof {
        lemma_find_vendor_skip(vendors@, name@, vendors@.len() as int);
    }
    None
}

fn find_override<'a>(overrides: &'a Vec<VendorOverride>, name: &ValidIdentifier) -> (r: Option<
    &'a VendorOverride,
>)
    ensures
        match r {
            Some(o) => spec_find_override(overrides@, name@) == Some(*o),
            None => spec_find_override(overrides@, name@) is None,
        },
{
    for i in 0..overrides.len()
        invariant
            forall|j: int| 0 <= j < i ==> (#[trigger] overrides@[j]).declared@ != name@,
    {
        if str_eq(overrides[i].declared.as_str(), name.as_str()) {
            proof {
                lemma_find_override_skip(overrides@, name@, i as int);
                assert(overrides@.skip(i as int)[0] == overrides@[i as int]);
            }
            return Some(&overrides[i]);
        }
    }
    proof {
        lemma_find_override_skip(overrides@, name@, overrides@.len() as int);
    }
    None
}

/// Resolves a declared dependency against the project's configured vendors
/// and overrides: the declared vendor must be configured; when an override
/// for it is configured the result remembers both, otherwise the declared
/// vendor is used verbatim.
pub fn resolve_project_image(
    image: &Image,
    vendors: &Vec<NamedVendor>,
    overrides: &Vec<VendorOverride>,
) -> (r: Result<ProjectImage, ResolutionError>)
    ensures
        r is Ok <==> spec_find_vendor(vendors@, image.vendor@) is Some,
        r matches Err(e) ==> e matches ResolutionError::MissingVendor { name } && name@
            == image.vendor@,
        r matches Ok(p) ==> {
            &&& p.image == *image
            &&& match spec_find_override(overrides@, image.vendor@) {
                Some(o) => p.vendor == (ArtifactVendor::Overridden {
                    vendor: o.vendor,
                    original: spec_find_vendor(vendors@, image.vendor@)->Some_0,
                }),
                None => p.vendor == ArtifactVendor::Verbatim(
                    spec_find_vendor(vendors@, image.vendor@)->Some_0,
                ),
            }
        },
{
    let declared = match find_vendor(vendors, &image.vendor) {
        Some(v) => v,
        None => {
            return Err(ResolutionError::MissingVendor { name: image.vendor.0.clone() });
        },
    };
    let vendor = match find_override(overrides, &image.vendor) {
        Some(o) => ArtifactVendor::Overridden { vendor: o.vendor.clone(), original: declared.clone() },
        None => ArtifactVendor::Verbatim(declared.clone()),
    };
    Ok(ProjectImage { image: image.clone(), vendor })
}

} // verus!
