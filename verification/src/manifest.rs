//! Manifests: descriptors, image manifests, image indices and the choice of
//! a platform-specific entry of an index.

use crate::text::{opt_map_view, opt_str_view, opt_strings_view};
use std::collections::BTreeMap;
use vstd::prelude::*;

verus! {

/// Describes a content-addressable resource.
#[derive(Clone, Debug)]
pub struct Descriptor {
    /// The media type of the referenced content.
    pub media_type: String,
    /// The digest of the targeted content.
    pub digest: String,
    /// The size in bytes of the targeted content.
    pub size: i64,
    /// URLs from which this object may be downloaded.
    pub urls: Option<Vec<String>>,
    /// Annotations of this descriptor.
    pub annotations: Option<BTreeMap<String, String>>,
}

/// Mathematical value of a [`Descriptor`].
pub struct DescriptorView {
    pub media_type: Seq<char>,
    pub digest: Seq<char>,
    pub size: int,
    pub urls: Option<Seq<Seq<char>>>,
    pub annotations: Option<Map<String, String>>,
}

impl View for Descriptor {
    type V = DescriptorView;

    open spec fn view(&self) -> DescriptorView {
        DescriptorView {
            media_type: self.media_type@,
            digest: self.digest@,
            size: self.size as int,
            urls: opt_strings_view(self.urls),
            annotations: opt_map_view(self.annotations),
        }
    }
}

/// View of a list of descriptors.
pub open spec fn descriptors_view(v: Seq<Descriptor>) -> Seq<DescriptorView> {
    Seq::new(v.len(), |i: int| v[i]@)
}

/// View of an optional descriptor.
pub open spec fn opt_descriptor_view(d: Option<Descriptor>) -> Option<DescriptorView> {
    match d {
        Some(v) => Some(v@),
        None => None,
    }
}

/// The platform that a manifest of an index is built for.
#[derive(Clone, Debug)]
pub struct PlatformSpec {
    /// CPU architecture.
    pub architecture: String,
    /// Operating system.
    pub os: String,
    /// OS version.
    pub os_version: Option<String>,
    /// OS features.
    pub os_features: Option<Vec<String>>,
    /// CPU variant.
    pub variant: Option<String>,
    /// Additional features.
    pub features: Option<Vec<String>>,
}

/// Mathematical value of a [`PlatformSpec`].
pub struct PlatformView {
    pub architecture: Seq<char>,
    pub os: Seq<char>,
    pub os_version: Option<Seq<char>>,
    pub os_features: Option<Seq<Seq<char>>>,
    pub variant: Option<Seq<char>>,
    pub features: Option<Seq<Seq<char>>>,
}

impl View for PlatformSpec {
    type V = PlatformView;

    open spec fn view(&self) -> PlatformView {
        PlatformView {
            architecture: self.architecture@,
            os: self.os@,
            os_version: opt_str_view(self.os_version),
            os_features: opt_strings_view(self.os_features),
            variant: opt_str_view(self.variant),
            features: opt_strings_view(self.features),
        }
    }
}

/// View of an optional platform.
pub open spec fn opt_platform_view(p: Option<PlatformSpec>) -> Option<PlatformView> {
    match p {
        Some(v) => Some(v@),
        None => None,
    }
}

/// An entry of an image index.
#[derive(Clone, Debug)]
pub struct ManifestEntry {
    /// Media type of the manifest.
    pub media_type: String,
    /// Digest of the manifest.
    pub digest: String,
    /// Size in bytes.
    pub size: i64,
    /// The platform the manifest is built for.
    pub platform: Option<PlatformSpec>,
    /// Annotations.
    pub annotations: Option<BTreeMap<String, String>>,
}

/// Mathematical value of a [`ManifestEntry`].
pub struct ManifestEntryView {
    pub media_type: Seq<char>,
    pub digest: Seq<char>,
    pub size: int,
    pub platform: Option<PlatformView>,
    pub annotations: Option<Map<String, String>>,
}

impl View for ManifestEntry {
    type V = ManifestEntryView;

    open spec fn view(&self) -> ManifestEntryView {
        ManifestEntryView {
            media_type: self.media_type@,
            digest: self.digest@,
            size: self.size as int,
            platform: opt_platform_view(self.platform),
            annotations: opt_map_view(self.annotations),
        }
    }
}

/// View of a list of index entries.
pub open spec fn entries_view(v: Seq<ManifestEntry>) -> Seq<ManifestEntryView> {
    Seq::new(v.len(), |i: int| v[i]@)
}

/// An image index (manifest list).
#[derive(Clone, Debug)]
pub struct ImageIndex {
    /// Schema version.
    pub schema_version: u8,
    /// Media type of this manifest.
    pub media_type: Option<String>,
    /// Manifests for specific platforms, in order.
    pub manifests: Vec<ManifestEntry>,
    /// Artifact type.
    pub artifact_type: Option<String>,
    /// Annotations.
    pub annotations: Option<BTreeMap<String, String>>,
}

/// Mathematical value of an [`ImageIndex`].
pub struct ImageIndexView {
    pub schema_version: nat,
    pub media_type: Option<Seq<char>>,
    pub manifests: Seq<ManifestEntryView>,
    pub artifact_type: Option<Seq<char>>,
    pub annotations: Option<Map<String, String>>,
}

impl View for ImageIndex {
    type V = ImageIndexView;

    open spec fn view(&self) -> ImageIndexView {
        ImageIndexView {
            schema_version: self.schema_version as nat,
            media_type: opt_str_view(self.media_type),
            manifests: entries_view(self.manifests@),
            artifact_type: opt_str_view(self.artifact_type),
            annotations: opt_map_view(self.annotations),
        }
    }
}

/// An image manifest.
#[derive(Clone, Debug)]
pub struct ImageManifest {
    /// Schema version.
    pub schema_version: u8,
    /// Media type of this manifest.
    pub media_type: Option<String>,
    /// The image configuration descriptor.
    pub config: Descriptor,
    /// The image layers, in order.
    pub layers: Vec<Descriptor>,
    /// Subject descriptor, for referrers.
    pub subject: Option<Descriptor>,
    /// Artifact type.
    pub artifact_type: Option<String>,
    /// Annotations.
    pub annotations: Option<BTreeMap<String, String>>,
}

/// Mathematical value of an [`ImageManifest`].
pub struct ImageManifestView {
    pub schema_version: nat,
    pub media_type: Option<Seq<char>>,
    pub config: DescriptorView,
    pub layers: Seq<DescriptorView>,
    pub subject: Option<DescriptorView>,
    pub artifact_type: Option<Seq<char>>,
    pub annotations: Option<Map<String, String>>,
}

impl View for ImageManifest {
    type V = ImageManifestView;

    open spec fn view(&self) -> ImageManifestView {
        ImageManifestView {
            schema_version: self.schema_version as nat,
            media_type: opt_str_view(self.media_type),
            config: self.config@,
            layers: descriptors_view(self.layers@),
            subject: opt_descriptor_view(self.subject),
            artifact_type: opt_str_view(self.artifact_type),
            annotations: opt_map_view(self.annotations),
        }
    }
}

/// View of an optional image manifest.
pub open spec fn opt_image_manifest_view(m: Option<ImageManifest>) -> Option<ImageManifestView> {
    match m {
        Some(v) => Some(v@),
        None => None,
    }
}

/// View of an optional image index.
pub open spec fn opt_image_index_view(m: Option<ImageIndex>) -> Option<ImageIndexView> {
    match m {
        Some(v) => Some(v@),
        None => None,
    }
}

/// Discriminator of a [`Manifest`].
#[derive(Clone, Copy, Debug, PartialEq, Eq, Structural)]
pub enum ManifestType {
    /// An image manifest.
    Image,
    /// An image index (manifest list).
    ImageIndex,
}

/// A manifest as callers supply and receive it: a discriminator and one
/// optional field per kind.
#[derive(Clone, Debug)]
pub struct Manifest {
    /// The kind of manifest.
    pub manifest_type: ManifestType,
    /// The image manifest, set when the kind is `Image`.
    pub image: Option<ImageManifest>,
    /// The image index, set when the kind is `ImageIndex`.
    pub image_index: Option<ImageIndex>,
}

/// Mathematical value of a [`Manifest`].
pub struct ManifestView {
    pub manifest_type: ManifestType,
    pub image: Option<ImageManifestView>,
    pub image_index: Option<ImageIndexView>,
}

impl View for Manifest {
    type V = ManifestView;

    open spec fn view(&self) -> ManifestView {
        ManifestView {
            manifest_type: self.manifest_type,
            image: opt_image_manifest_view(self.image),
            image_index: opt_image_index_view(self.image_index),
        }
    }
}

/// A manifest of exactly one kind.
#[derive(Clone, Debug)]
pub enum OciManifest {
    /// An image manifest.
    Image(ImageManifest),
    /// An image index.
    ImageIndex(ImageIndex),
}

/// Mathematical value of an [`OciManifest`].
pub enum OciManifestView {
    Image(ImageManifestView),
    ImageIndex(ImageIndexView),
}

impl View for OciManifest {
    type V = OciManifestView;

    open spec fn view(&self) -> OciManifestView {
        match self {
            OciManifest::Image(m) => OciManifestView::Image(m@),
            OciManifest::ImageIndex(m) => OciManifestView::ImageIndex(m@),
        }
    }
}

/// Why a [`Manifest`] does not describe a manifest of one kind.
#[derive(Clone, Copy, Debug, PartialEq, Eq, Structural)]
pub enum ManifestError {
    /// The kind is `Image` and the image field is not set.
    MissingImage,
    /// The kind is `ImageIndex` and the index field is not set.
    MissingImageIndex,
}

/// The loosely typed form of a manifest of one kind: the discriminator of
/// its kind, its payload in the field of that kind and nothing in the other.
pub open spec fn tagged_manifest(m: OciManifestView) -> ManifestView {
    match m {
        OciManifestView::Image(img) => ManifestView {
            manifest_type: ManifestType::Image,
            image: Some(img),
            image_index: None,
        },
        OciManifestView::ImageIndex(idx) => ManifestView {
            manifest_type: ManifestType::ImageIndex,
            image: None,
            image_index: Some(idx),
        },
    }
}

/// The manifest of one kind that a loosely typed manifest denotes: the
/// payload of the field that the discriminator selects; the other field is
/// ignored.
pub open spec fn untagged_manifest(m: ManifestView) -> Result<OciManifestView, ManifestError> {
    match m.manifest_type {
        ManifestType::Image => match m.image {
            Some(img) => Ok(OciManifestView::Image(img)),
            None => Err(ManifestError::MissingImage),
        },
        ManifestType::ImageIndex => match m.image_index {
            Some(idx) => Ok(OciManifestView::ImageIndex(idx)),
            None => Err(ManifestError::MissingImageIndex),
        },
    }
}

/// View of the outcome of checking a manifest.
pub open spec fn manifest_result_view(r: Result<OciManifest, ManifestError>) -> Result<
    OciManifestView,
    ManifestError,
> {
    match r {
        Ok(m) => Ok(m@),
        Err(e) => Err(e),
    }
}

impl ManifestError {
    /// The text of this error.
    pub open spec fn spec_message(self) -> Seq<char> {
        match self {
            ManifestError::MissingImage => "image field required for Image manifest type"@,
            ManifestError::MissingImageIndex =>
                "image_index field required for ImageIndex manifest type"@,
        }
    }

    /// Human-readable cause.
    pub fn message(&self) -> (s: String)
        ensures
            s@ == self.spec_message(),
    {
        match self {
            ManifestError::MissingImage => "image field required for Image manifest type".to_owned(),
            ManifestError::MissingImageIndex =>
                "image_index field required for ImageIndex manifest type".to_owned(),
        }
    }
}

impl Manifest {
    /// The loosely typed form of a manifest of one kind.
    pub fn from(m: OciManifest) -> (r: Manifest)
        ensures
            r@ == tagged_manifest(m@),
    {
        match m {
            OciManifest::Image(img) => Manifest {
                manifest_type: ManifestType::Image,
                image: Some(img),
                image_index: None,
            },
            OciManifest::ImageIndex(idx) => Manifest {
                manifest_type: ManifestType::ImageIndex,
                image: None,
                image_index: Some(idx),
            },
        }
    }
}

impl OciManifest {
    /// Checks that the field selected by the discriminator is set and
    /// returns the manifest it holds.
    pub fn try_from(m: Manifest) -> (r: Result<OciManifest, ManifestError>)
        ensures
            manifest_result_view(r) == untagged_manifest(m@),
    {
        match m.manifest_type {
            ManifestType::Image => match m.image {
                Some(img) => Ok(OciManifest::Image(img)),
                None => Err(ManifestError::MissingImage),
            },
            ManifestType::ImageIndex => match m.image_index {
                Some(idx) => Ok(OciManifest::ImageIndex(idx)),
                None => Err(ManifestError::MissingImageIndex),
            },
        }
    }
}

/// Tagging a manifest of one kind and checking the tagged form gives the
/// manifest back.
pub proof fn lemma_tag_then_untag(m: OciManifestView)
    ensures
        untagged_manifest(tagged_manifest(m)) == Ok::<OciManifestView, ManifestError>(m),
{
}

} // verus!
