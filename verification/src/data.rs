//! Image content and the results of registry operations.

use crate::manifest::{
    opt_image_manifest_view, tagged_manifest, ImageManifest, ImageManifestView, Manifest,
    ManifestView, OciManifest,
};
use crate::text::{opt_map_view, opt_str_view};
use std::collections::BTreeMap;
use vstd::prelude::*;

verus! {

/// An image layer: data and metadata.
#[derive(Clone, Debug)]
pub struct ImageLayer {
    /// The layer data.
    pub data: Vec<u8>,
    /// The media type of this layer.
    pub media_type: String,
    /// Annotations of this layer.
    pub annotations: Option<BTreeMap<String, String>>,
}

/// Configuration object of an image.
#[derive(Clone, Debug)]
pub struct Config {
    /// The config data.
    pub data: Vec<u8>,
    /// The media type of this config.
    pub media_type: String,
    /// Annotations of this config.
    pub annotations: Option<BTreeMap<String, String>>,
}

/// Mathematical value of an [`ImageLayer`] or a [`Config`].
pub struct BlobView {
    pub data: Seq<u8>,
    pub media_type: Seq<char>,
    pub annotations: Option<Map<String, String>>,
}

impl View for ImageLayer {
    type V = BlobView;

    open spec fn view(&self) -> BlobView {
        BlobView {
            data: self.data@,
            media_type: self.media_type@,
            annotations: opt_map_view(self.annotations),
        }
    }
}

impl View for Config {
    type V = BlobView;

    open spec fn view(&self) -> BlobView {
        BlobView {
            data: self.data@,
            media_type: self.media_type@,
            annotations: opt_map_view(self.annotations),
        }
    }
}

/// View of a list of layers.
pub open spec fn layers_view(v: Seq<ImageLayer>) -> Seq<BlobView> {
    Seq::new(v.len(), |i: int| v[i]@)
}

/// What pulling an image yields.
#[derive(Clone, Debug)]
pub struct ImageData {
    /// The layers of the image, in manifest order.
    pub layers: Vec<ImageLayer>,
    /// The digest of the image, if known.
    pub digest: Option<String>,
    /// The configuration object of the image.
    pub config: Config,
    /// The manifest, if known.
    pub manifest: Option<ImageManifest>,
}

/// Mathematical value of an [`ImageData`].
pub struct ImageDataView {
    pub layers: Seq<BlobView>,
    pub digest: Option<Seq<char>>,
    pub config: BlobView,
    pub manifest: Option<ImageManifestView>,
}

impl View for ImageData {
    type V = ImageDataView;

    open spec fn view(&self) -> ImageDataView {
        ImageDataView {
            layers: layers_view(self.layers@),
            digest: opt_str_view(self.digest),
            config: self.config@,
            manifest: opt_image_manifest_view(self.manifest),
        }
    }
}

/// What pushing an image yields.
#[derive(Clone, Debug)]
pub struct PushResponse {
    /// Pullable URL of the config.
    pub config_url: String,
    /// Pullable URL of the manifest.
    pub manifest_url: String,
}

/// Mathematical value of a [`PushResponse`].
pub struct PushResponseView {
    pub config_url: Seq<char>,
    pub manifest_url: Seq<char>,
}

impl View for PushResponse {
    type V = PushResponseView;

    open spec fn view(&self) -> PushResponseView {
        PushResponseView { config_url: self.config_url@, manifest_url: self.manifest_url@ }
    }
}

/// A pulled manifest of either kind with its digest.
#[derive(Clone, Debug)]
pub struct PullManifestResult {
    /// The pulled manifest.
    pub manifest: Manifest,
    /// The digest of the manifest.
    pub digest: String,
}

/// Mathematical value of a [`PullManifestResult`].
pub struct PullManifestResultView {
    pub manifest: ManifestView,
    pub digest: Seq<char>,
}

impl View for PullManifestResult {
    type V = PullManifestResultView;

    open spec fn view(&self) -> PullManifestResultView {
        PullManifestResultView { manifest: self.manifest@, digest: self.digest@ }
    }
}

impl PullManifestResult {
    /// The result of pulling a manifest of one kind: its loosely typed form
    /// beside the digest that the registry reported.
    pub fn from_pulled(manifest: OciManifest, digest: String) -> (r: PullManifestResult)
        ensures
            r@ == (PullManifestResultView { manifest: tagged_manifest(manifest@), digest: digest@ }),
    {
        PullManifestResult { manifest: Manifest::from(manifest), digest }
    }
}

/// A pulled image manifest with its digest.
#[derive(Clone, Debug)]
pub struct PullImageManifestResult {
    /// The pulled image manifest.
    pub manifest: ImageManifest,
    /// The digest of the manifest.
    pub digest: String,
}

/// Mathematical value of a [`PullImageManifestResult`].
pub struct PullImageManifestResultView {
    pub manifest: ImageManifestView,
    pub digest: Seq<char>,
}

impl View for PullImageManifestResult {
    type V = PullImageManifestResultView;

    open spec fn view(&self) -> PullImageManifestResultView {
        PullImageManifestResultView { manifest: self.manifest@, digest: self.digest@ }
    }
}

impl PullImageManifestResult {
    /// The result of pulling an image manifest: the manifest beside the
    /// digest that the registry reported.
    pub fn from_pulled(manifest: ImageManifest, digest: String) -> (r: PullImageManifestResult)
        ensures
            r@ == (PullImageManifestResultView { manifest: manifest@, digest: digest@ }),
    {
        PullImageManifestResult { manifest, digest }
    }
}

} // verus!
