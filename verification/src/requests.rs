//! Preparation of each operation's request from its arguments.

use crate::auth::{RegistryAuth, RegistryAuthView};
use crate::config::opt_u32_view;
use crate::data::{layers_view, BlobView, Config, ImageLayer};
use crate::error::{ClientError, ReferenceRole};
use crate::manifest::{
    opt_image_manifest_view, ImageIndex, ImageIndexView, ImageManifest, ImageManifestView, Manifest,
    ManifestView,
};
use crate::plan::{
    check_auth, check_manifest, check_reference, checked_auth, checked_manifest, checked_reference,
    request_result_view, Request, RequestView,
};
use crate::reference::{reference_result_view, ParseError, Reference, ReferenceView};
use crate::text::{opt_str_view, strings_view};
use vstd::prelude::*;

verus! {

/// The request of `pull`: the reference is checked first, then the authentication; the
/// first error found is the outcome.
pub open spec fn pull_request(
    parsed: Result<ReferenceView, ParseError>,
    auth: RegistryAuthView,
    accepted_media_types: Seq<Seq<char>>,
) -> Result<RequestView, ClientError> {
    match checked_reference(ReferenceRole::Image, parsed) {
        Err(e) => Err(e),
        Ok(image) => match checked_auth(auth) {
            Err(e) => Err(e),
            Ok(auth) => Ok(RequestView::Pull { image: image, auth, accepted_media_types }),
        },
    }
}

/// The request of `pull_image_manifest`: the reference is checked first, then the authentication; the
/// first error found is the outcome.
pub open spec fn pull_image_manifest_request(
    parsed: Result<ReferenceView, ParseError>,
    auth: RegistryAuthView,
) -> Result<RequestView, ClientError> {
    match checked_reference(ReferenceRole::Image, parsed) {
        Err(e) => Err(e),
        Ok(image) => match checked_auth(auth) {
            Err(e) => Err(e),
            Ok(auth) => Ok(RequestView::PullImageManifest { image: image, auth }),
        },
    }
}

/// The request of `pull_manifest`: the reference is checked first, then the authentication; the
/// first error found is the outcome.
pub open spec fn pull_manifest_request(
    parsed: Result<ReferenceView, ParseError>,
    auth: RegistryAuthView,
) -> Result<RequestView, ClientError> {
    match checked_reference(ReferenceRole::Image, parsed) {
        Err(e) => Err(e),
        Ok(image) => match checked_auth(auth) {
            Err(e) => Err(e),
            Ok(auth) => Ok(RequestView::PullManifest { image: image, auth }),
        },
    }
}

/// The request of `pull_manifest_raw`: the reference is checked first, then the authentication; the
/// first error found is the outcome.
pub open spec fn pull_manifest_raw_request(
    parsed: Result<ReferenceView, ParseError>,
    auth: RegistryAuthView,
    accepted_media_types: Seq<Seq<char>>,
) -> Result<RequestView, ClientError> {
    match checked_reference(ReferenceRole::Image, parsed) {
        Err(e) => Err(e),
        Ok(image) => match checked_auth(auth) {
            Err(e) => Err(e),
            Ok(auth) => Ok(RequestView::PullManifestRaw { image: image, auth, accepted_media_types }),
        },
    }
}

/// The request of `fetch_manifest_digest`: the reference is checked first, then the authentication; the
/// first error found is the outcome.
pub open spec fn fetch_manifest_digest_request(
    parsed: Result<ReferenceView, ParseError>,
    auth: RegistryAuthView,
) -> Result<RequestView, ClientError> {
    match checked_reference(ReferenceRole::Image, parsed) {
        Err(e) => Err(e),
        Ok(image) => match checked_auth(auth) {
            Err(e) => Err(e),
            Ok(auth) => Ok(RequestView::FetchManifestDigest { image: image, auth }),
        },
    }
}

/// The request of `push_manifest_list`: the reference is checked first, then the authentication; the
/// first error found is the outcome.
pub open spec fn push_manifest_list_request(
    parsed: Result<ReferenceView, ParseError>,
    auth: RegistryAuthView,
    manifest: ImageIndexView,
) -> Result<RequestView, ClientError> {
    match checked_reference(ReferenceRole::Reference, parsed) {
        Err(e) => Err(e),
        Ok(image) => match checked_auth(auth) {
            Err(e) => Err(e),
            Ok(auth) => Ok(RequestView::PushManifestList { reference: image, auth, manifest }),
        },
    }
}

/// The request of `pull_referrers`: the reference is checked; the
/// first error found is the outcome.
pub open spec fn pull_referrers_request(
    parsed: Result<ReferenceView, ParseError>,
    artifact_type: Option<Seq<char>>,
) -> Result<RequestView, ClientError> {
    match checked_reference(ReferenceRole::Image, parsed) {
        Err(e) => Err(e),
        Ok(image) => Ok(RequestView::PullReferrers { image: image, artifact_type }),
    }
}

/// The request of `push_blob`: the reference is checked; the
/// first error found is the outcome.
pub open spec fn push_blob_request(
    parsed: Result<ReferenceView, ParseError>,
    data: Seq<u8>,
    digest: Seq<char>,
) -> Result<RequestView, ClientError> {
    match checked_reference(ReferenceRole::Image, parsed) {
        Err(e) => Err(e),
        Ok(image) => Ok(RequestView::PushBlob { image: image, data, digest }),
    }
}

/// The request of `pull_blob`: the reference is checked; the
/// first error found is the outcome.
pub open spec fn pull_blob_request(
    parsed: Result<ReferenceView, ParseError>,
    digest: Seq<char>,
) -> Result<RequestView, ClientError> {
    match checked_reference(ReferenceRole::Image, parsed) {
        Err(e) => Err(e),
        Ok(image) => Ok(RequestView::PullBlob { image: image, digest }),
    }
}

/// The request of `blob_exists`: the reference is checked; the
/// first error found is the outcome.
pub open spec fn blob_exists_request(
    parsed: Result<ReferenceView, ParseError>,
    digest: Seq<char>,
) -> Result<RequestView, ClientError> {
    match checked_reference(ReferenceRole::Image, parsed) {
        Err(e) => Err(e),
        Ok(image) => Ok(RequestView::BlobExists { image: image, digest }),
    }
}

/// The request of `push`: the reference is checked first, then the
/// authentication; the first error found is the outcome. Layers, config and
/// manifest are carried as given.
pub open spec fn push_request(
    parsed: Result<ReferenceView, ParseError>,
    layers: Seq<BlobView>,
    config: BlobView,
    auth: RegistryAuthView,
    manifest: Option<ImageManifestView>,
) -> Result<RequestView, ClientError> {
    match checked_reference(ReferenceRole::Image, parsed) {
        Err(e) => Err(e),
        Ok(image) => match checked_auth(auth) {
            Err(e) => Err(e),
            Ok(auth) => Ok(RequestView::Push { image, layers, config, auth, manifest }),
        },
    }
}

/// The request of `store_auth`: the authentication is checked.
pub open spec fn store_auth_request(registry: Seq<char>, auth: RegistryAuthView) -> Result<
    RequestView,
    ClientError,
> {
    match checked_auth(auth) {
        Err(e) => Err(e),
        Ok(auth) => Ok(RequestView::StoreAuth { registry, auth }),
    }
}

/// The request of `push_manifest`: the reference is checked first, then the
/// manifest; the first error found is the outcome.
pub open spec fn push_manifest_request(
    parsed: Result<ReferenceView, ParseError>,
    manifest: ManifestView,
) -> Result<RequestView, ClientError> {
    match checked_reference(ReferenceRole::Image, parsed) {
        Err(e) => Err(e),
        Ok(image) => match checked_manifest(manifest) {
            Err(e) => Err(e),
            Ok(manifest) => Ok(RequestView::PushManifest { image, manifest }),
        },
    }
}

/// The request of `mount_blob`: the target reference is checked first,
/// then the source reference; the first error found is the outcome.
pub open spec fn mount_blob_request(
    target: Result<ReferenceView, ParseError>,
    source: Result<ReferenceView, ParseError>,
    digest: Seq<char>,
) -> Result<RequestView, ClientError> {
    match checked_reference(ReferenceRole::Target, target) {
        Err(e) => Err(e),
        Ok(target) => match checked_reference(ReferenceRole::Source, source) {
            Err(e) => Err(e),
            Ok(source) => Ok(RequestView::MountBlob { target, source, digest }),
        },
    }
}

/// The request of `list_tags`: the reference is checked first, then the
/// authentication; the first error found is the outcome. Page size and
/// continuation marker are carried as given.
pub open spec fn list_tags_request(
    parsed: Result<ReferenceView, ParseError>,
    auth: RegistryAuthView,
    n: Option<nat>,
    last: Option<Seq<char>>,
) -> Result<RequestView, ClientError> {
    match checked_reference(ReferenceRole::Image, parsed) {
        Err(e) => Err(e),
        Ok(image) => match checked_auth(auth) {
            Err(e) => Err(e),
            Ok(auth) => Ok(RequestView::ListTags { image, auth, n, last }),
        },
    }
}

impl Request {
    /// Prepares the pull of an image.
    pub fn pull(
        parsed: Result<Reference, ParseError>,
        auth: RegistryAuth,
        accepted_media_types: Vec<String>,
    ) -> (r: Result<Request, ClientError>)
        ensures
            request_result_view(r) == pull_request(reference_result_view(parsed), auth@, strings_view(accepted_media_types@)),
    {
        let image = check_reference(ReferenceRole::Image, parsed)?;
        let auth = check_auth(&auth)?;
        Ok(Request::Pull { image: image, auth, accepted_media_types })
    }

    /// Prepares the pull of an image manifest.
    pub fn pull_image_manifest(
        parsed: Result<Reference, ParseError>,
        auth: RegistryAuth,
    ) -> (r: Result<Request, ClientError>)
        ensures
            request_result_view(r) == pull_image_manifest_request(reference_result_view(parsed), auth@),
    {
        let image = check_reference(ReferenceRole::Image, parsed)?;
        let auth = check_auth(&auth)?;
        Ok(Request::PullImageManifest { image: image, auth })
    }

    /// Prepares the pull of a manifest of either kind.
    pub fn pull_manifest(
        parsed: Result<Reference, ParseError>,
        auth: RegistryAuth,
    ) -> (r: Result<Request, ClientError>)
        ensures
            request_result_view(r) == pull_manifest_request(reference_result_view(parsed), auth@),
    {
        let image = check_reference(ReferenceRole::Image, parsed)?;
        let auth = check_auth(&auth)?;
        Ok(Request::PullManifest { image: image, auth })
    }

    /// Prepares the pull of a manifest as raw bytes.
    pub fn pull_manifest_raw(
        parsed: Result<Reference, ParseError>,
        auth: RegistryAuth,
        accepted_media_types: Vec<String>,
    ) -> (r: Result<Request, ClientError>)
        ensures
            request_result_view(r) == pull_manifest_raw_request(reference_result_view(parsed), auth@, strings_view(accepted_media_types@)),
    {
        let image = check_reference(ReferenceRole::Image, parsed)?;
        let auth = check_auth(&auth)?;
        Ok(Request::PullManifestRaw { image: image, auth, accepted_media_types })
    }

    /// Prepares the fetch of a manifest digest.
    pub fn fetch_manifest_digest(
        parsed: Result<Reference, ParseError>,
        auth: RegistryAuth,
    ) -> (r: Result<Request, ClientError>)
        ensures
            request_result_view(r) == fetch_manifest_digest_request(reference_result_view(parsed), auth@),
    {
        let image = check_reference(ReferenceRole::Image, parsed)?;
        let auth = check_auth(&auth)?;
        Ok(Request::FetchManifestDigest { image: image, auth })
    }

    /// Prepares the push of an image index.
    pub fn push_manifest_list(
        parsed: Result<Reference, ParseError>,
        auth: RegistryAuth,
        manifest: ImageIndex,
    ) -> (r: Result<Request, ClientError>)
        ensures
            request_result_view(r) == push_manifest_list_request(reference_result_view(parsed), auth@, manifest@),
    {
        let image = check_reference(ReferenceRole::Reference, parsed)?;
        let auth = check_auth(&auth)?;
        Ok(Request::PushManifestList { reference: image, auth, manifest })
    }

    /// Prepares the listing of the referrers of an artifact.
    pub fn pull_referrers(
        parsed: Result<Reference, ParseError>,
        artifact_type: Option<String>,
    ) -> (r: Result<Request, ClientError>)
        ensures
            request_result_view(r) == pull_referrers_request(reference_result_view(parsed), opt_str_view(artifact_type)),
    {
        let image = check_reference(ReferenceRole::Image, parsed)?;
        Ok(Request::PullReferrers { image: image, artifact_type })
    }

    /// Prepares the push of a blob.
    pub fn push_blob(
        parsed: Result<Reference, ParseError>,
        data: Vec<u8>,
        digest: String,
    ) -> (r: Result<Request, ClientError>)
        ensures
            request_result_view(r) == push_blob_request(reference_result_view(parsed), data@, digest@),
    {
        let image = check_reference(ReferenceRole::Image, parsed)?;
        Ok(Request::PushBlob { image: image, data, digest })
    }

    /// Prepares the pull of a blob.
    pub fn pull_blob(
        parsed: Result<Reference, ParseError>,
        digest: String,
    ) -> (r: Result<Request, ClientError>)
        ensures
            request_result_view(r) == pull_blob_request(reference_result_view(parsed), digest@),
    {
        let image = check_reference(ReferenceRole::Image, parsed)?;
        Ok(Request::PullBlob { image: image, digest })
    }

    /// Prepares the existence check of a blob.
    pub fn blob_exists(
        parsed: Result<Reference, ParseError>,
        digest: String,
    ) -> (r: Result<Request, ClientError>)
        ensures
            request_result_view(r) == blob_exists_request(reference_result_view(parsed), digest@),
    {
        let image = check_reference(ReferenceRole::Image, parsed)?;
        Ok(Request::BlobExists { image: image, digest })
    }

    /// Prepares the push of an image.
    pub fn push(
        parsed: Result<Reference, ParseError>,
        layers: Vec<ImageLayer>,
        config: Config,
        auth: RegistryAuth,
        manifest: Option<ImageManifest>,
    ) -> (r: Result<Request, ClientError>)
        ensures
            request_result_view(r) == push_request(
                reference_result_view(parsed),
                layers_view(layers@),
                config@,
                auth@,
                opt_image_manifest_view(manifest),
            ),
    {
        let image = check_reference(ReferenceRole::Image, parsed)?;
        let auth = check_auth(&auth)?;
        Ok(Request::Push { image, layers, config, auth, manifest })
    }

    /// Prepares the storing of a registry's credential.
    pub fn store_auth(registry: String, auth: RegistryAuth) -> (r: Result<Request, ClientError>)
        ensures
            request_result_view(r) == store_auth_request(registry@, auth@),
    {
        let auth = check_auth(&auth)?;
        Ok(Request::StoreAuth { registry, auth })
    }

    /// Prepares the push of a manifest of either kind.
    pub fn push_manifest(parsed: Result<Reference, ParseError>, manifest: Manifest) -> (r: Result<
        Request,
        ClientError,
    >)
        ensures
            request_result_view(r) == push_manifest_request(reference_result_view(parsed), manifest@),
    {
        let image = check_reference(ReferenceRole::Image, parsed)?;
        let manifest = check_manifest(manifest)?;
        Ok(Request::PushManifest { image, manifest })
    }

    /// Prepares the mount of a blob from one repository into another.
    pub fn mount_blob(
        target: Result<Reference, ParseError>,
        source: Result<Reference, ParseError>,
        digest: String,
    ) -> (r: Result<Request, ClientError>)
        ensures
            request_result_view(r) == mount_blob_request(
                reference_result_view(target),
                reference_result_view(source),
                digest@,
            ),
    {
        let target = check_reference(ReferenceRole::Target, target)?;
        let source = check_reference(ReferenceRole::Source, source)?;
        Ok(Request::MountBlob { target, source, digest })
    }

    /// Prepares the listing of one page of tags.
    pub fn list_tags(
        parsed: Result<Reference, ParseError>,
        auth: RegistryAuth,
        n: Option<u32>,
        last: Option<String>,
    ) -> (r: Result<Request, ClientError>)
        ensures
            request_result_view(r) == list_tags_request(
                reference_result_view(parsed),
                auth@,
                opt_u32_view(n),
                opt_str_view(last),
            ),
    {
        let image = check_reference(ReferenceRole::Image, parsed)?;
        let auth = check_auth(&auth)?;
        let n = match n {
            Some(v) => Some(v as usize),
            None => None,
        };
        Ok(Request::ListTags { image, auth, n, last })
    }
}

} // verus!
