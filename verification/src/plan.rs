//! Requests: what an operation asks of a registry once its arguments have
//! been checked.

use crate::auth::{resolve_auth, Credential, CredentialView, RegistryAuth, RegistryAuthView};
use crate::data::{layers_view, BlobView, Config, ImageLayer};
use crate::error::{ClientError, ReferenceRole};
use crate::manifest::{
    opt_image_manifest_view, untagged_manifest, ImageIndex, ImageIndexView, ImageManifest,
    ImageManifestView, Manifest, ManifestView, OciManifest, OciManifestView,
};
use crate::reference::{reference_result_view, ParseError, Reference, ReferenceView};
use crate::text::{opt_str_view, strings_view};
use vstd::prelude::*;

verus! {

/// A checked request. Every reference in it was parsed, every credential
/// holds the fields of its method, and a manifest is of one kind.
#[derive(Debug)]
pub enum Request {
    /// Pull an image: manifest, config and layers.
    Pull { image: Reference, auth: Credential, accepted_media_types: Vec<String> },
    /// Push an image: layers, config, then the manifest.
    Push {
        image: Reference,
        layers: Vec<ImageLayer>,
        config: Config,
        auth: Credential,
        manifest: Option<ImageManifest>,
    },
    /// List the referrers of an artifact.
    PullReferrers { image: Reference, artifact_type: Option<String> },
    /// Push an image index.
    PushManifestList { reference: Reference, auth: Credential, manifest: ImageIndex },
    /// Pull an image manifest, resolving an index to the platform's entry.
    PullImageManifest { image: Reference, auth: Credential },
    /// Remember the credential of a registry.
    StoreAuth { registry: String, auth: Credential },
    /// Pull a manifest of either kind.
    PullManifest { image: Reference, auth: Credential },
    /// Pull a manifest as raw bytes.
    PullManifestRaw { image: Reference, auth: Credential, accepted_media_types: Vec<String> },
    /// Push a manifest of either kind.
    PushManifest { image: Reference, manifest: OciManifest },
    /// Push a blob under the given digest.
    PushBlob { image: Reference, data: Vec<u8>, digest: String },
    /// Pull the blob with the given digest.
    PullBlob { image: Reference, digest: String },
    /// Ask whether the blob with the given digest exists.
    BlobExists { image: Reference, digest: String },
    /// Mount a blob of the source repository into the target repository.
    MountBlob { target: Reference, source: Reference, digest: String },
    /// List one page of tags.
    ListTags { image: Reference, auth: Credential, n: Option<usize>, last: Option<String> },
    /// Fetch the digest of a manifest without its body.
    FetchManifestDigest { image: Reference, auth: Credential },
}

/// Mathematical value of a [`Request`].
pub enum RequestView {
    Pull { image: ReferenceView, auth: CredentialView, accepted_media_types: Seq<Seq<char>> },
    Push {
        image: ReferenceView,
        layers: Seq<BlobView>,
        config: BlobView,
        auth: CredentialView,
        manifest: Option<ImageManifestView>,
    },
    PullReferrers { image: ReferenceView, artifact_type: Option<Seq<char>> },
    PushManifestList { reference: ReferenceView, auth: CredentialView, manifest: ImageIndexView },
    PullImageManifest { image: ReferenceView, auth: CredentialView },
    StoreAuth { registry: Seq<char>, auth: CredentialView },
    PullManifest { image: ReferenceView, auth: CredentialView },
    PullManifestRaw { image: ReferenceView, auth: CredentialView, accepted_media_types: Seq<Seq<char>> },
    PushManifest { image: ReferenceView, manifest: OciManifestView },
    PushBlob { image: ReferenceView, data: Seq<u8>, digest: Seq<char> },
    PullBlob { image: ReferenceView, digest: Seq<char> },
    BlobExists { image: ReferenceView, digest: Seq<char> },
    MountBlob { target: ReferenceView, source: ReferenceView, digest: Seq<char> },
    ListTags { image: ReferenceView, auth: CredentialView, n: Option<nat>, last: Option<Seq<char>> },
    FetchManifestDigest { image: ReferenceView, auth: CredentialView },
}

/// View of an optional page size.
pub open spec fn opt_usize_view(n: Option<usize>) -> Option<nat> {
    match n {
        Some(v) => Some(v as nat),
        None => None,
    }
}

impl View for Request {
    type V = RequestView;

    open spec fn view(&self) -> RequestView {
        match self {
            Request::Pull { image, auth, accepted_media_types } => RequestView::Pull {
                image: image@,
                auth: auth@,
                accepted_media_types: strings_view(accepted_media_types@),
            },
            Request::Push { image, layers, config, auth, manifest } => RequestView::Push {
                image: image@,
                layers: layers_view(layers@),
                config: config@,
                auth: auth@,
                manifest: opt_image_manifest_view(*manifest),
            },
            Request::PullReferrers { image, artifact_type } => RequestView::PullReferrers {
                image: image@,
                artifact_type: opt_str_view(*artifact_type),
            },
            Request::PushManifestList { reference, auth, manifest } => RequestView::PushManifestList {
                reference: reference@,
                auth: auth@,
                manifest: manifest@,
            },
            Request::PullImageManifest { image, auth } => RequestView::PullImageManifest {
                image: image@,
                auth: auth@,
            },
            Request::StoreAuth { registry, auth } => RequestView::StoreAuth {
                registry: registry@,
                auth: auth@,
            },
            Request::PullManifest { image, auth } => RequestView::PullManifest {
                image: image@,
                auth: auth@,
            },
            Request::PullManifestRaw { image, auth, accepted_media_types } => RequestView::PullManifestRaw {
                image: image@,
                auth: auth@,
                accepted_media_types: strings_view(accepted_media_types@),
            },
            Request::PushManifest { image, manifest } => RequestView::PushManifest {
                image: image@,
                manifest: manifest@,
            },
            Request::PushBlob { image, data, digest } => RequestView::PushBlob {
                image: image@,
                data: data@,
                digest: digest@,
            },
            Request::PullBlob { image, digest } => RequestView::PullBlob {
                image: image@,
                digest: digest@,
            },
            Request::BlobExists { image, digest } => RequestView::BlobExists {
                image: image@,
                digest: digest@,
            },
            Request::MountBlob { target, source, digest } => RequestView::MountBlob {
                target: target@,
                source: source@,
                digest: digest@,
            },
            Request::ListTags { image, auth, n, last } => RequestView::ListTags {
                image: image@,
                auth: auth@,
                n: opt_usize_view(*n),
                last: opt_str_view(*last),
            },
            Request::FetchManifestDigest { image, auth } => RequestView::FetchManifestDigest {
                image: image@,
                auth: auth@,
            },
        }
    }
}

/// View of the outcome of preparing a request.
pub open spec fn request_result_view(r: Result<Request, ClientError>) -> Result<
    RequestView,
    ClientError,
> {
    match r {
        Ok(v) => Ok(v@),
        Err(e) => Err(e),
    }
}

/// The reference that a parse in the given role yields, or the error that
/// names the role and the parser's reason.
pub open spec fn checked_reference(
    role: ReferenceRole,
    parsed: Result<ReferenceView, ParseError>,
) -> Result<ReferenceView, ClientError> {
    match parsed {
        Ok(r) => Ok(r),
        Err(e) => Err(ClientError::InvalidReference(role, e)),
    }
}

/// The credential that an authentication denotes, or the error that names
/// the missing field.
pub open spec fn checked_auth(auth: RegistryAuthView) -> Result<CredentialView, ClientError> {
    match resolve_auth(auth) {
        Ok(c) => Ok(c),
        Err(e) => Err(ClientError::Auth(e)),
    }
}

/// The manifest of one kind that a manifest denotes, or the error that
/// names the missing payload.
pub open spec fn checked_manifest(m: ManifestView) -> Result<OciManifestView, ClientError> {
    match untagged_manifest(m) {
        Ok(v) => Ok(v),
        Err(e) => Err(ClientError::Manifest(e)),
    }
}

/// Checks a parsed reference given in a role.
pub fn check_reference(role: ReferenceRole, parsed: Result<Reference, ParseError>) -> (r: Result<
    Reference,
    ClientError,
>)
    ensures
        match r {
            Ok(v) => checked_reference(role, reference_result_view(parsed)) == Ok::<
                ReferenceView,
                ClientError,
            >(v@),
            Err(e) => checked_reference(role, reference_result_view(parsed)) == Err::<
                ReferenceView,
                ClientError,
            >(e),
        },
{
    match parsed {
        Ok(v) => Ok(v),
        Err(e) => Err(ClientError::InvalidReference(role, e)),
    }
}

/// Checks an authentication.
pub fn check_auth(auth: &RegistryAuth) -> (r: Result<Credential, ClientError>)
    ensures
        match r {
            Ok(c) => checked_auth(auth@) == Ok::<CredentialView, ClientError>(c@),
            Err(e) => checked_auth(auth@) == Err::<CredentialView, ClientError>(e),
        },
{
    match auth.to_native() {
        Ok(c) => Ok(c),
        Err(e) => Err(ClientError::Auth(e)),
    }
}

/// Checks a manifest.
pub fn check_manifest(manifest: Manifest) -> (r: Result<OciManifest, ClientError>)
    ensures
        match r {
            Ok(m) => checked_manifest(manifest@) == Ok::<OciManifestView, ClientError>(m@),
            Err(e) => checked_manifest(manifest@) == Err::<OciManifestView, ClientError>(e),
        },
{
    match OciManifest::try_from(manifest) {
        Ok(m) => Ok(m),
        Err(e) => Err(ClientError::Manifest(e)),
    }
}

} // verus!
