//! The client: its settings and the request that each of its operations
//! makes of a registry.

use crate::auth::RegistryAuth;
use crate::config::{default_config, opt_u32_view, resolve_config, ClientConfig, ResolvedConfig};
use crate::data::{layers_view, Config, ImageLayer};
use crate::error::ClientError;
use crate::manifest::{opt_image_manifest_view, ImageIndex, ImageManifest, Manifest};
use crate::plan::{request_result_view, Request};
use crate::reference::{parsed_reference, Reference};
use crate::requests::{
    blob_exists_request, fetch_manifest_digest_request, list_tags_request, mount_blob_request,
    pull_blob_request, pull_image_manifest_request, pull_manifest_raw_request,
    pull_manifest_request, pull_referrers_request, pull_request, push_blob_request,
    push_manifest_list_request, push_manifest_request, push_request, store_auth_request,
};
use crate::text::{opt_str_view, strings_view};
use vstd::prelude::*;

verus! {

/// A client of OCI distribution registries. It holds the settings that its
/// transport is built from; each operation checks its arguments and yields
/// the request to send, or the error found before anything is sent.
#[derive(Debug)]
pub struct OciClient {
    config: ResolvedConfig,
}

impl OciClient {
    /// The settings of this client.
    pub closed spec fn settings(&self) -> ResolvedConfig {
        self.config
    }

    /// A client with the default settings.
    pub fn new() -> (c: OciClient)
        ensures
            c.settings()@ == default_config(),
    {
        OciClient { config: ResolvedConfig::new() }
    }

    /// A client with the given settings; what is not set takes its default.
    pub fn with_config(config: ClientConfig) -> (c: OciClient)
        ensures
            c.settings()@ == resolve_config(config@),
    {
        OciClient { config: config.to_native() }
    }

    /// The settings of this client.
    pub fn config(&self) -> (r: &ResolvedConfig)
        ensures
            *r == self.settings(),
    {
        &self.config
    }

    /// Remembers the credential of a registry for later operations.
    pub fn store_auth(&self, registry: String, auth: RegistryAuth) -> (r: Result<
        Request,
        ClientError,
    >)
        ensures
            request_result_view(r) == store_auth_request(registry@, auth@),
    {
        Request::store_auth(registry, auth)
    }

    /// Mounts a blob of the source repository into the target repository.
    pub fn mount_blob(&self, target: String, source: String, digest: String) -> (r: Result<
        Request,
        ClientError,
    >)
        ensures
            request_result_view(r) == mount_blob_request(
                parsed_reference(target@),
                parsed_reference(source@),
                digest@,
            ),
    {
        let target_ref = Reference::parse(target.as_str());
        let source_ref = Reference::parse(source.as_str());
        Request::mount_blob(target_ref, source_ref, digest)
    }

    /// Pulls an image: the manifest, the config and every layer.
    pub fn pull(
        &self,
        image: String,
        auth: RegistryAuth,
        accepted_media_types: Vec<String>,
    ) -> (r: Result<Request, ClientError>)
        ensures
            request_result_view(r) == pull_request(
                parsed_reference(image@),
                auth@,
                strings_view(accepted_media_types@),
            ),
    {
        let parsed = Reference::parse(image.as_str());
        Request::pull(parsed, auth, accepted_media_types)
    }

    /// Pushes an image: every layer, the config, then the manifest.
    pub fn push(
        &self,
        image_ref: String,
        layers: Vec<ImageLayer>,
        config: Config,
        auth: RegistryAuth,
        manifest: Option<ImageManifest>,
    ) -> (r: Result<Request, ClientError>)
        ensures
            request_result_view(r) == push_request(
                parsed_reference(image_ref@),
                layers_view(layers@),
                config@,
                auth@,
                opt_image_manifest_view(manifest),
            ),
    {
        let parsed = Reference::parse(image_ref.as_str());
        Request::push(parsed, layers, config, auth, manifest)
    }

    /// Lists the referrers of an artifact, optionally of one artifact type.
    pub fn pull_referrers(
        &self,
        image: String,
        artifact_type: Option<String>,
    ) -> (r: Result<Request, ClientError>)
        ensures
            request_result_view(r) == pull_referrers_request(
                parsed_reference(image@),
                opt_str_view(artifact_type),
            ),
    {
        let parsed = Reference::parse(image.as_str());
        Request::pull_referrers(parsed, artifact_type)
    }

    /// Pushes an image index.
    pub fn push_manifest_list(
        &self,
        reference: String,
        auth: RegistryAuth,
        manifest: ImageIndex,
    ) -> (r: Result<Request, ClientError>)
        ensures
            request_result_view(r) == push_manifest_list_request(
                parsed_reference(reference@),
                auth@,
                manifest@,
            ),
    {
        let parsed = Reference::parse(reference.as_str());
        Request::push_manifest_list(parsed, auth, manifest)
    }

    /// Pulls an image manifest; an index is resolved to the entry of the
    /// client's platform.
    pub fn pull_image_manifest(
        &self,
        image: String,
        auth: RegistryAuth,
    ) -> (r: Result<Request, ClientError>)
        ensures
            request_result_view(r) == pull_image_manifest_request(
                parsed_reference(image@),
                auth@,
            ),
    {
        let parsed = Reference::parse(image.as_str());
        Request::pull_image_manifest(parsed, auth)
    }

    /// Pulls a manifest of either kind.
    pub fn pull_manifest(
        &self,
        image: String,
        auth: RegistryAuth,
    ) -> (r: Result<Request, ClientError>)
        ensures
            request_result_view(r) == pull_manifest_request(
                parsed_reference(image@),
                auth@,
            ),
    {
        let parsed = Reference::parse(image.as_str());
        Request::pull_manifest(parsed, auth)
    }

    /// Pulls a manifest as raw bytes.
    pub fn pull_manifest_raw(
        &self,
        image: String,
        auth: RegistryAuth,
        accepted_media_types: Vec<String>,
    ) -> (r: Result<Request, ClientError>)
        ensures
            request_result_view(r) == pull_manifest_raw_request(
                parsed_reference(image@),
                auth@,
                strings_view(accepted_media_types@),
            ),
    {
        let parsed = Reference::parse(image.as_str());
        Request::pull_manifest_raw(parsed, auth, accepted_media_types)
    }

    /// Pushes a manifest of either kind.
    pub fn push_manifest(
        &self,
        image: String,
        manifest: Manifest,
    ) -> (r: Result<Request, ClientError>)
        ensures
            request_result_view(r) == push_manifest_request(
                parsed_reference(image@),
                manifest@,
            ),
    {
        let parsed = Reference::parse(image.as_str());
        Request::push_manifest(parsed, manifest)
    }

    /// Pushes a blob under the given digest.
    pub fn push_blob(
        &self,
        image: String,
        data: Vec<u8>,
        digest: String,
    ) -> (r: Result<Request, ClientError>)
        ensures
            request_result_view(r) == push_blob_request(
                parsed_reference(image@),
                data@,
                digest@,
            ),
    {
        let parsed = Reference::parse(image.as_str());
        Request::push_blob(parsed, data, digest)
    }

    /// Pulls the blob with the given digest.
    pub fn pull_blob(
        &self,
        image: String,
        digest: String,
    ) -> (r: Result<Request, ClientError>)
        ensures
            request_result_view(r) == pull_blob_request(
                parsed_reference(image@),
                digest@,
            ),
    {
        let parsed = Reference::parse(image.as_str());
        Request::pull_blob(parsed, digest)
    }

    /// Asks whether the blob with the given digest exists.
    pub fn blob_exists(
        &self,
        image: String,
        digest: String,
    ) -> (r: Result<Request, ClientError>)
        ensures
            request_result_view(r) == blob_exists_request(
                parsed_reference(image@),
                digest@,
            ),
    {
        let parsed = Reference::parse(image.as_str());
        Request::blob_exists(parsed, digest)
    }

    /// Lists one page of tags.
    pub fn list_tags(
        &self,
        image: String,
        auth: RegistryAuth,
        n: Option<u32>,
        last: Option<String>,
    ) -> (r: Result<Request, ClientError>)
        ensures
            request_result_view(r) == list_tags_request(
                parsed_reference(image@),
                auth@,
                opt_u32_view(n),
                opt_str_view(last),
            ),
    {
        let parsed = Reference::parse(image.as_str());
        Request::list_tags(parsed, auth, n, last)
    }

    /// Fetches the digest of a manifest without its body.
    pub fn fetch_manifest_digest(
        &self,
        image: String,
        auth: RegistryAuth,
    ) -> (r: Result<Request, ClientError>)
        ensures
            request_result_view(r) == fetch_manifest_digest_request(
                parsed_reference(image@),
                auth@,
            ),
    {
        let parsed = Reference::parse(image.as_str());
        Request::fetch_manifest_digest(parsed, auth)
    }
}

} // verus!
