use oci_bindings::auth::{anonymous_auth, basic_auth, bearer_auth, AuthError, Credential, RegistryAuth, RegistryAuthType};
use oci_bindings::client::OciClient;
use oci_bindings::config::{ClientConfig, ClientProtocol, ProtocolPolicy};
use oci_bindings::consts::{IMAGE_LAYER_MEDIA_TYPE, OCI_IMAGE_MEDIA_TYPE, ORG_OPENCONTAINERS_IMAGE_TITLE};
use oci_bindings::data::{Config, ImageLayer};
use oci_bindings::error::{ClientError, ReferenceRole};
use oci_bindings::manifest::{ImageIndex, Manifest, ManifestError, ManifestType, OciManifest};
use oci_bindings::plan::Request;
use oci_bindings::reference::{ParseError, Reference};

fn broken_basic() -> RegistryAuth {
    RegistryAuth { auth_type: RegistryAuthType::Basic, username: Some("u".to_string()), password: None, token: None }
}

fn empty_index() -> ImageIndex {
    ImageIndex { schema_version: 2, media_type: None, manifests: vec![], artifact_type: None, annotations: None }
}

const BAD: &str = "Not A Reference";

fn invalid(role: ReferenceRole) -> ClientError {
    ClientError::InvalidReference(role, ParseError::ReferenceInvalidFormat)
}

#[test]
fn new_client_has_default_settings() {
    let c = OciClient::new();
    assert!(matches!(c.config().protocol, ProtocolPolicy::Https));
    assert_eq!(c.config().max_concurrent_upload, 16);
    assert_eq!(c.config().max_concurrent_download, 16);
    assert_eq!(c.config().default_token_expiration_secs, 60);
    assert!(!c.config().use_monolithic_push);
}

#[test]
fn client_keeps_supplied_settings() {
    let c = OciClient::with_config(ClientConfig {
        protocol: Some(ClientProtocol::HttpsExcept),
        https_except_registries: Some(vec!["localhost:5000".to_string()]),
        accept_invalid_certificates: None,
        use_monolithic_push: Some(true),
        extra_root_certificates: None,
        max_concurrent_upload: Some(2),
        max_concurrent_download: None,
        default_token_expiration_secs: Some(300),
        read_timeout_ms: None,
        connect_timeout_ms: Some(250),
        https_proxy: None,
        http_proxy: None,
        no_proxy: None,
    });
    assert_eq!(c.config().protocol.scheme_for(&"localhost:5000".to_string()), "http");
    assert_eq!(c.config().protocol.scheme_for(&"docker.io".to_string()), "https");
    assert!(c.config().use_monolithic_push);
    assert_eq!(c.config().max_concurrent_upload, 2);
    assert_eq!(c.config().max_concurrent_download, 16);
    assert_eq!(c.config().default_token_expiration_secs, 300);
    assert_eq!(c.config().connect_timeout_ms, Some(250));
    assert_eq!(c.config().read_timeout_ms, None);
}

#[test]
fn pull_request_carries_reference_credential_and_media_types_in_order() {
    let c = OciClient::new();
    let types = vec![OCI_IMAGE_MEDIA_TYPE.to_string(), IMAGE_LAYER_MEDIA_TYPE.to_string()];
    match c.pull("ghcr.io/org/app:v1".to_string(), basic_auth("u".to_string(), "p".to_string()), types.clone()) {
        Ok(Request::Pull { image, auth, accepted_media_types }) => {
            assert_eq!(image.whole(), "ghcr.io/org/app:v1");
            assert!(matches!(auth, Credential::Basic(u, p) if u == "u" && p == "p"));
            assert_eq!(accepted_media_types, types);
        }
        other => panic!("unexpected {:?}", other),
    }
}

#[test]
fn pull_rejects_a_malformed_reference_before_the_credential() {
    let c = OciClient::new();
    assert_eq!(c.pull(BAD.to_string(), broken_basic(), vec![]).unwrap_err(), invalid(ReferenceRole::Image));
    assert_eq!(
        c.pull("busybox".to_string(), broken_basic(), vec![]).unwrap_err(),
        ClientError::Auth(AuthError::MissingPassword)
    );
}

#[test]
fn push_request_carries_layers_config_and_manifest() {
    let c = OciClient::new();
    let layers = vec![
        ImageLayer { data: vec![1, 2, 3], media_type: IMAGE_LAYER_MEDIA_TYPE.to_string(), annotations: None },
        ImageLayer { data: vec![], media_type: IMAGE_LAYER_MEDIA_TYPE.to_string(), annotations: None },
    ];
    let config = Config { data: b"{}".to_vec(), media_type: "application/vnd.oci.image.config.v1+json".to_string(), annotations: None };
    match c.push("localhost:5000/app:1".to_string(), layers, config, bearer_auth("t".to_string()), None) {
        Ok(Request::Push { image, layers, config, auth, manifest }) => {
            assert_eq!(image.registry(), "localhost:5000");
            assert_eq!(layers.len(), 2);
            assert_eq!(layers[0].data, vec![1, 2, 3]);
            assert!(layers[1].data.is_empty());
            assert_eq!(config.data, b"{}".to_vec());
            assert!(matches!(auth, Credential::Bearer(t) if t == "t"));
            assert!(manifest.is_none());
        }
        other => panic!("unexpected {:?}", other),
    }
}

#[test]
fn push_rejects_bad_arguments() {
    let c = OciClient::new();
    let config = || Config { data: vec![], media_type: String::new(), annotations: None };
    assert_eq!(c.push(BAD.to_string(), vec![], config(), broken_basic(), None).unwrap_err(), invalid(ReferenceRole::Image));
    assert_eq!(
        c.push("a/b".to_string(), vec![], config(), broken_basic(), None).unwrap_err(),
        ClientError::Auth(AuthError::MissingPassword)
    );
}

#[test]
fn pull_referrers_request() {
    let c = OciClient::new();
    match c.pull_referrers("h.io/r:t".to_string(), Some("application/x".to_string())) {
        Ok(Request::PullReferrers { image, artifact_type }) => {
            assert_eq!(image.repository(), "r");
            assert_eq!(artifact_type.as_deref(), Some("application/x"));
        }
        other => panic!("unexpected {:?}", other),
    }
    assert!(matches!(c.pull_referrers("h.io/r:t".to_string(), None), Ok(Request::PullReferrers { artifact_type: None, .. })));
    assert_eq!(c.pull_referrers(BAD.to_string(), None).unwrap_err(), invalid(ReferenceRole::Image));
}

#[test]
fn push_manifest_list_request() {
    let c = OciClient::new();
    match c.push_manifest_list("h.io/r:multi".to_string(), anonymous_auth(), empty_index()) {
        Ok(Request::PushManifestList { reference, auth, manifest }) => {
            assert_eq!(reference.tag().as_deref(), Some("multi"));
            assert!(matches!(auth, Credential::Anonymous));
            assert_eq!(manifest.schema_version, 2);
        }
        other => panic!("unexpected {:?}", other),
    }
    let e = c.push_manifest_list(BAD.to_string(), broken_basic(), empty_index()).unwrap_err();
    assert_eq!(e, invalid(ReferenceRole::Reference));
    assert_eq!(e.message(), "Invalid reference: invalid reference format");
}

#[test]
fn manifest_pull_requests() {
    let c = OciClient::new();
    assert!(matches!(c.pull_image_manifest("busybox".to_string(), anonymous_auth()), Ok(Request::PullImageManifest { .. })));
    assert!(matches!(c.pull_manifest("busybox".to_string(), anonymous_auth()), Ok(Request::PullManifest { .. })));
    assert!(matches!(c.fetch_manifest_digest("busybox".to_string(), anonymous_auth()), Ok(Request::FetchManifestDigest { .. })));
    match c.pull_manifest_raw("busybox".to_string(), anonymous_auth(), vec!["a/b".to_string()]) {
        Ok(Request::PullManifestRaw { image, accepted_media_types, .. }) => {
            assert_eq!(image.whole(), "docker.io/library/busybox:latest");
            assert_eq!(accepted_media_types, vec!["a/b".to_string()]);
        }
        other => panic!("unexpected {:?}", other),
    }
    for e in [
        c.pull_image_manifest(BAD.to_string(), broken_basic()).unwrap_err(),
        c.pull_manifest(BAD.to_string(), broken_basic()).unwrap_err(),
        c.fetch_manifest_digest(BAD.to_string(), broken_basic()).unwrap_err(),
        c.pull_manifest_raw(BAD.to_string(), broken_basic(), vec![]).unwrap_err(),
    ] {
        assert_eq!(e, invalid(ReferenceRole::Image));
    }
    for e in [
        c.pull_image_manifest("a".to_string(), broken_basic()).unwrap_err(),
        c.pull_manifest("a".to_string(), broken_basic()).unwrap_err(),
        c.fetch_manifest_digest("a".to_string(), broken_basic()).unwrap_err(),
        c.pull_manifest_raw("a".to_string(), broken_basic(), vec![]).unwrap_err(),
    ] {
        assert_eq!(e, ClientError::Auth(AuthError::MissingPassword));
    }
}

#[test]
fn store_auth_request() {
    let c = OciClient::new();
    match c.store_auth("ghcr.io".to_string(), bearer_auth("t".to_string())) {
        Ok(Request::StoreAuth { registry, auth }) => {
            assert_eq!(registry, "ghcr.io");
            assert!(matches!(auth, Credential::Bearer(_)));
        }
        other => panic!("unexpected {:?}", other),
    }
    assert_eq!(
        c.store_auth("ghcr.io".to_string(), broken_basic()).unwrap_err(),
        ClientError::Auth(AuthError::MissingPassword)
    );
}

#[test]
fn push_manifest_request() {
    let c = OciClient::new();
    let ok = Manifest { manifest_type: ManifestType::ImageIndex, image: None, image_index: Some(empty_index()) };
    match c.push_manifest("h.io/r:t".to_string(), ok) {
        Ok(Request::PushManifest { image, manifest }) => {
            assert_eq!(image.registry(), "h.io");
            assert!(matches!(manifest, OciManifest::ImageIndex(_)));
        }
        other => panic!("unexpected {:?}", other),
    }
    let missing = || Manifest { manifest_type: ManifestType::Image, image: None, image_index: None };
    assert_eq!(c.push_manifest(BAD.to_string(), missing()).unwrap_err(), invalid(ReferenceRole::Image));
    assert_eq!(
        c.push_manifest("h.io/r:t".to_string(), missing()).unwrap_err(),
        ClientError::Manifest(ManifestError::MissingImage)
    );
}

#[test]
fn blob_requests() {
    let c = OciClient::new();
    match c.push_blob("h.io/r".to_string(), vec![9, 8], "sha256:abc".to_string()) {
        Ok(Request::PushBlob { image, data, digest }) => {
            assert_eq!(image.whole(), "h.io/r:latest");
            assert_eq!(data, vec![9, 8]);
            assert_eq!(digest, "sha256:abc");
        }
        other => panic!("unexpected {:?}", other),
    }
    assert!(matches!(c.pull_blob("h.io/r".to_string(), "sha256:abc".to_string()), Ok(Request::PullBlob { digest, .. }) if digest == "sha256:abc"));
    assert!(matches!(c.blob_exists("h.io/r".to_string(), "sha256:abc".to_string()), Ok(Request::BlobExists { digest, .. }) if digest == "sha256:abc"));
    assert_eq!(c.push_blob(BAD.to_string(), vec![], String::new()).unwrap_err(), invalid(ReferenceRole::Image));
    assert_eq!(c.pull_blob(BAD.to_string(), String::new()).unwrap_err(), invalid(ReferenceRole::Image));
    assert_eq!(c.blob_exists(BAD.to_string(), String::new()).unwrap_err(), invalid(ReferenceRole::Image));
}

#[test]
fn mount_blob_request() {
    let c = OciClient::new();
    match c.mount_blob("h.io/to".to_string(), "h.io/from".to_string(), "sha256:abc".to_string()) {
        Ok(Request::MountBlob { target, source, digest }) => {
            assert_eq!(target.repository(), "to");
            assert_eq!(source.repository(), "from");
            assert_eq!(digest, "sha256:abc");
        }
        other => panic!("unexpected {:?}", other),
    }
    assert_eq!(c.mount_blob(BAD.to_string(), BAD.to_string(), String::new()).unwrap_err(), invalid(ReferenceRole::Target));
    assert_eq!(c.mount_blob("a".to_string(), BAD.to_string(), String::new()).unwrap_err(), invalid(ReferenceRole::Source));
    assert_eq!(
        c.mount_blob("a".to_string(), String::new(), String::new()).unwrap_err(),
        ClientError::InvalidReference(ReferenceRole::Source, ParseError::NameEmpty)
    );
}

#[test]
fn list_tags_request() {
    let c = OciClient::new();
    match c.list_tags("h.io/r".to_string(), anonymous_auth(), Some(50), Some("v1".to_string())) {
        Ok(Request::ListTags { image, auth, n, last }) => {
            assert_eq!(image.repository(), "r");
            assert!(matches!(auth, Credential::Anonymous));
            assert_eq!(n, Some(50));
            assert_eq!(last.as_deref(), Some("v1"));
        }
        other => panic!("unexpected {:?}", other),
    }
    assert!(matches!(c.list_tags("h.io/r".to_string(), anonymous_auth(), None, None), Ok(Request::ListTags { n: None, last: None, .. })));
    assert!(matches!(c.list_tags("h.io/r".to_string(), anonymous_auth(), Some(u32::MAX), None), Ok(Request::ListTags { n: Some(4294967295), .. })));
    assert_eq!(c.list_tags(BAD.to_string(), broken_basic(), None, None).unwrap_err(), invalid(ReferenceRole::Image));
    assert_eq!(c.list_tags("a".to_string(), broken_basic(), None, None).unwrap_err(), ClientError::Auth(AuthError::MissingPassword));
}

#[test]
fn request_from_a_parse_outcome() {
    let parsed = Reference::parse("busybox");
    assert!(matches!(Request::pull_blob(parsed, "sha256:x".to_string()), Ok(Request::PullBlob { .. })));
    let e = Request::pull(Err(ParseError::TagInvalidFormat), anonymous_auth(), vec![]).unwrap_err();
    assert_eq!(e, ClientError::InvalidReference(ReferenceRole::Image, ParseError::TagInvalidFormat));
    assert_eq!(e.message(), "Invalid image reference: invalid tag format");
}

#[test]
fn well_known_names() {
    assert_eq!(ORG_OPENCONTAINERS_IMAGE_TITLE, "org.opencontainers.image.title");
    assert_eq!(OCI_IMAGE_MEDIA_TYPE, "application/vnd.oci.image.manifest.v1+json");
    assert_eq!(IMAGE_LAYER_MEDIA_TYPE, oci_client::manifest::IMAGE_LAYER_MEDIA_TYPE);
    assert_eq!(ORG_OPENCONTAINERS_IMAGE_TITLE, oci_client::annotations::ORG_OPENCONTAINERS_IMAGE_TITLE);
}
