//! Well-known annotation keys and media types, used verbatim in requests.

use vstd::prelude::*;

verus! {

/// Date and time on which the image was built.
pub const ORG_OPENCONTAINERS_IMAGE_CREATED: &'static str = "org.opencontainers.image.created";

/// Contact details of those responsible for the image.
pub const ORG_OPENCONTAINERS_IMAGE_AUTHORS: &'static str = "org.opencontainers.image.authors";

/// URL with more information on the image.
pub const ORG_OPENCONTAINERS_IMAGE_URL: &'static str = "org.opencontainers.image.url";

/// URL of the documentation of the image.
pub const ORG_OPENCONTAINERS_IMAGE_DOCUMENTATION: &'static str = "org.opencontainers.image.documentation";

/// URL of the source code the image is built from.
pub const ORG_OPENCONTAINERS_IMAGE_SOURCE: &'static str = "org.opencontainers.image.source";

/// Version of the packaged software.
pub const ORG_OPENCONTAINERS_IMAGE_VERSION: &'static str = "org.opencontainers.image.version";

/// Source control revision of the packaged software.
pub const ORG_OPENCONTAINERS_IMAGE_REVISION: &'static str = "org.opencontainers.image.revision";

/// Name of the distributing entity.
pub const ORG_OPENCONTAINERS_IMAGE_VENDOR: &'static str = "org.opencontainers.image.vendor";

/// Licenses of the contained software, as an SPDX expression.
pub const ORG_OPENCONTAINERS_IMAGE_LICENSES: &'static str = "org.opencontainers.image.licenses";

/// Name of the reference for a target.
pub const ORG_OPENCONTAINERS_IMAGE_REF_NAME: &'static str = "org.opencontainers.image.ref.name";

/// Human-readable title of the image.
pub const ORG_OPENCONTAINERS_IMAGE_TITLE: &'static str = "org.opencontainers.image.title";

/// Human-readable description of the packaged software.
pub const ORG_OPENCONTAINERS_IMAGE_DESCRIPTION: &'static str = "org.opencontainers.image.description";

/// Digest of the image this image is based on.
pub const ORG_OPENCONTAINERS_IMAGE_BASE_DIGEST: &'static str = "org.opencontainers.image.base.digest";

/// Reference of the image this image is based on.
pub const ORG_OPENCONTAINERS_IMAGE_BASE_NAME: &'static str = "org.opencontainers.image.base.name";

/// Media type of WASM layers.
pub const WASM_LAYER_MEDIA_TYPE: &'static str = "application/vnd.wasm.content.layer.v1+wasm";

/// Media type of a WASM image config.
pub const WASM_CONFIG_MEDIA_TYPE: &'static str = "application/vnd.wasm.config.v1+json";

/// Media type of a Docker v2 schema 2 manifest.
pub const IMAGE_MANIFEST_MEDIA_TYPE: &'static str = "application/vnd.docker.distribution.manifest.v2+json";

/// Media type of a Docker v2 schema 2 manifest list.
pub const IMAGE_MANIFEST_LIST_MEDIA_TYPE: &'static str = "application/vnd.docker.distribution.manifest.list.v2+json";

/// Media type of an OCI image index.
pub const OCI_IMAGE_INDEX_MEDIA_TYPE: &'static str = "application/vnd.oci.image.index.v1+json";

/// Media type of an OCI image manifest.
pub const OCI_IMAGE_MEDIA_TYPE: &'static str = "application/vnd.oci.image.manifest.v1+json";

/// Media type of an OCI image config.
pub const IMAGE_CONFIG_MEDIA_TYPE: &'static str = "application/vnd.oci.image.config.v1+json";

/// Media type that Docker uses for image configs.
pub const IMAGE_DOCKER_CONFIG_MEDIA_TYPE: &'static str = "application/vnd.docker.container.image.v1+json";

/// Media type of a layer.
pub const IMAGE_LAYER_MEDIA_TYPE: &'static str = "application/vnd.oci.image.layer.v1.tar";

/// Media type of a gzipped layer.
pub const IMAGE_LAYER_GZIP_MEDIA_TYPE: &'static str = "application/vnd.oci.image.layer.v1.tar+gzip";

/// Media type that Docker uses for a tarred layer.
pub const IMAGE_DOCKER_LAYER_TAR_MEDIA_TYPE: &'static str = "application/vnd.docker.image.rootfs.diff.tar";

/// Media type that Docker uses for a gzipped layer.
pub const IMAGE_DOCKER_LAYER_GZIP_MEDIA_TYPE: &'static str = "application/vnd.docker.image.rootfs.diff.tar.gzip";

/// Media type of a nondistributable layer.
pub const IMAGE_LAYER_NONDISTRIBUTABLE_MEDIA_TYPE: &'static str = "application/vnd.oci.image.layer.nondistributable.v1.tar";

/// Media type of a nondistributable gzipped layer.
pub const IMAGE_LAYER_NONDISTRIBUTABLE_GZIP_MEDIA_TYPE: &'static str = "application/vnd.oci.image.layer.nondistributable.v1.tar+gzip";

} // verus!
