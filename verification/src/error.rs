//! Errors of request preparation and the texts of failures.

use crate::auth::AuthError;
use crate::manifest::ManifestError;
use crate::reference::ParseError;
use vstd::prelude::*;

verus! {

/// Which argument of an operation a reference string was given for.
#[derive(Clone, Copy, Debug, PartialEq, Eq, Structural)]
pub enum ReferenceRole {
    /// The image that the operation works on.
    Image,
    /// The destination of a manifest list.
    Reference,
    /// The repository that a blob is mounted into.
    Target,
    /// The repository that a blob is mounted from.
    Source,
}

/// Why a request could not be prepared. Each of these is found before any
/// network call is made.
#[derive(Clone, Copy, Debug, PartialEq, Eq, Structural)]
pub enum ClientError {
    /// A reference string is malformed.
    InvalidReference(ReferenceRole, ParseError),
    /// The supplied authentication lacks a field of its method.
    Auth(AuthError),
    /// The supplied manifest lacks the payload of its kind.
    Manifest(ManifestError),
}

/// The operations that a registry may fail.
#[derive(Clone, Copy, Debug, PartialEq, Eq, Structural)]
pub enum Operation {
    Pull,
    Push,
    PullReferrers,
    PushManifestList,
    PullImageManifest,
    PullManifest,
    PullManifestRaw,
    PushManifest,
    PushBlob,
    PullBlob,
    BlobExists,
    MountBlob,
    ListTags,
    FetchManifestDigest,
}

impl ReferenceRole {
    /// How the text of an invalid reference in this role begins.
    pub open spec fn spec_prefix(self) -> Seq<char> {
        match self {
            ReferenceRole::Image => "Invalid image reference: "@,
            ReferenceRole::Reference => "Invalid reference: "@,
            ReferenceRole::Target => "Invalid target reference: "@,
            ReferenceRole::Source => "Invalid source reference: "@,
        }
    }

    /// How the text of an invalid reference in this role begins.
    pub fn prefix(&self) -> (s: &'static str)
        ensures
            s@ == self.spec_prefix(),
    {
        match self {
            ReferenceRole::Image => "Invalid image reference: ",
            ReferenceRole::Reference => "Invalid reference: ",
            ReferenceRole::Target => "Invalid target reference: ",
            ReferenceRole::Source => "Invalid source reference: ",
        }
    }
}

impl ClientError {
    /// The text of this error: for a reference, the role's prefix followed
    /// by the parser's reason; otherwise the reason alone.
    pub open spec fn spec_message(self) -> Seq<char> {
        match self {
            ClientError::InvalidReference(role, e) => role.spec_prefix() + e.spec_message(),
            ClientError::Auth(e) => e.spec_message(),
            ClientError::Manifest(e) => e.spec_message(),
        }
    }

    /// Human-readable cause.
    pub fn message(&self) -> (s: String)
        ensures
            s@ == self.spec_message(),
    {
        match self {
            ClientError::InvalidReference(role, e) => {
                let mut out = role.prefix().to_owned();
                let cause = e.message();
                out.append(cause.as_str());
                out
            },
            ClientError::Auth(e) => e.message(),
            ClientError::Manifest(e) => e.message(),
        }
    }
}

impl Operation {
    /// How the text of a failure of this operation begins.
    pub open spec fn spec_prefix(self) -> Seq<char> {
        match self {
            Operation::Pull => "Pull failed: "@,
            Operation::Push => "Push failed: "@,
            Operation::PullReferrers => "Pull referrers failed: "@,
            Operation::PushManifestList => "Push manifest list failed: "@,
            Operation::PullImageManifest => "Pull image manifest failed: "@,
            Operation::PullManifest => "Pull manifest failed: "@,
            Operation::PullManifestRaw => "Pull manifest raw failed: "@,
            Operation::PushManifest => "Push manifest failed: "@,
            Operation::PushBlob => "Push blob failed: "@,
            Operation::PullBlob => "Pull blob failed: "@,
            Operation::BlobExists => "Blob exists check failed: "@,
            Operation::MountBlob => "Mount blob failed: "@,
            Operation::ListTags => "List tags failed: "@,
            Operation::FetchManifestDigest => "Fetch manifest digest failed: "@,
        }
    }

    /// How the text of a failure of this operation begins.
    pub fn prefix(&self) -> (s: &'static str)
        ensures
            s@ == self.spec_prefix(),
    {
        match self {
            Operation::Pull => "Pull failed: ",
            Operation::Push => "Push failed: ",
            Operation::PullReferrers => "Pull referrers failed: ",
            Operation::PushManifestList => "Push manifest list failed: ",
            Operation::PullImageManifest => "Pull image manifest failed: ",
            Operation::PullManifest => "Pull manifest failed: ",
            Operation::PullManifestRaw => "Pull manifest raw failed: ",
            Operation::PushManifest => "Push manifest failed: ",
            Operation::PushBlob => "Push blob failed: ",
            Operation::PullBlob => "Pull blob failed: ",
            Operation::BlobExists => "Blob exists check failed: ",
            Operation::MountBlob => "Mount blob failed: ",
            Operation::ListTags => "List tags failed: ",
            Operation::FetchManifestDigest => "Fetch manifest digest failed: ",
        }
    }

    /// The text of a failure of this operation: its prefix followed by the
    /// cause that the registry or the transport reported.
    pub fn failure_message(&self, cause: &str) -> (s: String)
        ensures
            s@ == self.spec_prefix() + cause@,
    {
        let mut out = self.prefix().to_owned();
        out.append(cause);
        out
    }
}

} // verus!
