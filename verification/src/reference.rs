//! Image references: `[registry/]repository[:tag][@digest]`.

use crate::text::opt_str_view;
use vstd::prelude::*;

verus! {

/// A parsed image reference.
#[derive(Debug)]
pub struct Reference {
    registry: String,
    repository: String,
    tag: Option<String>,
    digest: Option<String>,
}

/// Mathematical value of a [`Reference`].
pub struct ReferenceView {
    pub registry: Seq<char>,
    pub repository: Seq<char>,
    pub tag: Option<Seq<char>>,
    pub digest: Option<Seq<char>>,
}

/// Reasons for which a string is not an image reference.
#[derive(Clone, Copy, Debug, PartialEq, Eq, Structural)]
pub enum ParseError {
    /// The digest is ill-formed.
    DigestInvalidFormat,
    /// The digest does not have the length of its algorithm.
    DigestInvalidLength,
    /// The digest algorithm is unknown.
    DigestUnsupported,
    /// The repository name holds an uppercase character.
    NameContainsUppercase,
    /// The name is empty.
    NameEmpty,
    /// The repository name is too long.
    NameTooLong,
    /// The reference is ill-formed.
    ReferenceInvalidFormat,
    /// The tag is ill-formed.
    TagInvalidFormat,
}

impl View for Reference {
    type V = ReferenceView;

    closed spec fn view(&self) -> ReferenceView {
        ReferenceView {
            registry: self.registry@,
            repository: self.repository@,
            tag: opt_str_view(self.tag),
            digest: opt_str_view(self.digest),
        }
    }
}

impl ReferenceView {
    /// A reference names a non-empty repository and carries a tag, a digest
    /// or both.
    pub open spec fn well_formed(self) -> bool {
        &&& self.repository.len() > 0
        &&& (self.tag.is_some() || self.digest.is_some())
    }

    /// The canonical string of a reference: the non-empty parts among
    /// registry, repository, tag and digest, in this order, joined by `/`,
    /// `:` and `@`.
    pub open spec fn whole(self) -> Seq<char> {
        let head = if self.registry.len() > 0 && self.repository.len() > 0 {
            self.registry + seq!['/'] + self.repository
        } else {
            self.registry + self.repository
        };
        let tagged = match self.tag {
            Some(t) => if head.len() > 0 {
                head + seq![':'] + t
            } else {
                t
            },
            None => head,
        };
        match self.digest {
            Some(d) => if tagged.len() > 0 || self.tag.is_some() {
                tagged + seq!['@'] + d
            } else {
                d
            },
            None => tagged,
        }
    }
}

/// What the reference grammar makes of a string: the reference it denotes,
/// with the default registry and the default tag filled in, or the reason
/// for which it denotes none.
pub uninterp spec fn parsed_reference(s: Seq<char>) -> Result<ReferenceView, ParseError>;

/// View of the outcome of parsing.
pub open spec fn reference_result_view(r: Result<Reference, ParseError>) -> Result<
    ReferenceView,
    ParseError,
> {
    match r {
        Ok(v) => Ok(v@),
        Err(e) => Err(e),
    }
}

/// Calls `oci_client::Reference::try_from(&str)` and copies the registry,
/// repository, tag and digest out of the reference it returns, or maps the
/// error variant for variant. The contract names the outcome as a function
/// of the input string and states two facts that the parser's source shows
/// of every reference it accepts: the repository is not empty, and a tag is
/// filled in when the string holds neither tag nor digest.
#[verifier::external_body]
fn parse_with_grammar(s: &str) -> (r: Result<Reference, ParseError>)
    ensures
        reference_result_view(r) == parsed_reference(s@),
        r.is_ok() ==> r.unwrap()@.well_formed(),
{
    let r = oci_client::Reference::try_from(s).map_err(|e| match e {
        oci_client::ParseError::DigestInvalidFormat => ParseError::DigestInvalidFormat,
        oci_client::ParseError::DigestInvalidLength => ParseError::DigestInvalidLength,
        oci_client::ParseError::DigestUnsupported => ParseError::DigestUnsupported,
        oci_client::ParseError::NameContainsUppercase => ParseError::NameContainsUppercase,
        oci_client::ParseError::NameEmpty => ParseError::NameEmpty,
        oci_client::ParseError::NameTooLong => ParseError::NameTooLong,
        oci_client::ParseError::ReferenceInvalidFormat => ParseError::ReferenceInvalidFormat,
        oci_client::ParseError::TagInvalidFormat => ParseError::TagInvalidFormat,
    })?;
    let (registry, repository) = (r.registry().to_owned(), r.repository().to_owned());
    let (tag, digest) = (r.tag().map(str::to_owned), r.digest().map(str::to_owned));
    Ok(Reference { registry, repository, tag, digest })
}

impl ParseError {
    /// The text of this error.
    pub open spec fn spec_message(self) -> Seq<char> {
        match self {
            ParseError::DigestInvalidFormat => "invalid checksum digest format"@,
            ParseError::DigestInvalidLength => "invalid checksum digest length"@,
            ParseError::DigestUnsupported => "unsupported digest algorithm"@,
            ParseError::NameContainsUppercase => "repository name must be lowercase"@,
            ParseError::NameEmpty => "repository name must have at least one component"@,
            ParseError::NameTooLong => "repository name must not be more than 255 characters"@,
            ParseError::ReferenceInvalidFormat => "invalid reference format"@,
            ParseError::TagInvalidFormat => "invalid tag format"@,
        }
    }

    /// Human-readable cause.
    pub fn message(&self) -> (s: String)
        ensures
            s@ == self.spec_message(),
    {
        match self {
            ParseError::DigestInvalidFormat => "invalid checksum digest format".to_owned(),
            ParseError::DigestInvalidLength => "invalid checksum digest length".to_owned(),
            ParseError::DigestUnsupported => "unsupported digest algorithm".to_owned(),
            ParseError::NameContainsUppercase => "repository name must be lowercase".to_owned(),
            ParseError::NameEmpty => "repository name must have at least one component".to_owned(),
            ParseError::NameTooLong => "repository name must not be more than 255 characters".to_owned(),
            ParseError::ReferenceInvalidFormat => "invalid reference format".to_owned(),
            ParseError::TagInvalidFormat => "invalid tag format".to_owned(),
        }
    }
}

impl Reference {
    /// Parses an image reference. The outcome is the one that the grammar
    /// assigns to the string; a reference that is returned is well formed.
    pub fn parse(s: &str) -> (r: Result<Reference, ParseError>)
        ensures
            reference_result_view(r) == parsed_reference(s@),
            r.is_ok() ==> r.unwrap()@.well_formed(),
    {
        parse_with_grammar(s)
    }

    /// The registry host.
    pub fn registry(&self) -> (r: &String)
        ensures
            r@ == self@.registry,
    {
        &self.registry
    }

    /// The repository path.
    pub fn repository(&self) -> (r: &String)
        ensures
            r@ == self@.repository,
    {
        &self.repository
    }

    /// The tag, if present.
    pub fn tag(&self) -> (r: &Option<String>)
        ensures
            opt_str_view(*r) == self@.tag,
    {
        &self.tag
    }

    /// The digest, if present.
    pub fn digest(&self) -> (r: &Option<String>)
        ensures
            opt_str_view(*r) == self@.digest,
    {
        &self.digest
    }

    /// The canonical string of this reference.
    pub fn whole(&self) -> (s: String)
        ensures
            s@ == self@.whole(),
    {
        let mut out = String::new();
        let mut not_empty = false;
        if self.registry.as_str().unicode_len() > 0 {
            out.append(self.registry.as_str());
            not_empty = true;
        }
        if self.repository.as_str().unicode_len() > 0 {
            if not_empty {
                out.append("/");
            }
            out.append(self.repository.as_str());
            not_empty = true;
        }
        proof {
            reveal_strlit("/");
            reveal_strlit(":");
            reveal_strlit("@");
            assert("/"@ =~= seq!['/']);
            assert(":"@ =~= seq![':']);
            assert("@"@ =~= seq!['@']);
        }
        let ghost head = out@;
        assert(head =~= if self@.registry.len() > 0 && self@.repository.len() > 0 {
            self@.registry + seq!['/'] + self@.repository
        } else {
            self@.registry + self@.repository
        });
        assert(not_empty == (head.len() > 0));
        if let Some(t) = &self.tag {
            if not_empty {
                out.append(":");
            }
            out.append(t.as_str());
            not_empty = true;
        }
        let ghost tagged = out@;
        assert(tagged =~= match self@.tag {
            Some(t) => if head.len() > 0 {
                head + seq![':'] + t
            } else {
                t
            },
            None => head,
        });
        assert(not_empty == (tagged.len() > 0 || self@.tag.is_some()));
        if let Some(d) = &self.digest {
            if not_empty {
                out.append("@");
            }
            out.append(d.as_str());
        }
        assert(out@ =~= self@.whole());
        out
    }
}

} // verus!
