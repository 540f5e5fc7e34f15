//! Identification of a key-vault resource from its source URL.
//!
//! A resource id like `https://vault.example/keys/name/version` is taken
//! apart into the vault URL, the resource name, and the optional version.
//! The URL itself is parsed by an outside parser; everything read from the
//! parse — scheme, authority, path segments, and the normalized
//! serialization — is carried as plain values, and the decomposition over
//! them is verified exactly.

use vstd::prelude::*;

use crate::error::{Error, ErrorKind};

verus! {

/// Information about the resource.
#[derive(Clone, Debug, Eq, PartialEq)]
pub struct ResourceId {
    /// The source URL of the resource, in normalized serialization.
    pub source_id: String,
    /// The vault URL containing the resource.
    pub vault_url: String,
    /// The name of the resource.
    pub name: String,
    /// The optional version of the resource.
    pub version: Option<String>,
}

/// Models that carry a resource id hand it out through this trait.
pub trait AsId {
    /// The id this model carries, if any, as a specification value.
    spec fn spec_id(&self) -> Option<Seq<char>>;

    /// The source URL of the resource, if the model carries one.
    fn as_id(&self) -> (r: Option<&String>)
        ensures
            match r {
                Some(s) => self.spec_id() == Some(s@),
                None => self.spec_id() is None,
            },
    ;
}

/// A key carried inside a model, holding what the resource logic reads of
/// it: the key identifier URL.
#[derive(Clone, Debug, PartialEq)]
pub struct JsonWebKey {
    /// The key identifier URL.
    pub kid: Option<String>,
}

/// A returned key with its material, as far as the resource logic reads
/// it.
#[derive(Clone, Debug, PartialEq)]
pub struct KeyBundle {
    /// The key material.
    pub key: Option<JsonWebKey>,
}

/// A key listed by the service, as far as the resource logic reads it.
#[derive(Clone, Debug, PartialEq)]
pub struct KeyItem {
    /// The key identifier URL.
    pub kid: Option<String>,
}

/// A deleted key with its material, as far as the resource logic reads
/// it.
#[derive(Clone, Debug, PartialEq)]
pub struct DeletedKeyBundle {
    /// The key material.
    pub key: Option<JsonWebKey>,
}

/// A deleted key listed by the service, as far as the resource logic
/// reads it.
#[derive(Clone, Debug, PartialEq)]
pub struct DeletedKeyItem {
    /// The key identifier URL.
    pub kid: Option<String>,
}

impl AsId for KeyBundle {
    open spec fn spec_id(&self) -> Option<Seq<char>> {
        match self.key {
            Some(k) => match k.kid {
                Some(kid) => Some(kid@),
                None => None,
            },
            None => None,
        }
    }

    fn as_id(&self) -> (r: Option<&String>) {
        match &self.key {
            Some(k) => k.kid.as_ref(),
            None => None,
        }
    }
}

impl AsId for KeyItem {
    open spec fn spec_id(&self) -> Option<Seq<char>> {
        match self.kid {
            Some(kid) => Some(kid@),
            None => None,
        }
    }

    fn as_id(&self) -> (r: Option<&String>) {
        self.kid.as_ref()
    }
}

impl AsId for DeletedKeyBundle {
    open spec fn spec_id(&self) -> Option<Seq<char>> {
        match self.key {
            Some(k) => match k.kid {
                Some(kid) => Some(kid@),
                None => None,
            },
            None => None,
        }
    }

    fn as_id(&self) -> (r: Option<&String>) {
        match &self.key {
            Some(k) => k.kid.as_ref(),
            None => None,
        }
    }
}

impl AsId for DeletedKeyItem {
    open spec fn spec_id(&self) -> Option<Seq<char>> {
        match self.kid {
            Some(kid) => Some(kid@),
            None => None,
        }
    }

    fn as_id(&self) -> (r: Option<&String>) {
        self.kid.as_ref()
    }
}

/// What a URL parse yields, as plain values: the scheme, the authority
/// (host with any non-default port), the path segments (absent for a URL
/// that cannot be a base), and the normalized serialization.
#[derive(Clone, Debug)]
pub struct UrlParts {
    pub scheme: String,
    pub authority: String,
    pub segments: Option<Vec<String>>,
    pub serialized: String,
}

/// What the outside URL parser yields on a given string: a function of
/// the string alone.
pub uninterp spec fn url_parse_of(s: Seq<char>) -> Option<UrlParts>;

/// Relies on url::Url::parse and its accessors scheme, authority,
/// path_segments and as_str: the parse of a string, and everything read
/// off it, depend on the string alone.
#[verifier::external_body]
fn parse_url(s: &str) -> (r: Option<UrlParts>)
    ensures
        r == url_parse_of(s@),
{
    url::Url::parse(s).ok().map(|u| UrlParts {
        scheme: u.scheme().to_string(),
        authority: u.authority().to_string(),
        segments: u.path_segments().map(|path| path.map(|seg| seg.to_string()).collect()),
        serialized: u.as_str().to_string(),
    })
}

/// `Some(s)` unless the string is empty.
pub fn none_if_empty<'a>(s: &'a str) -> (r: Option<&'a str>)
    ensures
        s@.len() == 0 ==> r is None,
        s@.len() > 0 ==> (r matches Some(inner) && inner@ == s@),
{
    if s.is_empty() {
        return None;
    }
    Some(s)
}

/// The views of a list of path segments.
pub open spec fn segment_views(v: Seq<String>) -> Seq<Seq<char>> {
    v.map_values(|s: String| s@)
}

/// How a decomposition result relates to the parts of the parsed URL: an
/// error for a URL that cannot be a base, an empty or wrong collection, or
/// a missing name; otherwise the identifier assembled from the segments.
pub open spec fn spec_deconstruct_matches(p: UrlParts, r: Result<ResourceId, Error>) -> bool {
    match p.segments {
        None => r matches Err(e) && e.kind == ErrorKind::DataConversion && e.spec_message()
            == Some("invalid url"@),
        Some(v) => {
            let segs = segment_views(v@);
            if segs.len() == 0 || segs[0].len() == 0 {
                r matches Err(e) && e.kind == ErrorKind::DataConversion && e.spec_message()
                    == Some("missing collection"@)
            } else if segs[0] != "keys"@ {
                r matches Err(e) && e.kind == ErrorKind::DataConversion && e.spec_message()
                    == Some("not in keys collection"@)
            } else if segs.len() < 2 || segs[1].len() == 0 {
                r matches Err(e) && e.kind == ErrorKind::DataConversion && e.spec_message()
                    == Some("missing name"@)
            } else {
                &&& r matches Ok(id)
                &&& id.source_id@ == p.serialized@
                &&& id.vault_url@ == p.scheme@ + "://"@ + p.authority@
                &&& id.name@ == segs[1]
                &&& (if segs.len() >= 3 && segs[2].len() > 0 {
                    id.version matches Some(ver) && ver@ == segs[2]
                } else {
                    id.version is None
                })
            }
        },
    }
}

/// Takes a parsed URL apart into a [`ResourceId`].
///
/// The first path segment must be the `keys` collection and the second the
/// resource name; a third non-empty segment is the version. The vault URL
/// is the scheme and authority; the source id is the URL's normalized
/// serialization.
pub fn deconstruct(parts: &UrlParts) -> (r: Result<ResourceId, Error>)
    ensures
        spec_deconstruct_matches(*parts, r),
{
    let segments = match &parts.segments {
        None => {
            return Err(Error::message(ErrorKind::DataConversion, "invalid url"));
        },
        Some(v) => v,
    };
    if segments.len() == 0 || segments[0].as_str().is_empty() {
        return Err(Error::message(ErrorKind::DataConversion, "missing collection"));
    }
    let keys: String = "keys".to_owned();
    if !(segments[0] == keys) {
        return Err(Error::message(ErrorKind::DataConversion, "not in keys collection"));
    }
    if segments.len() < 2 || segments[1].as_str().is_empty() {
        return Err(Error::message(ErrorKind::DataConversion, "missing name"));
    }
    let name = segments[1].clone();
    let version = if segments.len() >= 3 && !segments[2].as_str().is_empty() {
        Some(segments[2].clone())
    } else {
        None
    };
    let vault_url = parts.scheme.clone().concat("://").concat(parts.authority.as_str());
    Ok(
        ResourceId {
            source_id: parts.serialized.clone(),
            vault_url,
            name,
            version,
        },
    )
}

/// Parses a source URL and takes it apart into a [`ResourceId`]. A string
/// the URL parser rejects yields a conversion error.
pub fn resource_id_from_id(id: &str) -> (r: Result<ResourceId, Error>)
    ensures
        match url_parse_of(id@) {
            Some(p) => spec_deconstruct_matches(p, r),
            None => r matches Err(e) && e.kind == ErrorKind::DataConversion && e.spec_message()
                == Some("invalid url"@),
        },
{
    match parse_url(id) {
        Some(parts) => deconstruct(&parts),
        None => Err(Error::message(ErrorKind::DataConversion, "invalid url")),
    }
}

/// The [`ResourceId`] of a model, from the source URL it carries: a model
/// without one yields a conversion error, and one with an id yields what
/// parsing and taking apart that id yields.
pub fn resource_id<T: AsId>(item: &T) -> (r: Result<ResourceId, Error>)
    ensures
        match item.spec_id() {
            None => r matches Err(e) && e.kind == ErrorKind::DataConversion && e.spec_message()
                == Some("missing resource id"@),
            Some(id) => match url_parse_of(id) {
                Some(p) => spec_deconstruct_matches(p, r),
                None => r matches Err(e) && e.kind == ErrorKind::DataConversion
                    && e.spec_message() == Some("invalid url"@),
            },
        },
{
    match item.as_id() {
        Some(id) => resource_id_from_id(id.as_str()),
        None => Err(Error::message(ErrorKind::DataConversion, "missing resource id")),
    }
}

} // verus!
