//! Which resource a uri names: its scheme, its class (the uri's host) and its
//! path within that class.

use vstd::prelude::*;

use crate::text::chars_of;
use crate::text::has_prefix;
use crate::text::string_from_range;

verus! {

/// The parts of a uri that name a resource.
#[derive(Clone, Debug)]
pub struct UriParts {
    /// The scheme, where the uri has one.
    pub scheme: Option<String>,
    /// The host of the authority, where the uri has an authority.
    pub host: Option<String>,
    /// The path, empty where the uri has none.
    pub path: String,
    /// The whole uri, as text.
    pub text: String,
}

/// The abstract form of `UriParts`: scheme, host, path and text.
pub type UriPartsView = (Option<Seq<char>>, Option<Seq<char>>, Seq<char>, Seq<char>);

impl View for UriParts {
    type V = UriPartsView;

    open spec fn view(&self) -> UriPartsView {
        (
            match self.scheme {
                Some(s) => Some(s@),
                None => None,
            },
            match self.host {
                Some(h) => Some(h@),
                None => None,
            },
            self.path@,
            self.text@,
        )
    }
}

/// The parts of `text` read as a uri, or `None` where it is not one.
pub uninterp spec fn parsed_uri(text: Seq<char>) -> Option<UriPartsView>;

/// `text.parse::<http::Uri>()`, with `scheme_str`, `authority().host()`,
/// `path` and `to_string` of the result: the parts, as the http crate reads
/// them.
#[verifier::external_body]
fn parse_http_uri(text: &str) -> (r: Option<UriParts>)
    ensures
        match r {
            Some(parts) => parsed_uri(text@) == Some(parts@),
            None => parsed_uri(text@) is None,
        },
{
    let uri: http::Uri = text.parse().ok()?;
    Some(
        UriParts {
            scheme: uri.scheme_str().map(|s| s.to_string()),
            host: uri.authority().map(|a| a.host().to_string()),
            path: uri.path().to_string(),
            text: uri.to_string(),
        },
    )
}

impl UriParts {
    /// Reads `text` as a uri.
    pub fn parse(text: &str) -> (r: Option<UriParts>)
        ensures
            match r {
                Some(parts) => parsed_uri(text@) == Some(parts@),
                None => parsed_uri(text@) is None,
            },
    {
        parse_http_uri(text)
    }
}

/// A resource, as a uri names it.
#[derive(Clone, Debug)]
pub struct ResourceReference {
    pub class: String,
    pub path: String,
    pub scheme: String,
    pub uri_string: String,
}

/// Why a uri names no resource.
#[derive(Clone, Debug)]
pub enum ResourceReferenceError {
    /// The uri has no authority, so no class.
    MissingAuthority { uri: String },
    /// The uri has no scheme.
    MissingScheme { uri: String },
}

/// `path` without one leading `/`.
pub open spec fn path_within_class(path: Seq<char>) -> Seq<char> {
    if has_prefix(path, "/"@) {
        path.drop_first()
    } else {
        path
    }
}

impl ResourceReference {
    /// The resource that `uri` names: its host is the class, its scheme the
    /// scheme, and its path, without a leading `/`, the path. A uri without an
    /// authority, or else without a scheme, names none.
    pub fn try_from(uri: UriParts) -> (r: Result<ResourceReference, ResourceReferenceError>)
        ensures
            match r {
                Ok(reference) => uri.host matches Some(h) && uri.scheme matches Some(s)
                    && reference.class@ == h@ && reference.scheme@ == s@ && reference.path@
                    == path_within_class(uri.path@) && reference.uri_string@ == uri.text@,
                Err(ResourceReferenceError::MissingAuthority { uri: u }) => uri.host is None
                    && u@ == uri.text@,
                Err(ResourceReferenceError::MissingScheme { uri: u }) => uri.host is Some
                    && uri.scheme is None && u@ == uri.text@,
            },
    {
        proof {
            reveal_strlit("/");
        }
        let chars = chars_of(uri.path.as_str());
        let path = if chars.len() > 0 && chars[0] == '/' {
            assert(chars@.subrange(0, 1) =~= "/"@);
            assert(chars@.subrange(1, chars@.len() as int) =~= chars@.drop_first());
            string_from_range(&chars, 1, chars.len())
        } else {
            assert(chars@.subrange(0, chars@.len() as int) =~= chars@);
            assert(!has_prefix(chars@, "/"@));
            string_from_range(&chars, 0, chars.len())
        };
        assert(path@ == path_within_class(uri.path@));
        let class = match uri.host {
            Some(h) => h,
            None => {
                return Err(ResourceReferenceError::MissingAuthority { uri: uri.text });
            },
        };
        let scheme = match uri.scheme {
            Some(s) => s,
            None => {
                return Err(ResourceReferenceError::MissingScheme { uri: uri.text });
            },
        };
        Ok(ResourceReference { class, path, scheme, uri_string: uri.text })
    }

    /// The resource that the uri `text` names; `None` where `text` is no uri.
    pub fn parse(text: &str) -> (r: Option<Result<ResourceReference, ResourceReferenceError>>)
        ensures
            (r is None) <==> parsed_uri(text@) is None,
            r matches Some(Ok(reference)) ==> parsed_uri(text@) matches Some(p) && p.1 matches Some(
                h,
            ) && p.0 matches Some(s) && reference.class@ == h && reference.scheme@ == s
                && reference.path@ == path_within_class(p.2) && reference.uri_string@ == p.3,
            r matches Some(Err(e)) ==> parsed_uri(text@) matches Some(p) && (p.1 is None || p.0 is None),
    {
        match UriParts::parse(text) {
            Some(parts) => Some(ResourceReference::try_from(parts)),
            None => None,
        }
    }
}

} // verus!
