//! Scripts and stylesheets a page loads from elsewhere.

use vstd::prelude::*;

use crate::escape::escape_html_attribute;
use crate::escape::escaped_attribute;
use crate::text::push_str;

verus! {

/// A script or a stylesheet, by its url.
#[derive(Clone, Debug, PartialEq, Eq, PartialOrd, Ord)]
pub enum ExternalAsset {
    Script(String),
    Stylesheet(String),
}

/// The tag that loads `asset` from `path`, the path escaped.
pub open spec fn asset_tag(asset: ExternalAsset, path: Seq<char>) -> Seq<char> {
    match asset {
        ExternalAsset::Script(_) => "<script src=\""@ + escaped_attribute(path)
            + "\" async defer></script>"@,
        ExternalAsset::Stylesheet(_) => "<link rel=\"stylesheet\" href=\""@ + escaped_attribute(
            path,
        ) + "\">"@,
    }
}

impl ExternalAsset {
    /// The asset's url.
    pub fn url(&self) -> (r: &String)
        ensures
            match *self {
                ExternalAsset::Script(u) => *r == u,
                ExternalAsset::Stylesheet(u) => *r == u,
            },
    {
        match self {
            ExternalAsset::Script(u) => u,
            ExternalAsset::Stylesheet(u) => u,
        }
    }

    /// The tag that loads the asset, where `rendered_path` is what the page's
    /// path renderer made of its url: a script loads asynchronously and
    /// deferred.
    pub fn render(&self, rendered_path: &str) -> (r: String)
        ensures
            r@ == asset_tag(*self, rendered_path@),
    {
        let escaped = escape_html_attribute(rendered_path);
        match self {
            ExternalAsset::Script(_) => {
                let mut out = String::from_str("<script src=\"");
                push_str(&mut out, escaped.as_str());
                push_str(&mut out, "\" async defer></script>");
                out
            },
            ExternalAsset::Stylesheet(_) => {
                let mut out = String::from_str("<link rel=\"stylesheet\" href=\"");
                push_str(&mut out, escaped.as_str());
                push_str(&mut out, "\">");
                out
            },
        }
    }
}

} // verus!
