//! The content documents of a built project, offered to clients as
//! resources: listed page by page, read by uri, and watched for changes.

use vstd::prelude::*;

use crate::mcp::name_index::NameIndex;
use crate::mcp::resource::Resource;
use crate::mcp::resource_content::ResourceContent;
use crate::mcp::resource_content::TextResourceContent;
use crate::mcp::resource_content_parts::ResourceContentParts;
use crate::mcp::resource_reference::ResourceReference;
use crate::text::push_str;
use crate::text::str_equal;
use crate::text::string_from_chars;

verus! {

/// A content document of a built project.
#[derive(Clone, Debug)]
pub struct ContentDocumentSource {
    /// The document's Markdown source.
    pub contents: String,
    pub description: String,
    /// The document's path, relative to the content directory, without its
    /// extension.
    pub relative_path: String,
    pub title: String,
}

/// Asked for documents before the project was built.
#[derive(Clone, Copy, Debug)]
pub struct ProjectNotBuilt;

/// The content documents of the project, by basename, once it is built.
pub struct McpResourceProviderContentDocuments {
    pub content_document_sources: Option<NameIndex<ContentDocumentSource>>,
}

/// The uri of the content resource at `path`.
pub open spec fn content_resource_uri(path: Seq<char>) -> Seq<char> {
    "poet"@ + "://"@ + "content"@ + "/"@ + path
}

/// The resource that lists the document `source`, kept under `basename`.
pub open spec fn lists_document(
    r: Resource,
    basename: Seq<char>,
    source: ContentDocumentSource,
) -> bool {
    &&& r.name@ == basename
    &&& r.title == source.title
    &&& r.description == source.description
    &&& r.uri@ == content_resource_uri(basename)
}

/// The entries `offset .. offset + limit` of `s`, or fewer where `s` ends
/// first.
pub open spec fn entries_window<V>(s: Seq<(Seq<char>, V)>, offset: int, limit: int) -> Seq<
    (Seq<char>, V),
> {
    let from = if offset < s.len() { offset } else { s.len() as int };
    let to = if offset + limit < s.len() { offset + limit } else { s.len() as int };
    s.subrange(from, to)
}

impl McpResourceProviderContentDocuments {
    /// The media type of every content resource.
    pub fn mime_type(&self) -> (s: String)
        ensures
            s@ == "text/markdown"@,
    {
        String::from_str("text/markdown")
    }

    /// The class of content resources.
    pub fn resource_class(&self) -> (s: String)
        ensures
            s@ == "content"@,
    {
        String::from_str("content")
    }

    /// The scheme of content resources.
    pub fn resource_scheme(&self) -> (s: String)
        ensures
            s@ == "poet"@,
    {
        String::from_str("poet")
    }

    /// The uri of the content resource at `path`: scheme, `://`, class, `/`,
    /// path.
    pub fn resource_uri(&self, path: &str) -> (s: String)
        ensures
            s@ == content_resource_uri(path@),
    {
        let mut s = self.resource_scheme();
        push_str(&mut s, "://");
        let class = self.resource_class();
        push_str(&mut s, class.as_str());
        push_str(&mut s, "/");
        push_str(&mut s, path);
        s
    }

    /// How many documents there are to list; none before the project is built.
    pub fn total(&self) -> (n: usize)
        ensures
            n == match self.content_document_sources {
                Some(sources) => sources.view().len(),
                None => 0,
            },
    {
        match &self.content_document_sources {
            Some(sources) => sources.len(),
            None => 0,
        }
    }

    /// The documents `offset .. offset + limit`, in the order of their
    /// basenames, as resources.
    pub fn list_resources(&self, limit: usize, offset: usize) -> (r: Result<
        Vec<Resource>,
        ProjectNotBuilt,
    >)
        ensures
            r is Ok <==> self.content_document_sources is Some,
            r matches Ok(resources) ==> self.content_document_sources matches Some(sources) && ({
                let window = entries_window(sources.view(), offset as int, limit as int);
                &&& resources@.len() == window.len()
                &&& forall|i: int|
                    0 <= i < window.len() ==> lists_document(
                        #[trigger] resources@[i],
                        window[i].0,
                        window[i].1,
                    )
            }),
    {
        let sources = match &self.content_document_sources {
            Some(sources) => sources,
            None => {
                return Err(ProjectNotBuilt);
            },
        };
        let n = sources.len();
        let from = if offset < n {
            offset
        } else {
            n
        };
        let to = if limit < n - from {
            from + limit
        } else {
            n
        };
        let ghost window = entries_window(sources.view(), offset as int, limit as int);
        assert(window == sources.view().subrange(from as int, to as int));
        let mut out: Vec<Resource> = Vec::new();
        let mut i = from;
        while i < to
            invariant
                from <= i <= to <= n,
                n == sources.view().len(),
                window == sources.view().subrange(from as int, to as int),
                out@.len() == i - from,
                forall|k: int|
                    0 <= k < i - from ==> lists_document(
                        #[trigger] out@[k],
                        window[k].0,
                        window[k].1,
                    ),
            decreases to - i,
        {
            let (key, source) = sources.entry_at(i);
            let name = string_from_chars(key);
            let uri = self.resource_uri(name.as_str());
            out.push(
                Resource {
                    description: source.description.clone(),
                    name,
                    title: source.title.clone(),
                    uri,
                },
            );
            assert(window[i - from] == sources.view()[i as int]);
            i = i + 1;
        }
        Ok(out)
    }

    /// The contents of the document that `reference` names by its path; none
    /// where no document has that basename.
    pub fn read_resource_contents(&self, reference: &ResourceReference) -> (r: Result<
        Option<ResourceContentParts>,
        ProjectNotBuilt,
    >)
        ensures
            r is Ok <==> self.content_document_sources is Some,
            r matches Ok(found) ==> self.content_document_sources matches Some(sources) && (
            found is Some <==> sources.as_map().contains_key(reference.path@)) && (found matches Some(
                parts,
            ) ==> ({
                let source = sources.as_map()[reference.path@];
                &&& parts.title == source.title
                &&& parts.uri == reference.uri_string
                &&& parts.parts@.len() == 1
                &&& parts.parts@[0] matches ResourceContent::Text(t) && t.mime_type@
                    == "text/markdown"@ && t.text == source.contents && t.uri
                    == reference.uri_string
            })),
    {
        let sources = match &self.content_document_sources {
            Some(sources) => sources,
            None => {
                return Err(ProjectNotBuilt);
            },
        };
        match sources.get(reference.path.as_str()) {
            Some(source) => {
                let mut parts: Vec<ResourceContent> = Vec::new();
                parts.push(
                    ResourceContent::Text(
                        TextResourceContent {
                            mime_type: self.mime_type(),
                            text: source.contents.clone(),
                            uri: reference.uri_string.clone(),
                        },
                    ),
                );
                Ok(
                    Some(
                        ResourceContentParts {
                            parts,
                            title: source.title.clone(),
                            uri: reference.uri_string.clone(),
                        },
                    ),
                )
            },
            None => Ok(None),
        }
    }

    /// Whether one of the documents at `changed_relative_paths`, changed by
    /// the last build, is the resource at `uri`: its watchers are then told.
    pub fn changes_resource(&self, changed_relative_paths: &Vec<String>, uri: &str) -> (b: bool)
        ensures
            b == exists|i: int|
                0 <= i < changed_relative_paths@.len() && content_resource_uri(
                    #[trigger] changed_relative_paths@[i]@,
                ) == uri@,
    {
        let mut i: usize = 0;
        while i < changed_relative_paths.len()
            invariant
                i <= changed_relative_paths.len(),
                forall|k: int|
                    0 <= k < i ==> content_resource_uri(#[trigger] changed_relative_paths@[k]@)
                        != uri@,
            decreases changed_relative_paths.len() - i,
        {
            let candidate = self.resource_uri(changed_relative_paths[i].as_str());
            if str_equal(candidate.as_str(), uri) {
                return true;
            }
            i = i + 1;
        }
        false
    }
}

} // verus!
