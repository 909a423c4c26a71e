//! A Markdown (MDX) syntax tree, and what can be read off it without
//! rendering: its text, heading ids, front matter, and the text to index.
//!
//! Nodes that refer to something outside the document (an internal link, an
//! image, the highlighting of a code block, an MDX expression or element) carry what
//! the host resolved for them; the renderers decide when that is used.

use vstd::prelude::*;

use crate::text::push_str;

verus! {

/// A `name` or `name:value` item of a code block's metadata line.
#[derive(Clone, Debug)]
pub enum MetadataLineItem {
    Flag { name: String },
    Pair { name: String, value: String },
}

/// A property value of an MDX element, as components receive it.
#[derive(Clone, Debug)]
pub enum PropValue {
    /// A boolean, such as the `true` of an attribute written without a value.
    Bool(bool),
    /// Any other value, as its text.
    Text(String),
}

/// The abstract form of a `PropValue`.
pub enum PropView {
    Bool(bool),
    Text(Seq<char>),
}

impl View for PropValue {
    type V = PropView;

    open spec fn view(&self) -> PropView {
        match self {
            PropValue::Bool(b) => PropView::Bool(*b),
            PropValue::Text(t) => PropView::Text(t@),
        }
    }
}

/// The value of an MDX attribute.
#[derive(Debug)]
pub enum MdxAttributeValue {
    Literal(String),
    Expression {
        value: String,
        /// The expression, evaluated.
        evaluated: Result<PropValue, String>,
    },
}

/// An attribute of an MDX element.
#[derive(Debug)]
pub enum MdxAttribute {
    /// `{...spread}`, which documents may not use.
    Expression(String),
    /// `name`, `name="literal"` or `name={expression}`.
    Property { name: String, value: Option<MdxAttributeValue> },
}

/// A node of a Markdown (MDX) syntax tree.
pub enum MdNode {
    Blockquote(Vec<MdNode>),
    Break,
    Code {
        lang: Option<String>,
        meta: Option<String>,
        value: String,
        /// The items of `meta`, as the metadata line parser read them.
        meta_items: Result<Vec<MetadataLineItem>, String>,
        /// The highlighted HTML of `value`: none where the block names no
        /// language or no syntax for it is known, and the highlighter's message
        /// where highlighting failed.
        highlighted: Option<Result<String, String>>,
    },
    Definition,
    Delete(Vec<MdNode>),
    Emphasis(Vec<MdNode>),
    FootnoteDefinition,
    FootnoteReference { identifier: String, label: Option<String> },
    Heading { children: Vec<MdNode>, depth: u8 },
    Html(String),
    Image {
        alt: String,
        url: String,
        title: Option<String>,
        /// Where the image is served from, when `url` is internal.
        resolved_src: Result<String, String>,
    },
    ImageReference,
    InlineCode(String),
    InlineMath,
    Link {
        children: Vec<MdNode>,
        title: Option<String>,
        url: String,
        /// Where the link leads, when `url` is internal.
        resolved_href: Result<String, String>,
    },
    LinkReference,
    List { children: Vec<MdNode>, ordered: bool },
    ListItem(Vec<MdNode>),
    Math,
    MdxjsEsm,
    MdxFlowExpression {
        value: String,
        /// The expression, evaluated, in a content document. A prompt
        /// document runs its scripts in order, with the state at their place.
        rendered: Result<String, String>,
    },
    MdxJsxFlowElement {
        attributes: Vec<MdxAttribute>,
        children: Vec<MdNode>,
        name: Option<String>,
        /// The element as rendered by the component it names, where it names
        /// one, in a content document. A prompt document runs its scripts in
        /// order, with the state at their place.
        rendered: Result<String, String>,
    },
    MdxJsxTextElement {
        attributes: Vec<MdxAttribute>,
        children: Vec<MdNode>,
        name: Option<String>,
        /// The element as rendered by the component it names, where it names
        /// one, in a content document. A prompt document runs its scripts in
        /// order, with the state at their place.
        rendered: Result<String, String>,
    },
    MdxTextExpression {
        value: String,
        /// The expression, evaluated, in a content document. A prompt
        /// document runs its scripts in order, with the state at their place.
        rendered: Result<String, String>,
    },
    Paragraph(Vec<MdNode>),
    Root(Vec<MdNode>),
    Strong(Vec<MdNode>),
    Table(Vec<MdNode>),
    TableCell(Vec<MdNode>),
    TableRow(Vec<MdNode>),
    Text(String),
    ThematicBreak,
    Toml(String),
    Yaml(String),
}

/// The children through which text is collected: those of every container
/// node but footnote definitions.
pub open spec fn text_children(node: MdNode) -> Option<Seq<MdNode>> {
    match node {
        MdNode::Blockquote(children) => Some(children@),
        MdNode::Delete(children) => Some(children@),
        MdNode::Emphasis(children) => Some(children@),
        MdNode::Heading { children, .. } => Some(children@),
        MdNode::Link { children, .. } => Some(children@),
        MdNode::List { children, .. } => Some(children@),
        MdNode::ListItem(children) => Some(children@),
        MdNode::MdxJsxFlowElement { children, .. } => Some(children@),
        MdNode::MdxJsxTextElement { children, .. } => Some(children@),
        MdNode::Paragraph(children) => Some(children@),
        MdNode::Root(children) => Some(children@),
        MdNode::Strong(children) => Some(children@),
        MdNode::Table(children) => Some(children@),
        MdNode::TableCell(children) => Some(children@),
        MdNode::TableRow(children) => Some(children@),
        _ => None,
    }
}

/// The text of a node: the values of its `Text` descendants, in order.
pub open spec fn text_content(node: MdNode) -> Seq<char>
    decreases node,
{
    match node {
        MdNode::Text(value) => value@,
        MdNode::Blockquote(children) => text_content_of_all(children@),
        MdNode::Delete(children) => text_content_of_all(children@),
        MdNode::Emphasis(children) => text_content_of_all(children@),
        MdNode::Heading { children, .. } => text_content_of_all(children@),
        MdNode::Link { children, .. } => text_content_of_all(children@),
        MdNode::List { children, .. } => text_content_of_all(children@),
        MdNode::ListItem(children) => text_content_of_all(children@),
        MdNode::MdxJsxFlowElement { children, .. } => text_content_of_all(children@),
        MdNode::MdxJsxTextElement { children, .. } => text_content_of_all(children@),
        MdNode::Paragraph(children) => text_content_of_all(children@),
        MdNode::Root(children) => text_content_of_all(children@),
        MdNode::Strong(children) => text_content_of_all(children@),
        MdNode::Table(children) => text_content_of_all(children@),
        MdNode::TableCell(children) => text_content_of_all(children@),
        MdNode::TableRow(children) => text_content_of_all(children@),
        _ => Seq::empty(),
    }
}

/// The texts of `nodes`, one after another.
pub open spec fn text_content_of_all(nodes: Seq<MdNode>) -> Seq<char>
    decreases nodes,
{
    if nodes.len() == 0 {
        Seq::empty()
    } else {
        text_content_of_all(nodes.drop_last()) + text_content(nodes.last())
    }
}

/// The children of a node, when it has any (the same as `text_children`).
pub fn container_children(node: &MdNode) -> (r: Option<&Vec<MdNode>>)
    ensures
        match r {
            Some(children) => text_children(*node) == Some(children@),
            None => text_children(*node) is None,
        },
{
    match node {
        MdNode::Blockquote(children)
        | MdNode::Delete(children)
        | MdNode::Emphasis(children)
        | MdNode::ListItem(children)
        | MdNode::Paragraph(children)
        | MdNode::Root(children)
        | MdNode::Strong(children)
        | MdNode::Table(children)
        | MdNode::TableCell(children)
        | MdNode::TableRow(children) => Some(children),
        MdNode::Heading { children, .. } => Some(children),
        MdNode::Link { children, .. } => Some(children),
        MdNode::List { children, .. } => Some(children),
        MdNode::MdxJsxFlowElement { children, .. } => Some(children),
        MdNode::MdxJsxTextElement { children, .. } => Some(children),
        _ => None,
    }
}

/// The text of a node: the values of its `Text` descendants, in order.
pub fn find_text_content_in_mdast(node: &MdNode) -> (r: String)
    ensures
        r@ == text_content(*node),
    decreases node,
{
    match node {
        MdNode::Text(value) => value.clone(),
        MdNode::Blockquote(children)
        | MdNode::Delete(children)
        | MdNode::Emphasis(children)
        | MdNode::ListItem(children)
        | MdNode::Paragraph(children)
        | MdNode::Root(children)
        | MdNode::Strong(children)
        | MdNode::Table(children)
        | MdNode::TableCell(children)
        | MdNode::TableRow(children) => find_text_content_of_all(children),
        MdNode::Heading { children, .. } => find_text_content_of_all(children),
        MdNode::Link { children, .. } => find_text_content_of_all(children),
        MdNode::List { children, .. } => find_text_content_of_all(children),
        MdNode::MdxJsxFlowElement { children, .. } => find_text_content_of_all(children),
        MdNode::MdxJsxTextElement { children, .. } => find_text_content_of_all(children),
        _ => String::new(),
    }
}

/// The texts of `nodes`, one after another.
pub fn find_text_content_of_all(nodes: &Vec<MdNode>) -> (r: String)
    ensures
        r@ == text_content_of_all(nodes@),
    decreases nodes,
{
    let mut out = String::new();
    let mut i: usize = 0;
    while i < nodes.len()
        invariant
            i <= nodes.len(),
            out@ == text_content_of_all(nodes@.take(i as int)),
        decreases nodes.len() - i,
    {
        let t = find_text_content_in_mdast(&nodes[i]);
        push_str(&mut out, t.as_str());
        assert(nodes@.take(i + 1).drop_last() =~= nodes@.take(i as int));
        i = i + 1;
    }
    assert(nodes@.take(nodes.len() as int) =~= nodes@);
    out
}

/// What `slug::slugify` makes of a text.
pub uninterp spec fn slugified(text: Seq<char>) -> Seq<char>;

/// A character `slug::slugify` may produce: `a`-`z`, `0`-`9` or `-`.
pub open spec fn is_slug_char(c: char) -> bool {
    ('a' <= c && c <= 'z') || ('0' <= c && c <= '9') || c == '-'
}

/// `slug::slugify`, whose documentation promises that the slug consists of
/// `a`-`z`, `0`-`9` and `-`. Its result is named, not spelled out: it folds
/// other characters to ASCII through the `deunicode` tables.
#[verifier::external_body]
fn slugify(text: &str) -> (r: String)
    ensures
        r@ == slugified(text@),
        forall|i: int| 0 <= i < r@.len() ==> is_slug_char(#[trigger] r@[i]),
{
    slug::slugify(text)
}

/// The id of a heading with these children: the slug of their text.
pub open spec fn heading_id(children: Seq<MdNode>) -> Seq<char> {
    slugified(text_content_of_all(children))
}

/// The id of a heading with these children: the slug of their text.
pub fn mdast_children_to_heading_id(children: &Vec<MdNode>) -> (r: String)
    ensures
        r@ == heading_id(children@),
        forall|i: int| 0 <= i < r@.len() ==> is_slug_char(#[trigger] r@[i]),
{
    let text = find_text_content_of_all(children);
    slugify(text.as_str())
}

/// The source of a document's front matter: the first `Toml` node directly
/// under the root, if the document has one.
pub open spec fn front_matter_source(node: MdNode) -> Option<Seq<char>> {
    match node {
        MdNode::Root(children) => first_toml(children@),
        MdNode::Toml(value) => Some(value@),
        _ => None,
    }
}

/// The value of the first `Toml` node of `nodes`.
pub open spec fn first_toml(nodes: Seq<MdNode>) -> Option<Seq<char>>
    decreases nodes.len(),
{
    if nodes.len() == 0 {
        None
    } else {
        match nodes[0] {
            MdNode::Toml(value) => Some(value@),
            _ => first_toml(nodes.drop_first()),
        }
    }
}

/// The source of a document's front matter, which is then parsed as TOML.
pub fn find_front_matter_in_mdast(node: &MdNode) -> (r: Option<String>)
    ensures
        match r {
            Some(s) => front_matter_source(*node) == Some(s@),
            None => front_matter_source(*node) is None,
        },
{
    match node {
        MdNode::Root(children) => {
            let mut i: usize = 0;
            assert(children@.skip(0) =~= children@);
            while i < children.len()
                invariant
                    i <= children.len(),
                    first_toml(children@) == first_toml(children@.skip(i as int)),
                    front_matter_source(*node) == first_toml(children@),
                decreases children.len() - i,
            {
                assert(children@.skip(i as int).drop_first() =~= children@.skip(i + 1));
                match &children[i] {
                    MdNode::Toml(value) => {
                        let r = value.clone();
                        assert(children@.skip(i as int)[0] == children@[i as int]);
                        assert(first_toml(children@.skip(i as int)) == Some(r@));
                        return Some(r);
                    },
                    _ => {},
                }
                i = i + 1;
            }
            None
        },
        MdNode::Toml(value) => Some(value.clone()),
        _ => None,
    }
}

/// Where the text of a node goes in the search index.
#[derive(Clone, Copy, Debug, PartialEq, Eq, Structural)]
pub enum IndexField {
    Header,
    Paragraph,
}

/// Where a node sits: under a heading, under a paragraph, or elsewhere.
#[derive(Clone, Copy, Debug, PartialEq, Eq, Structural)]
pub enum ParentElementType {
    Heading,
    Other,
    Paragraph,
}

/// The field that text under `parent` is indexed in, if any.
pub open spec fn index_field(parent: ParentElementType) -> Option<IndexField> {
    match parent {
        ParentElementType::Heading => Some(IndexField::Header),
        ParentElementType::Paragraph => Some(IndexField::Paragraph),
        ParentElementType::Other => None,
    }
}

/// The texts to index under a node, each with its field, in document order:
/// text directly or indirectly under a heading goes to the header field,
/// under a paragraph to the paragraph field, and text elsewhere is skipped.
pub open spec fn indexed_text(node: MdNode, parent: ParentElementType) -> Seq<
    (IndexField, Seq<char>),
>
    decreases node,
{
    match node {
        MdNode::Heading { children, .. } => indexed_text_of_all(
            children@,
            ParentElementType::Heading,
        ),
        MdNode::Paragraph(children) => indexed_text_of_all(children@, ParentElementType::Paragraph),
        MdNode::Text(value) => match index_field(parent) {
            Some(field) => seq![(field, value@)],
            None => Seq::empty(),
        },
        MdNode::Blockquote(children) => indexed_text_of_all(children@, parent),
        MdNode::Delete(children) => indexed_text_of_all(children@, parent),
        MdNode::Emphasis(children) => indexed_text_of_all(children@, parent),
        MdNode::Link { children, .. } => indexed_text_of_all(children@, parent),
        MdNode::List { children, .. } => indexed_text_of_all(children@, parent),
        MdNode::ListItem(children) => indexed_text_of_all(children@, parent),
        MdNode::MdxJsxFlowElement { children, .. } => indexed_text_of_all(children@, parent),
        MdNode::MdxJsxTextElement { children, .. } => indexed_text_of_all(children@, parent),
        MdNode::Root(children) => indexed_text_of_all(children@, parent),
        MdNode::Strong(children) => indexed_text_of_all(children@, parent),
        MdNode::Table(children) => indexed_text_of_all(children@, parent),
        MdNode::TableCell(children) => indexed_text_of_all(children@, parent),
        MdNode::TableRow(children) => indexed_text_of_all(children@, parent),
        _ => Seq::empty(),
    }
}

/// The texts to index under each of `nodes`, one after another.
pub open spec fn indexed_text_of_all(nodes: Seq<MdNode>, parent: ParentElementType) -> Seq<
    (IndexField, Seq<char>),
>
    decreases nodes,
{
    if nodes.len() == 0 {
        Seq::empty()
    } else {
        indexed_text_of_all(nodes.drop_last(), parent) + indexed_text(nodes.last(), parent)
    }
}

/// The view of collected index entries.
pub open spec fn index_entries_view(entries: Seq<(IndexField, String)>) -> Seq<
    (IndexField, Seq<char>),
> {
    entries.map_values(|e: (IndexField, String)| (e.0, e.1@))
}

/// Collects the texts to index under `node` after what `out` holds.
pub fn traverse_mdast(out: &mut Vec<(IndexField, String)>, node: &MdNode, parent: ParentElementType)
    ensures
        index_entries_view(final(out)@) == index_entries_view(old(out)@) + indexed_text(
            *node,
            parent,
        ),
    decreases node,
{
    match node {
        MdNode::Heading { children, .. } => {
            traverse_mdast_children(out, children, ParentElementType::Heading);
        },
        MdNode::Paragraph(children) => {
            traverse_mdast_children(out, children, ParentElementType::Paragraph);
        },
        MdNode::Text(value) => {
            let ghost before = out@;
            match parent {
                ParentElementType::Heading => {
                    out.push((IndexField::Header, value.clone()));
                },
                ParentElementType::Paragraph => {
                    out.push((IndexField::Paragraph, value.clone()));
                },
                ParentElementType::Other => {},
            }
            assert(index_entries_view(out@) =~= index_entries_view(before) + indexed_text(
                *node,
                parent,
            ));
        },
        MdNode::Blockquote(children)
        | MdNode::Delete(children)
        | MdNode::Emphasis(children)
        | MdNode::ListItem(children)
        | MdNode::Root(children)
        | MdNode::Strong(children)
        | MdNode::Table(children)
        | MdNode::TableCell(children)
        | MdNode::TableRow(children) => {
            traverse_mdast_children(out, children, parent);
        },
        MdNode::Link { children, .. } => {
            traverse_mdast_children(out, children, parent);
        },
        MdNode::List { children, .. } => {
            traverse_mdast_children(out, children, parent);
        },
        MdNode::MdxJsxFlowElement { children, .. } => {
            traverse_mdast_children(out, children, parent);
        },
        MdNode::MdxJsxTextElement { children, .. } => {
            traverse_mdast_children(out, children, parent);
        },
        _ => {
            assert(index_entries_view(out@) =~= index_entries_view(out@) + Seq::<
                (IndexField, Seq<char>),
            >::empty());
        },
    }
}

/// Collects the texts to index under each of `nodes` after what `out` holds.
pub fn traverse_mdast_children(
    out: &mut Vec<(IndexField, String)>,
    nodes: &Vec<MdNode>,
    parent: ParentElementType,
)
    ensures
        index_entries_view(final(out)@) == index_entries_view(old(out)@) + indexed_text_of_all(
            nodes@,
            parent,
        ),
    decreases nodes,
{
    let ghost start = index_entries_view(out@);
    let mut i: usize = 0;
    while i < nodes.len()
        invariant
            i <= nodes.len(),
            index_entries_view(out@) == start + indexed_text_of_all(nodes@.take(i as int), parent),
        decreases nodes.len() - i,
    {
        traverse_mdast(out, &nodes[i], parent);
        assert(nodes@.take(i + 1).drop_last() =~= nodes@.take(i as int));
        i = i + 1;
        assert(index_entries_view(out@) =~= start + indexed_text_of_all(
            nodes@.take(i as int),
            parent,
        ));
    }
    assert(nodes@.take(nodes.len() as int) =~= nodes@);
}

/// The texts of a document to put in the search index, with their fields.
pub fn mdast_to_index_entries(node: &MdNode) -> (r: Vec<(IndexField, String)>)
    ensures
        index_entries_view(r@) == indexed_text(*node, ParentElementType::Other),
{
    let mut out: Vec<(IndexField, String)> = Vec::new();
    assert(index_entries_view(out@) =~= Seq::<(IndexField, Seq<char>)>::empty());
    traverse_mdast(&mut out, node, ParentElementType::Other);
    assert(index_entries_view(out@) =~= indexed_text(*node, ParentElementType::Other));
    out
}

/// The texts of index entries, one after another, their fields aside.
pub open spec fn joined_texts(entries: Seq<(IndexField, Seq<char>)>) -> Seq<char>
    decreases entries.len(),
{
    if entries.len() == 0 {
        Seq::empty()
    } else {
        joined_texts(entries.drop_last()) + entries.last().1
    }
}

proof fn lemma_joined_texts_append(a: Seq<(IndexField, Seq<char>)>, b: Seq<(IndexField, Seq<char>)>)
    ensures
        joined_texts(a + b) == joined_texts(a) + joined_texts(b),
    decreases b.len(),
{
    if b.len() == 0 {
        assert(a + b =~= a);
        assert(joined_texts(a) + joined_texts(b) =~= joined_texts(a));
    } else {
        lemma_joined_texts_append(a, b.drop_last());
        assert((a + b).drop_last() =~= a + b.drop_last());
        assert((a + b).last() == b.last());
        assert(joined_texts(a) + joined_texts(b) =~= joined_texts(a) + joined_texts(b.drop_last())
            + b.last().1);
    }
}

/// Under a heading or a paragraph, the index takes all of a node's text:
/// the texts of its entries, one after another, are its text content, with
/// nothing left out (bold, emphasised, struck-through and linked words
/// included) and nothing added.
pub proof fn law_indexed_text_is_text_content(node: MdNode, parent: ParentElementType)
    requires
        index_field(parent) is Some,
    ensures
        joined_texts(indexed_text(node, parent)) == text_content(node),
    decreases node, 1nat,
{
    match node {
        MdNode::Heading { children, .. } => law_indexed_texts_are_text_content(
            children@,
            ParentElementType::Heading,
        ),
        MdNode::Paragraph(children) => law_indexed_texts_are_text_content(
            children@,
            ParentElementType::Paragraph,
        ),
        MdNode::Text(value) => {
            let e = indexed_text(node, parent);
            let field = index_field(parent)->0;
            assert(e == seq![(field, value@)]);
            assert(e.drop_last() =~= Seq::<(IndexField, Seq<char>)>::empty());
            assert(joined_texts(e.drop_last()) == Seq::<char>::empty());
            assert(e.last().1 == value@);
            assert(joined_texts(e) == joined_texts(e.drop_last()) + e.last().1);
            assert(joined_texts(e) =~= value@);
        },
        MdNode::Blockquote(c) => law_indexed_texts_are_text_content(c@, parent),
        MdNode::Delete(c) => law_indexed_texts_are_text_content(c@, parent),
        MdNode::Emphasis(c) => law_indexed_texts_are_text_content(c@, parent),
        MdNode::Link { children, .. } => law_indexed_texts_are_text_content(children@, parent),
        MdNode::List { children, .. } => law_indexed_texts_are_text_content(children@, parent),
        MdNode::ListItem(c) => law_indexed_texts_are_text_content(c@, parent),
        MdNode::MdxJsxFlowElement { children, .. } => law_indexed_texts_are_text_content(
            children@,
            parent,
        ),
        MdNode::MdxJsxTextElement { children, .. } => law_indexed_texts_are_text_content(
            children@,
            parent,
        ),
        MdNode::Root(c) => law_indexed_texts_are_text_content(c@, parent),
        MdNode::Strong(c) => law_indexed_texts_are_text_content(c@, parent),
        MdNode::Table(c) => law_indexed_texts_are_text_content(c@, parent),
        MdNode::TableCell(c) => law_indexed_texts_are_text_content(c@, parent),
        MdNode::TableRow(c) => law_indexed_texts_are_text_content(c@, parent),
        _ => {},
    }
}

/// Under a heading or a paragraph, the index takes all the text of `nodes`,
/// in order.
pub proof fn law_indexed_texts_are_text_content(nodes: Seq<MdNode>, parent: ParentElementType)
    requires
        index_field(parent) is Some,
    ensures
        joined_texts(indexed_text_of_all(nodes, parent)) == text_content_of_all(nodes),
    decreases nodes, 0nat,
{
    if nodes.len() > 0 {
        law_indexed_texts_are_text_content(nodes.drop_last(), parent);
        law_indexed_text_is_text_content(nodes.last(), parent);
        lemma_joined_texts_append(
            indexed_text_of_all(nodes.drop_last(), parent),
            indexed_text(nodes.last(), parent),
        );
    }
}

/// A paragraph or a heading is indexed with all of its text, wherever it
/// stands; the paragraph's entries are all in the paragraph field.
pub proof fn law_paragraph_and_heading_index_all_their_text(node: MdNode, parent: ParentElementType)
    requires
        node is Paragraph || node is Heading,
    ensures
        joined_texts(indexed_text(node, parent)) == text_content(node),
{
    match node {
        MdNode::Paragraph(c) => law_indexed_texts_are_text_content(c@, ParentElementType::Paragraph),
        MdNode::Heading { children, .. } => law_indexed_texts_are_text_content(
            children@,
            ParentElementType::Heading,
        ),
        _ => {},
    }
}

/// The text of a container is the text of its children, one after another:
/// no container's words are dropped from the text that heading ids and the
/// index are made of.
pub proof fn law_container_text_is_its_childrens_text(node: MdNode)
    ensures
        text_children(node) matches Some(c) ==> text_content(node) == text_content_of_all(c),
        text_children(node) is None ==> (node matches MdNode::Text(v) ==> text_content(node) == v@),
{
}

/// Inline markup is transparent: bold, emphasised, struck-through and
/// linked text is text, and is indexed as the text around it is.
pub proof fn law_inline_markup_is_transparent(children: Vec<MdNode>, parent: ParentElementType, url: String, title: Option<String>, resolved_href: Result<String, String>)
    ensures
        text_content(MdNode::Strong(children)) == text_content_of_all(children@),
        text_content(MdNode::Emphasis(children)) == text_content_of_all(children@),
        text_content(MdNode::Delete(children)) == text_content_of_all(children@),
        text_content(MdNode::Link { children, title, url, resolved_href }) == text_content_of_all(children@),
        indexed_text(MdNode::Strong(children), parent) == indexed_text_of_all(children@, parent),
        indexed_text(MdNode::Emphasis(children), parent) == indexed_text_of_all(children@, parent),
        indexed_text(MdNode::Delete(children), parent) == indexed_text_of_all(children@, parent),
        indexed_text(MdNode::Link { children, title, url, resolved_href }, parent)
            == indexed_text_of_all(children@, parent),
{
}

} // verus!
