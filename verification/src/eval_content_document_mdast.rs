//! Rendering a content document's syntax tree to HTML.

use vstd::prelude::*;

use syntect::parsing::SyntaxSet;

use crate::eval_mdx_element::eval_mdx_element;
use crate::eval_mdx_element::failure_message;
use crate::eval_mdx_element::mdx_element_outcome;
use crate::eval_mdx_element::MdxElement;
use crate::eval_mdx_element::MdxElementView;
use crate::highlight::highlight_code;
use crate::highlight::highlight_result;
use crate::highlight::highlight_view;
use crate::escape::escape_html;
use crate::escape::escape_html_attribute;
use crate::escape::escaped_attribute;
use crate::escape::escaped_html;
use crate::is_external_link::is_external_link;
use crate::is_external_link::is_external_link_spec;
use crate::mdast::heading_id;
use crate::mdast::mdast_children_to_heading_id;
use crate::mdast::MdNode;
use crate::mdast::MdxAttribute;
use crate::mdast::MetadataLineItem;
use crate::text::push_char;
use crate::text::push_str;

verus! {

/// Why a document could not be rendered.
#[derive(Clone, Debug)]
pub struct RenderError {
    pub message: String,
}

/// `r` is the rendering that `expected` states: the same text, or the same
/// error message.
pub open spec fn renders_as(r: Result<String, RenderError>, expected: Result<Seq<char>, Seq<char>>) -> bool {
    match (r, expected) {
        (Ok(s), Ok(t)) => s@ == t,
        (Err(e), Err(m)) => e.message@ == m,
        _ => false,
    }
}

/// The view of a host-resolved value.
pub open spec fn resolved_view(r: Result<String, String>) -> Result<Seq<char>, Seq<char>> {
    match r {
        Ok(s) => Ok(s@),
        Err(e) => Err(e@),
    }
}

/// `inner` between `open` and `close`, or the error of `inner`.
pub open spec fn wrapped(open: Seq<char>, inner: Result<Seq<char>, Seq<char>>, close: Seq<char>) -> Result<
    Seq<char>,
    Seq<char>,
> {
    match inner {
        Ok(s) => Ok(open + s + close),
        Err(e) => Err(e),
    }
}

/// The decimal digits of `n`.
pub open spec fn decimal(n: nat) -> Seq<char>
    decreases n,
{
    if n < 10 {
        seq![(('0' as u32) + n) as char]
    } else {
        decimal(n / 10) + seq![(('0' as u32) + (n % 10)) as char]
    }
}

/// The decimal digits of `n` (what `format!("{}", n)` writes).
pub fn u8_to_decimal(n: u8) -> (s: String)
    ensures
        s@ == decimal(n as nat),
{
    let mut s = String::new();
    if n >= 100 {
        let c1 = char_of_digit(n / 100);
        let c2 = char_of_digit((n / 10) % 10);
        let c3 = char_of_digit(n % 10);
        push_char(&mut s, c1);
        push_char(&mut s, c2);
        push_char(&mut s, c3);
        let ghost hundreds = (n / 100) as nat;
        let ghost tens = (n / 10) as nat;
        assert(tens / 10 == hundreds);
        assert(tens % 10 == ((n / 10) % 10) as nat);
        assert(decimal(hundreds) == seq![c1]);
        assert(decimal(tens) == decimal(tens / 10) + seq![(('0' as u32) + (tens % 10)) as char]);
        assert(decimal(tens) =~= seq![c1, c2]);
        assert(decimal(n as nat) == decimal(tens) + seq![(('0' as u32) + ((n as nat) % 10)) as char]);
        assert(c3 == (('0' as u32) + ((n as nat) % 10)) as char);
        assert(s@ =~= seq![c1, c2, c3]);
        assert(decimal(n as nat) =~= seq![c1, c2, c3]);
    } else if n >= 10 {
        let c1 = char_of_digit(n / 10);
        let c2 = char_of_digit(n % 10);
        push_char(&mut s, c1);
        push_char(&mut s, c2);
        let ghost tens = (n / 10) as nat;
        assert(decimal(tens) == seq![c1]);
        assert(decimal(n as nat) == decimal(tens) + seq![(('0' as u32) + ((n as nat) % 10)) as char]);
        assert(c2 == (('0' as u32) + ((n as nat) % 10)) as char);
        assert(s@ =~= seq![c1, c2]);
        assert(decimal(n as nat) =~= seq![c1, c2]);
    } else {
        push_char(&mut s, char_of_digit(n));
        assert(s@ =~= decimal(n as nat));
    }
    s
}

/// The decimal digits of `n` (what `format!("{}", n)` writes).
pub fn usize_to_decimal(n: usize) -> (s: String)
    ensures
        s@ == decimal(n as nat),
    decreases n,
{
    if n < 10 {
        let mut s = String::new();
        push_char(&mut s, char_of_digit(n as u8));
        assert(s@ =~= decimal(n as nat));
        s
    } else {
        let mut s = usize_to_decimal(n / 10);
        let d = (n % 10) as u8;
        push_char(&mut s, char_of_digit(d));
        assert(s@ =~= decimal(n as nat));
        s
    }
}

fn char_of_digit(d: u8) -> (c: char)
    requires
        d < 10,
    ensures
        c == (('0' as u32) + d) as char,
{
    if d == 0 {
        '0'
    } else if d == 1 {
        '1'
    } else if d == 2 {
        '2'
    } else if d == 3 {
        '3'
    } else if d == 4 {
        '4'
    } else if d == 5 {
        '5'
    } else if d == 6 {
        '6'
    } else if d == 7 {
        '7'
    } else if d == 8 {
        '8'
    } else {
        '9'
    }
}

/// The metadata items of a code block as attributes: a flag as ` name`, a
/// pair as ` data-meta-name="value"`.
pub open spec fn metadata_attributes(items: Seq<MetadataLineItem>) -> Seq<char>
    decreases items.len(),
{
    if items.len() == 0 {
        Seq::empty()
    } else {
        metadata_attributes(items.drop_last()) + match items.last() {
            MetadataLineItem::Flag { name } => " "@ + name@,
            MetadataLineItem::Pair { name, value } => " data-meta-"@ + escaped_html(name@) + "=\""@
                + escaped_attribute(value@) + "\""@,
        }
    }
}

/// The HTML of a code block.
pub open spec fn code_block_html(
    lang: Option<String>,
    meta: Option<String>,
    value: Seq<char>,
    meta_items: Result<Vec<MetadataLineItem>, String>,
    highlighted: Option<Result<String, String>>,
) -> Result<Seq<char>, Seq<char>> {
    let head = "<pre class=\"code"@ + match lang {
        Some(l) => " language-"@ + l@ + "\""@ + " data-lang=\""@ + escaped_attribute(l@) + "\""@,
        None => "\""@,
    };
    let meta_part: Result<Seq<char>, Seq<char>> = match meta {
        Some(m) => match meta_items {
            Ok(items) => Ok(" data-meta-line=\""@ + escaped_attribute(m@) + "\""@
                + metadata_attributes(items@)),
            Err(e) => Err(e@),
        },
        None => Ok(Seq::empty()),
    };
    let body: Result<Seq<char>, Seq<char>> = match (lang, highlighted) {
        (Some(_), Some(Ok(html))) => Ok(html@),
        (Some(_), Some(Err(e))) => Err(e@),
        _ => Ok(escaped_html(value)),
    };
    match meta_part {
        Ok(mp) => match body {
            Ok(b) => Ok(head + mp + "><code>"@ + b + "</code></pre>"@),
            Err(e) => Err(e),
        },
        Err(e) => Err(e),
    }
}

/// Where a link or image points: its url when external, else what the host
/// resolved for it.
pub open spec fn target_of(url: Seq<char>, resolved: Result<String, String>) -> Result<
    Seq<char>,
    Seq<char>,
> {
    if is_external_link_spec(url) {
        Ok(url)
    } else {
        resolved_view(resolved)
    }
}

/// The HTML of an image.
pub open spec fn image_html(
    alt: Seq<char>,
    url: Seq<char>,
    title: Option<String>,
    resolved_src: Result<String, String>,
) -> Result<Seq<char>, Seq<char>> {
    match target_of(url, resolved_src) {
        Ok(src) => Ok("<img alt=\""@ + escaped_attribute(alt) + "\" "@ + "src=\""@
            + escaped_attribute(src) + "\""@ + match title {
            Some(t) => " title=\""@ + escaped_attribute(t@) + "\""@,
            None => Seq::empty(),
        } + ">"@),
        Err(e) => Err(e),
    }
}

/// The opening tag of a link.
pub open spec fn link_open(href: Seq<char>, title: Option<String>) -> Seq<char> {
    "<a href=\""@ + href + "\""@ + match title {
        Some(t) => " title=\""@ + t@ + "\""@,
        None => Seq::empty(),
    } + ">"@
}

/// The HTML of a node of a content document.
pub open spec fn content_html(node: MdNode) -> Result<Seq<char>, Seq<char>>
    decreases node,
{
    match node {
        MdNode::Blockquote(c) => wrapped("<blockquote>"@, content_html_all(c@), "</blockquote>"@),
        MdNode::Break => Ok("<br>"@),
        MdNode::Code { lang, meta, value, meta_items, highlighted } => code_block_html(
            lang,
            meta,
            value@,
            meta_items,
            highlighted,
        ),
        MdNode::Delete(c) => wrapped("<del>"@, content_html_all(c@), "</del>"@),
        MdNode::Emphasis(c) => wrapped("<em>"@, content_html_all(c@), "</em>"@),
        MdNode::FootnoteReference { identifier, label } => Ok(
            "<a href=\"#footnote-"@ + identifier@ + "\" role=\"doc-noteref\">"@ + match label {
                Some(l) => l@,
                None => identifier@,
            } + "</a>"@,
        ),
        MdNode::Heading { children, depth } => wrapped(
            "<h"@ + decimal(depth as nat) + " id=\""@ + escaped_attribute(heading_id(children@))
                + "\">"@,
            content_html_all(children@),
            "</h"@ + decimal(depth as nat) + ">"@,
        ),
        MdNode::Html(value) => Ok(value@),
        MdNode::Image { alt, url, title, resolved_src } => image_html(
            alt@,
            url@,
            title,
            resolved_src,
        ),
        MdNode::InlineCode(value) => Ok("<code>"@ + escaped_attribute(value@) + "</code>"@),
        MdNode::Link { children, title, url, resolved_href } => match target_of(
            url@,
            resolved_href,
        ) {
            Ok(href) => wrapped(link_open(href, title), content_html_all(children@), "</a>"@),
            Err(e) => Err(e),
        },
        MdNode::List { children, ordered } => if ordered {
            wrapped("<ol>"@, content_html_all(children@), "</ol>"@)
        } else {
            wrapped("<ul>"@, content_html_all(children@), "</ul>"@)
        },
        MdNode::ListItem(c) => wrapped("<li>"@, content_html_all(c@), "</li>"@),
        MdNode::MdxFlowExpression { rendered, .. } => resolved_view(rendered),
        MdNode::MdxTextExpression { rendered, .. } => resolved_view(rendered),
        MdNode::MdxJsxFlowElement { attributes, children, name, rendered } => mdx_element_html(
            attributes@,
            children.len() > 0,
            content_html_all(children@),
            name,
            rendered,
        ),
        MdNode::MdxJsxTextElement { attributes, children, name, rendered } => mdx_element_html(
            attributes@,
            children.len() > 0,
            content_html_all(children@),
            name,
            rendered,
        ),
        MdNode::Paragraph(c) => wrapped("<p>"@, content_html_all(c@), "</p>"@),
        MdNode::Root(c) => content_html_all(c@),
        MdNode::Strong(c) => wrapped("<strong>"@, content_html_all(c@), "</strong>"@),
        MdNode::Table(c) => wrapped("<table>"@, content_html_all(c@), "</table>"@),
        MdNode::TableCell(c) => wrapped("<td>"@, content_html_all(c@), "</td>"@),
        MdNode::TableRow(c) => wrapped("<tr>"@, content_html_all(c@), "</tr>"@),
        MdNode::Text(value) => Ok(value@),
        MdNode::ThematicBreak => Ok("<hr>"@),
        _ => Ok(Seq::empty()),
    }
}

/// The HTML of an MDX element whose children rendered to `children_html`:
/// a failure there is the element's; an element
/// that names a component is what the host rendered for it, any other is
/// written out as `eval_mdx_element` writes it.
pub open spec fn mdx_element_html(
    attributes: Seq<MdxAttribute>,
    has_children: bool,
    children_html: Result<Seq<char>, Seq<char>>,
    name: Option<String>,
    rendered: Result<String, String>,
) -> Result<Seq<char>, Seq<char>> {
    match children_html {
        Err(e) => Err(e),
        Ok(inner) => match mdx_element_outcome(
            attributes,
            has_children,
            inner,
            match name {
                Some(n) => Some(n@),
                None => None,
            },
        ) {
            Err(f) => Err(failure_message(f)),
            Ok(MdxElementView::Html(html)) => Ok(html),
            Ok(MdxElementView::Component { .. }) => resolved_view(rendered),
        },
    }
}

/// The HTML of `nodes`, one after another; the first error, if any.
pub open spec fn content_html_all(nodes: Seq<MdNode>) -> Result<Seq<char>, Seq<char>>
    decreases nodes,
{
    if nodes.len() == 0 {
        Ok(Seq::empty())
    } else {
        match content_html_all(nodes.drop_last()) {
            Ok(s) => match content_html(nodes.last()) {
                Ok(t) => Ok(s + t),
                Err(e) => Err(e),
            },
            Err(e) => Err(e),
        }
    }
}

fn error_of(message: &String) -> (e: RenderError)
    ensures
        e.message@ == message@,
{
    RenderError { message: message.clone() }
}

/// A host-resolved value, or its error as a render error.
fn take_resolved(r: &Result<String, String>) -> (out: Result<String, RenderError>)
    ensures
        renders_as(out, resolved_view(*r)),
{
    match r {
        Ok(s) => Ok(s.clone()),
        Err(e) => Err(error_of(e)),
    }
}

/// `children` rendered between `open` and `close`.
fn render_wrapped(open: &str, children: &Vec<MdNode>, close: &str) -> (r: Result<String, RenderError>)
    ensures
        renders_as(r, wrapped(open@, content_html_all(children@), close@)),
    decreases children, 1nat,
{
    let inner = render_content_document_children(children)?;
    let mut out = String::new();
    push_str(&mut out, open);
    push_str(&mut out, inner.as_str());
    push_str(&mut out, close);
    assert(out@ =~= open@ + inner@ + close@);
    Ok(out)
}

/// Appends the attributes of the metadata items.
fn push_metadata_attributes(out: &mut String, items: &Vec<MetadataLineItem>)
    ensures
        final(out)@ == old(out)@ + metadata_attributes(items@),
{
    let ghost start = out@;
    let mut i: usize = 0;
    while i < items.len()
        invariant
            i <= items.len(),
            out@ == start + metadata_attributes(items@.take(i as int)),
        decreases items.len() - i,
    {
        let ghost before = out@;
        match &items[i] {
            MetadataLineItem::Flag { name } => {
                push_str(out, " ");
                push_str(out, name.as_str());
                assert(out@ =~= before + (" "@ + name@));
            },
            MetadataLineItem::Pair { name, value } => {
                push_str(out, " data-meta-");
                let n = escape_html(name.as_str());
                push_str(out, n.as_str());
                push_str(out, "=\"");
                let v = escape_html_attribute(value.as_str());
                push_str(out, v.as_str());
                push_str(out, "\"");
                assert(out@ =~= before + (" data-meta-"@ + escaped_html(name@) + "=\""@
                    + escaped_attribute(value@) + "\""@));
            },
        }
        assert(items@.take(i + 1).drop_last() =~= items@.take(i as int));
        i = i + 1;
        assert(out@ =~= start + metadata_attributes(items@.take(i as int)));
    }
    assert(items@.take(items.len() as int) =~= items@);
}

/// Renders a code block.
fn render_code(
    lang: &Option<String>,
    meta: &Option<String>,
    value: &String,
    meta_items: &Result<Vec<MetadataLineItem>, String>,
    highlighted: &Option<Result<String, String>>,
) -> (r: Result<String, RenderError>)
    ensures
        renders_as(r, code_block_html(*lang, *meta, value@, *meta_items, *highlighted)),
{
    let mut out = String::new();
    push_str(&mut out, "<pre class=\"code");
    match lang {
        Some(l) => {
            push_str(&mut out, " language-");
            push_str(&mut out, l.as_str());
            push_str(&mut out, "\"");
            push_str(&mut out, " data-lang=\"");
            let e = escape_html_attribute(l.as_str());
            push_str(&mut out, e.as_str());
            push_str(&mut out, "\"");
            assert(out@ =~= "<pre class=\"code"@ + (" language-"@ + l@ + "\""@ + " data-lang=\""@
                + escaped_attribute(l@) + "\""@));
        },
        None => {
            push_str(&mut out, "\"");
        },
    }
    let ghost head = out@;
    match meta {
        Some(m) => {
            push_str(&mut out, " data-meta-line=\"");
            let e = escape_html_attribute(m.as_str());
            push_str(&mut out, e.as_str());
            push_str(&mut out, "\"");
            match meta_items {
                Ok(items) => {
                    push_metadata_attributes(&mut out, items);
                    assert(out@ =~= head + (" data-meta-line=\""@ + escaped_attribute(m@) + "\""@
                        + metadata_attributes(items@)));
                },
                Err(e) => {
                    return Err(error_of(e));
                },
            }
        },
        None => {
            assert(out@ =~= head + Seq::<char>::empty());
        },
    }
    let ghost with_meta = out@;
    push_str(&mut out, "><code>");
    let ghost before_body = out@;
    match (lang, highlighted) {
        (Some(_), Some(Ok(html))) => {
            push_str(&mut out, html.as_str());
        },
        (Some(_), Some(Err(e))) => {
            return Err(error_of(e));
        },
        _ => {
            let e = escape_html(value.as_str());
            push_str(&mut out, e.as_str());
        },
    }
    push_str(&mut out, "</code></pre>");
    Ok(out)
}

/// Renders an image.
fn render_image(
    alt: &String,
    url: &String,
    title: &Option<String>,
    resolved_src: &Result<String, String>,
) -> (r: Result<String, RenderError>)
    ensures
        renders_as(r, image_html(alt@, url@, *title, *resolved_src)),
{
    let mut out = String::new();
    push_str(&mut out, "<img alt=\"");
    let a = escape_html_attribute(alt.as_str());
    push_str(&mut out, a.as_str());
    push_str(&mut out, "\" ");
    let ghost head = out@;
    let src: String = if is_external_link(url.as_str()) {
        url.clone()
    } else {
        match resolved_src {
            Ok(s) => s.clone(),
            Err(e) => {
                return Err(error_of(e));
            },
        }
    };
    push_str(&mut out, "src=\"");
    let s = escape_html_attribute(src.as_str());
    push_str(&mut out, s.as_str());
    push_str(&mut out, "\"");
    let ghost mid = out@;
    match title {
        Some(t) => {
            push_str(&mut out, " title=\"");
            let te = escape_html_attribute(t.as_str());
            push_str(&mut out, te.as_str());
            push_str(&mut out, "\"");
            assert(out@ =~= mid + (" title=\""@ + escaped_attribute(t@) + "\""@));
        },
        None => {
            assert(out@ =~= mid + Seq::<char>::empty());
        },
    }
    let ghost with_title = out@;
    push_str(&mut out, ">");
    assert(out@ =~= "<img alt=\""@ + escaped_attribute(alt@) + "\" "@ + "src=\""@
        + escaped_attribute(src@) + "\""@ + match *title {
        Some(t) => " title=\""@ + escaped_attribute(t@) + "\""@,
        None => Seq::empty(),
    } + ">"@);
    Ok(out)
}

/// Renders a link.
fn render_link(
    children: &Vec<MdNode>,
    title: &Option<String>,
    url: &String,
    resolved_href: &Result<String, String>,
) -> (r: Result<String, RenderError>)
    ensures
        renders_as(
            r,
            match target_of(url@, *resolved_href) {
                Ok(href) => wrapped(link_open(href, *title), content_html_all(children@), "</a>"@),
                Err(e) => Err(e),
            },
        ),
    decreases children, 1nat,
{
    let href: String = if is_external_link(url.as_str()) {
        url.clone()
    } else {
        match resolved_href {
            Ok(s) => s.clone(),
            Err(e) => {
                return Err(error_of(e));
            },
        }
    };
    let mut out = String::new();
    push_str(&mut out, "<a href=\"");
    push_str(&mut out, href.as_str());
    push_str(&mut out, "\"");
    let ghost mid = out@;
    match title {
        Some(t) => {
            push_str(&mut out, " title=\"");
            push_str(&mut out, t.as_str());
            push_str(&mut out, "\"");
            assert(out@ =~= mid + (" title=\""@ + t@ + "\""@));
        },
        None => {
            assert(out@ =~= mid + Seq::<char>::empty());
        },
    }
    push_str(&mut out, ">");
    assert(out@ =~= link_open(href@, *title));
    let inner = render_content_document_children(children)?;
    push_str(&mut out, inner.as_str());
    push_str(&mut out, "</a>");
    assert(out@ =~= link_open(href@, *title) + inner@ + "</a>"@);
    Ok(out)
}

/// Renders a heading, with the slug of its text as its id.
fn render_heading(children: &Vec<MdNode>, depth: u8) -> (r: Result<String, RenderError>)
    ensures
        renders_as(
            r,
            wrapped(
                "<h"@ + decimal(depth as nat) + " id=\""@ + escaped_attribute(heading_id(children@))
                    + "\">"@,
                content_html_all(children@),
                "</h"@ + decimal(depth as nat) + ">"@,
            ),
        ),
    decreases children, 1nat,
{
    let tag = u8_to_decimal(depth);
    let mut out = String::new();
    push_str(&mut out, "<h");
    push_str(&mut out, tag.as_str());
    push_str(&mut out, " id=\"");
    let id = mdast_children_to_heading_id(children);
    let e = escape_html_attribute(id.as_str());
    push_str(&mut out, e.as_str());
    push_str(&mut out, "\">");
    let ghost open = out@;
    let inner = render_content_document_children(children)?;
    push_str(&mut out, inner.as_str());
    push_str(&mut out, "</h");
    push_str(&mut out, tag.as_str());
    push_str(&mut out, ">");
    assert(out@ =~= open + inner@ + ("</h"@ + decimal(depth as nat) + ">"@));
    Ok(out)
}

/// Renders a footnote reference.
fn render_footnote_reference(identifier: &String, label: &Option<String>) -> (r: String)
    ensures
        r@ == "<a href=\"#footnote-"@ + identifier@ + "\" role=\"doc-noteref\">"@ + match *label {
            Some(l) => l@,
            None => identifier@,
        } + "</a>"@,
{
    let mut out = String::new();
    push_str(&mut out, "<a href=\"#footnote-");
    push_str(&mut out, identifier.as_str());
    push_str(&mut out, "\" role=\"doc-noteref\">");
    match label {
        Some(l) => push_str(&mut out, l.as_str()),
        None => push_str(&mut out, identifier.as_str()),
    }
    push_str(&mut out, "</a>");
    out
}

/// Renders an MDX element.
fn render_mdx_element(
    attributes: &Vec<MdxAttribute>,
    children: &Vec<MdNode>,
    name: &Option<String>,
    rendered: &Result<String, String>,
) -> (r: Result<String, RenderError>)
    ensures
        renders_as(
            r,
            mdx_element_html(
                attributes@,
                children.len() > 0,
                content_html_all(children@),
                *name,
                *rendered,
            ),
        ),
    decreases children, 1nat,
{
    let inner = render_content_document_children(children)?;
    match eval_mdx_element(attributes, children, inner, name) {
        Ok(MdxElement::Html(html)) => Ok(html),
        Ok(MdxElement::Component { .. }) => take_resolved(rendered),
        Err(e) => Err(RenderError { message: e.message() }),
    }
}

/// Renders a node of a content document to HTML, its code blocks with the
/// highlighting they carry.
pub fn render_content_document_mdast(node: &MdNode) -> (r: Result<String, RenderError>)
    ensures
        renders_as(r, content_html(*node)),
    decreases node, 2nat,
{
    match node {
        MdNode::Blockquote(c) => render_wrapped("<blockquote>", c, "</blockquote>"),
        MdNode::Break => Ok(String::from_str("<br>")),
        MdNode::Code { lang, meta, value, meta_items, highlighted } => render_code(
            lang,
            meta,
            value,
            meta_items,
            highlighted,
        ),
        MdNode::Delete(c) => render_wrapped("<del>", c, "</del>"),
        MdNode::Emphasis(c) => render_wrapped("<em>", c, "</em>"),
        MdNode::FootnoteReference { identifier, label } => Ok(
            render_footnote_reference(identifier, label),
        ),
        MdNode::Heading { children, depth } => render_heading(children, *depth),
        MdNode::Html(value) => Ok(value.clone()),
        MdNode::Image { alt, url, title, resolved_src } => render_image(
            alt,
            url,
            title,
            resolved_src,
        ),
        MdNode::InlineCode(value) => {
            let mut out = String::new();
            push_str(&mut out, "<code>");
            let e = escape_html_attribute(value.as_str());
            push_str(&mut out, e.as_str());
            push_str(&mut out, "</code>");
            Ok(out)
        },
        MdNode::Link { children, title, url, resolved_href } => render_link(
            children,
            title,
            url,
            resolved_href,
        ),
        MdNode::List { children, ordered } => {
            if *ordered {
                render_wrapped("<ol>", children, "</ol>")
            } else {
                render_wrapped("<ul>", children, "</ul>")
            }
        },
        MdNode::ListItem(c) => render_wrapped("<li>", c, "</li>"),
        MdNode::MdxFlowExpression { rendered, .. } => take_resolved(rendered),
        MdNode::MdxTextExpression { rendered, .. } => take_resolved(rendered),
        MdNode::MdxJsxFlowElement { attributes, children, name, rendered } => render_mdx_element(
            attributes,
            children,
            name,
            rendered,
        ),
        MdNode::MdxJsxTextElement { attributes, children, name, rendered } => render_mdx_element(
            attributes,
            children,
            name,
            rendered,
        ),
        MdNode::Paragraph(c) => render_wrapped("<p>", c, "</p>"),
        MdNode::Root(c) => render_content_document_children(c),
        MdNode::Strong(c) => render_wrapped("<strong>", c, "</strong>"),
        MdNode::Table(c) => render_wrapped("<table>", c, "</table>"),
        MdNode::TableCell(c) => render_wrapped("<td>", c, "</td>"),
        MdNode::TableRow(c) => render_wrapped("<tr>", c, "</tr>"),
        MdNode::Text(value) => Ok(value.clone()),
        MdNode::ThematicBreak => Ok(String::from_str("<hr>")),
        _ => Ok(String::new()),
    }
}

/// Renders `nodes`, one after another, as `render_content_document_mdast`
/// does; stops at the first error.
pub fn render_content_document_children(nodes: &Vec<MdNode>) -> (r: Result<String, RenderError>)
    ensures
        renders_as(r, content_html_all(nodes@)),
    decreases nodes, 0nat,
{
    let mut out = String::new();
    let mut i: usize = 0;
    while i < nodes.len()
        invariant
            i <= nodes.len(),
            content_html_all(nodes@.take(i as int)) == Ok::<Seq<char>, Seq<char>>(out@),
        decreases nodes.len() - i,
    {
        assert(nodes@.take(i + 1).drop_last() =~= nodes@.take(i as int));
        assert(nodes@.take(i + 1).last() == nodes@[i as int]);
        let piece = render_content_document_mdast(&nodes[i]);
        match piece {
            Ok(t) => {
                push_str(&mut out, t.as_str());
            },
            Err(e) => {
                proof {
                    lemma_first_error_stays(nodes@, i as int);
                }
                return Err(e);
            },
        }
        i = i + 1;
    }
    assert(nodes@.take(nodes.len() as int) =~= nodes@);
    Ok(out)
}

/// Once a prefix of the nodes fails, all of them fail with its error.
proof fn lemma_first_error_stays(nodes: Seq<MdNode>, i: int)
    requires
        0 <= i < nodes.len(),
        content_html_all(nodes.take(i + 1)) is Err,
    ensures
        content_html_all(nodes) == content_html_all(nodes.take(i + 1)),
    decreases nodes.len(),
{
    if nodes.len() > i + 1 {
        assert(nodes.drop_last().take(i + 1) =~= nodes.take(i + 1));
        lemma_first_error_stays(nodes.drop_last(), i);
    } else {
        assert(nodes.take(i + 1) =~= nodes);
    }
}


/// `b` is `a` with the highlighting of its code blocks filled in from the
/// syntaxes of `syntax_set`: a code block that names a language carries
/// what highlighting its code in that language gives, one that names none
/// carries none, and all else is as it was.
pub open spec fn highlights_filled(syntax_set: SyntaxSet, a: MdNode, b: MdNode) -> bool
    decreases a, 0nat,
{
    match (a, b) {
        (
            MdNode::Code { lang, meta, value, meta_items, .. },
            MdNode::Code { lang: l, meta: m, value: v, meta_items: mi, highlighted: h },
        ) => lang == l && meta == m && value == v && meta_items == mi && highlight_view(h) == match lang {
            Some(name) => highlight_result(syntax_set, name@, value@),
            None => None,
        },
        (MdNode::Blockquote(c), MdNode::Blockquote(d)) => highlights_filled_all(syntax_set, c@, d@),
        (MdNode::Delete(c), MdNode::Delete(d)) => highlights_filled_all(syntax_set, c@, d@),
        (MdNode::Emphasis(c), MdNode::Emphasis(d)) => highlights_filled_all(syntax_set, c@, d@),
        (
            MdNode::Heading { children, depth },
            MdNode::Heading { children: d, depth: e },
        ) => depth == e && highlights_filled_all(syntax_set, children@, d@),
        (
            MdNode::Link { children, title, url, resolved_href },
            MdNode::Link { children: d, title: t, url: u, resolved_href: r },
        ) => title == t && url == u && resolved_href == r && highlights_filled_all(syntax_set, children@, d@),
        (
            MdNode::List { children, ordered },
            MdNode::List { children: d, ordered: o },
        ) => ordered == o && highlights_filled_all(syntax_set, children@, d@),
        (MdNode::ListItem(c), MdNode::ListItem(d)) => highlights_filled_all(syntax_set, c@, d@),
        (MdNode::Paragraph(c), MdNode::Paragraph(d)) => highlights_filled_all(syntax_set, c@, d@),
        (MdNode::Root(c), MdNode::Root(d)) => highlights_filled_all(syntax_set, c@, d@),
        (MdNode::Strong(c), MdNode::Strong(d)) => highlights_filled_all(syntax_set, c@, d@),
        (MdNode::Table(c), MdNode::Table(d)) => highlights_filled_all(syntax_set, c@, d@),
        (MdNode::TableCell(c), MdNode::TableCell(d)) => highlights_filled_all(syntax_set, c@, d@),
        (MdNode::TableRow(c), MdNode::TableRow(d)) => highlights_filled_all(syntax_set, c@, d@),
        (
            MdNode::MdxJsxFlowElement { attributes, children, name, rendered },
            MdNode::MdxJsxFlowElement { attributes: at, children: d, name: n, rendered: r },
        ) => attributes == at && name == n && rendered == r && highlights_filled_all(syntax_set, children@, d@),
        (
            MdNode::MdxJsxTextElement { attributes, children, name, rendered },
            MdNode::MdxJsxTextElement { attributes: at, children: d, name: n, rendered: r },
        ) => attributes == at && name == n && rendered == r && highlights_filled_all(syntax_set, children@, d@),
        (MdNode::MdxJsxFlowElement { .. }, _) => false,
        (MdNode::MdxJsxTextElement { .. }, _) => false,
        (MdNode::Code { .. }, _) => false,
        (MdNode::Blockquote(_), _) => false,
        (MdNode::Delete(_), _) => false,
        (MdNode::Emphasis(_), _) => false,
        (MdNode::Heading { .. }, _) => false,
        (MdNode::Link { .. }, _) => false,
        (MdNode::List { .. }, _) => false,
        (MdNode::ListItem(_), _) => false,
        (MdNode::Paragraph(_), _) => false,
        (MdNode::Root(_), _) => false,
        (MdNode::Strong(_), _) => false,
        (MdNode::Table(_), _) => false,
        (MdNode::TableCell(_), _) => false,
        (MdNode::TableRow(_), _) => false,
        _ => a == b,
    }
}

/// `b` is `a`, node by node, with the highlighting of code blocks filled in.
pub open spec fn highlights_filled_all(syntax_set: SyntaxSet, a: Seq<MdNode>, b: Seq<MdNode>) -> bool
    decreases a, 1nat,
{
    if a.len() != b.len() {
        false
    } else if a.len() == 0 {
        true
    } else {
        highlights_filled_all(syntax_set, a.drop_last(), b.drop_last()) && highlights_filled(
            syntax_set,
            a.last(),
            b.last(),
        )
    }
}

/// What `a` then `b` render to, one after the other.
pub open spec fn joined_html(
    a: Result<Seq<char>, Seq<char>>,
    b: Result<Seq<char>, Seq<char>>,
) -> Result<Seq<char>, Seq<char>> {
    match a {
        Ok(s) => match b {
            Ok(t) => Ok(s + t),
            Err(e) => Err(e),
        },
        Err(e) => Err(e),
    }
}

/// Nodes one after another render as the first part, then the second.
pub proof fn law_rendering_splits(a: Seq<MdNode>, b: Seq<MdNode>)
    ensures
        content_html_all(a + b) == joined_html(content_html_all(a), content_html_all(b)),
    decreases b.len(),
{
    if b.len() == 0 {
        assert(a + b =~= a);
        match content_html_all(a) {
            Ok(s) => assert(s + Seq::<char>::empty() =~= s),
            Err(_) => {},
        }
    } else {
        law_rendering_splits(a, b.drop_last());
        assert((a + b).drop_last() =~= a + b.drop_last());
        assert((a + b).last() == b.last());
        match content_html_all(a) {
            Ok(s) => match content_html_all(b.drop_last()) {
                Ok(t) => match content_html(b.last()) {
                    Ok(u) => assert(s + t + u =~= s + (t + u)),
                    Err(_) => {},
                },
                Err(_) => {},
            },
            Err(_) => {},
        }
    }
}

/// Raw HTML is written as it stands, never escaped; content between two
/// pieces of raw HTML renders between them as it would alone.
pub proof fn law_raw_html_is_written_verbatim(open: String, nodes: Seq<MdNode>, close: String)
    ensures
        content_html(MdNode::Html(open)) == Ok::<Seq<char>, Seq<char>>(open@),
        content_html_all(seq![MdNode::Html(open)] + nodes + seq![MdNode::Html(close)]) == wrapped(
            open@,
            content_html_all(nodes),
            close@,
        ),
{
    let first = seq![MdNode::Html(open)];
    let last = seq![MdNode::Html(close)];
    assert(first.drop_last() =~= Seq::<MdNode>::empty());
    assert(content_html_all(first.drop_last()) == Ok::<Seq<char>, Seq<char>>(Seq::<char>::empty()));
    assert(first.last() == MdNode::Html(open));
    assert(content_html(first.last()) == Ok::<Seq<char>, Seq<char>>(open@));
    assert(content_html_all(first) == Ok::<Seq<char>, Seq<char>>(Seq::<char>::empty() + open@));
    assert(Seq::<char>::empty() + open@ =~= open@);
    assert(last.drop_last() =~= Seq::<MdNode>::empty());
    assert(content_html_all(last.drop_last()) == Ok::<Seq<char>, Seq<char>>(Seq::<char>::empty()));
    assert(last.last() == MdNode::Html(close));
    assert(content_html(last.last()) == Ok::<Seq<char>, Seq<char>>(close@));
    assert(content_html_all(last) == Ok::<Seq<char>, Seq<char>>(Seq::<char>::empty() + close@));
    assert(Seq::<char>::empty() + close@ =~= close@);
    law_rendering_splits(first, nodes);
    law_rendering_splits(first + nodes, last);
}

/// The tags that a container node wraps around what its children render
/// to, and those children; none for a node of another kind.
pub open spec fn container_parts(node: MdNode) -> Option<(Seq<char>, Seq<char>, Seq<MdNode>)> {
    match node {
        MdNode::Paragraph(c) => Some(("<p>"@, "</p>"@, c@)),
        MdNode::Blockquote(c) => Some(("<blockquote>"@, "</blockquote>"@, c@)),
        MdNode::Emphasis(c) => Some(("<em>"@, "</em>"@, c@)),
        MdNode::Strong(c) => Some(("<strong>"@, "</strong>"@, c@)),
        MdNode::Delete(c) => Some(("<del>"@, "</del>"@, c@)),
        MdNode::ListItem(c) => Some(("<li>"@, "</li>"@, c@)),
        MdNode::Table(c) => Some(("<table>"@, "</table>"@, c@)),
        MdNode::TableRow(c) => Some(("<tr>"@, "</tr>"@, c@)),
        MdNode::TableCell(c) => Some(("<td>"@, "</td>"@, c@)),
        MdNode::List { children, ordered } => if ordered {
            Some(("<ol>"@, "</ol>"@, children@))
        } else {
            Some(("<ul>"@, "</ul>"@, children@))
        },
        _ => None,
    }
}

/// A container node renders as its tags around what its children, rendered
/// one after another, give; an error among the children is the node's. This
/// holds of the document as `eval_content_document_mdast` highlights it: the
/// highlighted node's children are the children as
/// `eval_content_document_children` highlights them.
pub proof fn law_container_wraps_children(syntax_set: SyntaxSet, node: MdNode, filled: MdNode)
    requires
        container_parts(node) is Some,
        highlights_filled(syntax_set, node, filled),
    ensures
        container_parts(filled) matches Some((open, close, hc)) && container_parts(node) matches Some(
            (o, c, cs),
        ) && open == o && close == c && highlights_filled_all(syntax_set, cs, hc) && content_html(
            filled,
        ) == wrapped(open, content_html_all(hc), close),
{
}

/// Fills in the highlighting of the code blocks of `node` that name a
/// language, with the syntaxes of `syntax_set`.
pub fn fill_highlights(node: &mut MdNode, syntax_set: &SyntaxSet)
    ensures
        highlights_filled(*syntax_set, *old(node), *final(node)),
    decreases *old(node), 0nat,
{
    match node {
        MdNode::Code { lang, value, highlighted, .. } => {
            let h = match lang {
                Some(l) => highlight_code(syntax_set, l.as_str(), value.as_str()),
                None => None,
            };
            *highlighted = h;
        },
        MdNode::Blockquote(c) => fill_highlights_all(c, syntax_set),
        MdNode::Delete(c) => fill_highlights_all(c, syntax_set),
        MdNode::Emphasis(c) => fill_highlights_all(c, syntax_set),
        MdNode::Heading { children, .. } => fill_highlights_all(children, syntax_set),
        MdNode::Link { children, .. } => fill_highlights_all(children, syntax_set),
        MdNode::List { children, .. } => fill_highlights_all(children, syntax_set),
        MdNode::ListItem(c) => fill_highlights_all(c, syntax_set),
        MdNode::Paragraph(c) => fill_highlights_all(c, syntax_set),
        MdNode::Root(c) => fill_highlights_all(c, syntax_set),
        MdNode::Strong(c) => fill_highlights_all(c, syntax_set),
        MdNode::Table(c) => fill_highlights_all(c, syntax_set),
        MdNode::TableCell(c) => fill_highlights_all(c, syntax_set),
        MdNode::TableRow(c) => fill_highlights_all(c, syntax_set),
        MdNode::MdxJsxFlowElement { children, .. } => fill_highlights_all(children, syntax_set),
        MdNode::MdxJsxTextElement { children, .. } => fill_highlights_all(children, syntax_set),
        _ => {},
    }
}

/// Fills in the highlighting of the code blocks of `nodes`.
pub fn fill_highlights_all(nodes: &mut Vec<MdNode>, syntax_set: &SyntaxSet)
    ensures
        highlights_filled_all(*syntax_set, old(nodes)@, final(nodes)@),
    decreases *old(nodes), 1nat,
{
    let ghost initial = nodes@;
    let n = nodes.len();
    let mut rest: Vec<MdNode> = Vec::new();
    std::mem::swap(&mut rest, nodes);
    let mut done: Vec<MdNode> = Vec::new();
    let mut k: usize = 0;
    while rest.len() > 0
        invariant
            k + rest@.len() == initial.len(),
            initial.len() == n,
            initial == old(nodes)@,
            rest@ == initial.skip(k as int),
            highlights_filled_all(*syntax_set, initial.take(k as int), done@),
        decreases rest@.len(),
    {
        let mut child = rest.remove(0);
        assert(child == initial[k as int]);
        proof {
            assert(decreases_to!(*old(nodes) => old(nodes)@));
            assert(decreases_to!(old(nodes)@ => old(nodes)@[k as int]));
        }
        fill_highlights(&mut child, syntax_set);
        let ghost before = done@;
        done.push(child);
        proof {
            let t = initial.take(k + 1);
            assert(t.drop_last() =~= initial.take(k as int));
            assert(t.last() == initial[k as int]);
            assert(done@.drop_last() =~= before);
            assert(rest@ =~= initial.skip(k + 1));
        }
        k = k + 1;
    }
    assert(initial.take(k as int) =~= initial);
    *nodes = done;
}

/// Renders a content document to HTML: its code blocks that name a language
/// are highlighted with the syntaxes of `syntax_set`, then it is rendered as
/// `render_content_document_mdast` renders it. Each code block carries what
/// `highlight_code` gives for its own language and code, so the document so
/// highlighted is the one `highlights_filled` determines.
pub fn eval_content_document_mdast(mdast: MdNode, syntax_set: &SyntaxSet) -> (r: Result<
    String,
    RenderError,
>)
    ensures
        exists|h: MdNode| highlights_filled(*syntax_set, mdast, h) && renders_as(r, content_html(h)),
{
    let mut node = mdast;
    fill_highlights(&mut node, syntax_set);
    let r = render_content_document_mdast(&node);
    assert(highlights_filled(*syntax_set, mdast, node) && renders_as(r, content_html(node)));
    r
}

/// Renders the nodes `children` of a content document, one after another, as
/// `eval_content_document_mdast` renders a document.
pub fn eval_content_document_children(children: Vec<MdNode>, syntax_set: &SyntaxSet) -> (r: Result<
    String,
    RenderError,
>)
    ensures
        exists|h: Seq<MdNode>| highlights_filled_all(*syntax_set, children@, h) && renders_as(r, content_html_all(h)),
{
    let mut nodes = children;
    fill_highlights_all(&mut nodes, syntax_set);
    let r = render_content_document_children(&nodes);
    assert(highlights_filled_all(*syntax_set, children@, nodes@) && renders_as(r, content_html_all(nodes@)));
    r
}

} // verus!
