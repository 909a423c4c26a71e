//! The headings of a content document, in order, for its table of contents.

use vstd::prelude::*;

use crate::eval_content_document_mdast::content_html_all;
use crate::eval_content_document_mdast::render_content_document_children;
use crate::eval_content_document_mdast::RenderError;
use crate::mdast::heading_id;
use crate::mdast::mdast_children_to_heading_id;
use crate::mdast::MdNode;

verus! {

/// One entry of a table of contents.
#[derive(Clone, Debug)]
pub struct Heading {
    /// The heading's content, rendered to HTML.
    pub content: String,
    pub depth: i64,
    /// The heading's id (the slug of its text).
    pub id: String,
}

/// The headings of a document.
#[derive(Clone, Debug)]
pub struct TableOfContents {
    pub headings: Vec<Heading>,
}

/// A heading as content, depth and id.
pub open spec fn heading_view(h: Heading) -> (Seq<char>, int, Seq<char>) {
    (h.content@, h.depth as int, h.id@)
}

/// The headings found under a node, or the first rendering error. Headings
/// are not looked for inside headings, nor inside nodes that cannot hold
/// block content (code, html, images, ...).
pub open spec fn headings_in(node: MdNode) -> Result<Seq<(Seq<char>, int, Seq<char>)>, Seq<char>>
    decreases node,
{
    match node {
        MdNode::Heading { children, depth } => match content_html_all(children@) {
            Ok(content) => Ok(seq![(content, depth as int, heading_id(children@))]),
            Err(e) => Err(e),
        },
        MdNode::Blockquote(c) => headings_in_all(c@),
        MdNode::Delete(c) => headings_in_all(c@),
        MdNode::Emphasis(c) => headings_in_all(c@),
        MdNode::Link { children, .. } => headings_in_all(children@),
        MdNode::List { children, .. } => headings_in_all(children@),
        MdNode::ListItem(c) => headings_in_all(c@),
        MdNode::MdxJsxFlowElement { children, .. } => headings_in_all(children@),
        MdNode::MdxJsxTextElement { children, .. } => headings_in_all(children@),
        MdNode::Paragraph(c) => headings_in_all(c@),
        MdNode::Root(c) => headings_in_all(c@),
        MdNode::Strong(c) => headings_in_all(c@),
        MdNode::Table(c) => headings_in_all(c@),
        MdNode::TableCell(c) => headings_in_all(c@),
        MdNode::TableRow(c) => headings_in_all(c@),
        _ => Ok(Seq::empty()),
    }
}

/// The headings found under each of `nodes`, one after another.
pub open spec fn headings_in_all(nodes: Seq<MdNode>) -> Result<
    Seq<(Seq<char>, int, Seq<char>)>,
    Seq<char>,
>
    decreases nodes,
{
    if nodes.len() == 0 {
        Ok(Seq::empty())
    } else {
        match headings_in_all(nodes.drop_last()) {
            Ok(s) => match headings_in(nodes.last()) {
                Ok(t) => Ok(s + t),
                Err(e) => Err(e),
            },
            Err(e) => Err(e),
        }
    }
}

/// The headings that a search of `node` meets before its first rendering
/// error, or all of them where there is none.
pub open spec fn headings_found(node: MdNode) -> Seq<(Seq<char>, int, Seq<char>)>
    decreases node,
{
    match node {
        MdNode::Heading { children, depth } => match content_html_all(children@) {
            Ok(content) => seq![(content, depth as int, heading_id(children@))],
            Err(_) => Seq::empty(),
        },
        MdNode::Blockquote(c) => headings_found_all(c@),
        MdNode::Delete(c) => headings_found_all(c@),
        MdNode::Emphasis(c) => headings_found_all(c@),
        MdNode::Link { children, .. } => headings_found_all(children@),
        MdNode::List { children, .. } => headings_found_all(children@),
        MdNode::ListItem(c) => headings_found_all(c@),
        MdNode::MdxJsxFlowElement { children, .. } => headings_found_all(children@),
        MdNode::MdxJsxTextElement { children, .. } => headings_found_all(children@),
        MdNode::Paragraph(c) => headings_found_all(c@),
        MdNode::Root(c) => headings_found_all(c@),
        MdNode::Strong(c) => headings_found_all(c@),
        MdNode::Table(c) => headings_found_all(c@),
        MdNode::TableCell(c) => headings_found_all(c@),
        MdNode::TableRow(c) => headings_found_all(c@),
        _ => Seq::empty(),
    }
}

/// The headings that a search of `nodes`, one after another, meets before
/// the first rendering error, or all of them where there is none.
pub open spec fn headings_found_all(nodes: Seq<MdNode>) -> Seq<(Seq<char>, int, Seq<char>)>
    decreases nodes,
{
    if nodes.len() == 0 {
        Seq::empty()
    } else {
        match headings_in_all(nodes.drop_last()) {
            Ok(_) => headings_found_all(nodes.drop_last()) + headings_found(nodes.last()),
            Err(_) => headings_found_all(nodes.drop_last()),
        }
    }
}

/// What `find_headings_in_mdast` leaves in `headings`: the headings it had,
/// then those found; on an error, the error, and the headings it had, then
/// those met before the error.
pub open spec fn headings_after(
    before: Seq<Heading>,
    after: Seq<Heading>,
    r: Result<(), RenderError>,
    found: Result<Seq<(Seq<char>, int, Seq<char>)>, Seq<char>>,
    met: Seq<(Seq<char>, int, Seq<char>)>,
) -> bool {
    match (r, found) {
        (Ok(()), Ok(hs)) => after.map_values(|h: Heading| heading_view(h)) == before.map_values(
            |h: Heading| heading_view(h),
        ) + hs,
        (Err(e), Err(m)) => e.message@ == m && after.map_values(|h: Heading| heading_view(h))
            == before.map_values(|h: Heading| heading_view(h)) + met,
        _ => false,
    }
}

/// Appends the headings found under `node` to `headings`.
pub fn find_headings_in_mdast(node: &MdNode, headings: &mut Vec<Heading>) -> (r: Result<
    (),
    RenderError,
>)
    ensures
        headings_after(old(headings)@, final(headings)@, r, headings_in(*node), headings_found(*node)),
        headings_in(*node) matches Ok(hs) ==> headings_found(*node) == hs,
    decreases node, 1nat,
{
    match node {
        MdNode::Heading { children, depth } => {
            let content = match render_content_document_children(children) {
                Ok(content) => content,
                Err(e) => {
                    assert(headings@.map_values(|h: Heading| heading_view(h)) =~= headings@.map_values(
                        |h: Heading| heading_view(h),
                    ) + Seq::<(Seq<char>, int, Seq<char>)>::empty());
                    return Err(e);
                },
            };
            let id = mdast_children_to_heading_id(children);
            let ghost before = headings@;
            headings.push(Heading { content, depth: *depth as i64, id });
            assert(headings@.map_values(|h: Heading| heading_view(h)) =~= before.map_values(
                |h: Heading| heading_view(h),
            ) + seq![(content@, *depth as int, heading_id(children@))]);
            Ok(())
        },
        MdNode::Blockquote(c)
        | MdNode::Delete(c)
        | MdNode::Emphasis(c)
        | MdNode::ListItem(c)
        | MdNode::Paragraph(c)
        | MdNode::Root(c)
        | MdNode::Strong(c)
        | MdNode::Table(c)
        | MdNode::TableCell(c)
        | MdNode::TableRow(c) => find_headings_in_all(c, headings),
        MdNode::Link { children, .. } => find_headings_in_all(children, headings),
        MdNode::List { children, .. } => find_headings_in_all(children, headings),
        MdNode::MdxJsxFlowElement { children, .. } => find_headings_in_all(children, headings),
        MdNode::MdxJsxTextElement { children, .. } => find_headings_in_all(children, headings),
        _ => {
            assert(headings@.map_values(|h: Heading| heading_view(h)) =~= headings@.map_values(
                |h: Heading| heading_view(h),
            ) + Seq::<(Seq<char>, int, Seq<char>)>::empty());
            Ok(())
        },
    }
}

/// Appends the headings found under each of `nodes` to `headings`.
fn find_headings_in_all(nodes: &Vec<MdNode>, headings: &mut Vec<Heading>) -> (r: Result<
    (),
    RenderError,
>)
    ensures
        headings_after(
            old(headings)@,
            final(headings)@,
            r,
            headings_in_all(nodes@),
            headings_found_all(nodes@),
        ),
        headings_in_all(nodes@) matches Ok(hs) ==> headings_found_all(nodes@) == hs,
    decreases nodes, 0nat,
{
    let ghost start = headings@.map_values(|h: Heading| heading_view(h));
    let mut i: usize = 0;
    while i < nodes.len()
        invariant
            i <= nodes.len(),
            headings_in_all(nodes@.take(i as int)) matches Ok(hs) && headings@.map_values(
                |h: Heading| heading_view(h),
            ) == start + hs && headings_found_all(nodes@.take(i as int)) == hs,
            start == old(headings)@.map_values(|h: Heading| heading_view(h)),
        decreases nodes.len() - i,
    {
        assert(nodes@.take(i + 1).drop_last() =~= nodes@.take(i as int));
        assert(nodes@.take(i + 1).last() == nodes@[i as int]);
        let ghost so_far = headings@.map_values(|h: Heading| heading_view(h));
        match find_headings_in_mdast(&nodes[i], headings) {
            Ok(()) => {},
            Err(e) => {
                proof {
                    lemma_first_error_stays(nodes@, i as int);
                    assert(headings_found_all(nodes@.take(i + 1)) == headings_found_all(
                        nodes@.take(i as int),
                    ) + headings_found(nodes@[i as int]));
                    assert(headings@.map_values(|h: Heading| heading_view(h)) =~= start
                        + headings_found_all(nodes@));
                }
                return Err(e);
            },
        }
        i = i + 1;
    }
    assert(nodes@.take(nodes.len() as int) =~= nodes@);
    Ok(())
}

proof fn lemma_first_error_stays(nodes: Seq<MdNode>, i: int)
    requires
        0 <= i < nodes.len(),
        headings_in_all(nodes.take(i + 1)) is Err,
    ensures
        headings_in_all(nodes) == headings_in_all(nodes.take(i + 1)),
        headings_found_all(nodes) == headings_found_all(nodes.take(i + 1)),
    decreases nodes.len(),
{
    if nodes.len() > i + 1 {
        assert(nodes.drop_last().take(i + 1) =~= nodes.take(i + 1));
        lemma_first_error_stays(nodes.drop_last(), i);
    } else {
        assert(nodes.take(i + 1) =~= nodes);
    }
}

/// The table of contents of a document: its headings, in order.
pub fn find_table_of_contents_in_mdast(node: &MdNode) -> (r: Result<TableOfContents, RenderError>)
    ensures
        match (r, headings_in(*node)) {
            (Ok(toc), Ok(hs)) => toc.headings@.map_values(|h: Heading| heading_view(h)) == hs,
            (Err(e), Err(m)) => e.message@ == m,
            _ => false,
        },
{
    let mut headings: Vec<Heading> = Vec::new();
    find_headings_in_mdast(node, &mut headings)?;
    assert(Seq::<Heading>::empty().map_values(|h: Heading| heading_view(h)) =~= Seq::<
        (Seq<char>, int, Seq<char>),
    >::empty());
    proof {
        if let Ok(hs) = headings_in(*node) {
            assert(Seq::<(Seq<char>, int, Seq<char>)>::empty() + hs =~= hs);
        }
    }
    Ok(TableOfContents { headings })
}

} // verus!
