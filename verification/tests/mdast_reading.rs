use poet::find_table_of_contents_in_mdast::find_table_of_contents_in_mdast;
use poet::find_table_of_contents_in_mdast::TableOfContents;
use poet::mdast::find_front_matter_in_mdast;
use poet::mdast::find_text_content_in_mdast;
use poet::mdast::mdast_children_to_heading_id;
use poet::mdast::mdast_to_index_entries;
use poet::mdast::IndexField;
use poet::mdast::MdNode;

fn text(value: &str) -> MdNode {
    MdNode::Text(value.to_string())
}

fn text_nodes(values: &[&str]) -> Vec<MdNode> {
    values.iter().map(|value| text(value)).collect()
}

fn first_in(entries: &[(IndexField, String)], field: IndexField) -> Option<String> {
    entries
        .iter()
        .find(|(f, _)| *f == field)
        .map(|(_, text)| text.clone())
}

#[test]
fn extracts_toml_front_matter_from_document() {
    let document = MdNode::Root(vec![
        MdNode::Toml("title = \"Hello\"".to_string()),
        MdNode::Paragraph(vec![text("Body text")]),
    ]);

    let source = find_front_matter_in_mdast(&document);
    let title = source
        .and_then(|source| source.parse::<toml::Table>().ok())
        .and_then(|table| table.get("title").and_then(|t| t.as_str()).map(|t| t.to_string()));

    assert_eq!(title, Some("Hello".to_string()));
}

#[test]
fn returns_none_when_document_has_no_front_matter() {
    let document = MdNode::Root(vec![MdNode::Paragraph(vec![text("Just body text")])]);

    assert!(find_front_matter_in_mdast(&document).is_none());
}

#[test]
fn extracts_headings_with_depth_and_id() {
    let document = MdNode::Root(vec![
        MdNode::Heading {
            children: vec![text("First Heading")],
            depth: 1,
        },
        MdNode::Paragraph(vec![text("body text")]),
        MdNode::Heading {
            children: vec![text("Second Heading")],
            depth: 2,
        },
    ]);

    let table_of_contents: TableOfContents = match find_table_of_contents_in_mdast(&document) {
        Ok(toc) => toc,
        Err(e) => panic!("{}", e.message),
    };

    assert_eq!(table_of_contents.headings.len(), 2);
    assert!(table_of_contents.headings[0].content.contains("First Heading"));
    assert_eq!(table_of_contents.headings[0].depth, 1);
    assert_eq!(table_of_contents.headings[0].id, "first-heading");
    assert_eq!(table_of_contents.headings[1].depth, 2);
    assert_eq!(table_of_contents.headings[1].id, "second-heading");
}

#[test]
fn concatenates_text_across_nested_inline_nodes() {
    let document = MdNode::Root(vec![MdNode::Paragraph(vec![
        text("Hello "),
        MdNode::Strong(vec![text("bold")]),
        text(" and "),
        MdNode::Emphasis(vec![text("italic")]),
    ])]);

    assert_eq!(find_text_content_in_mdast(&document), "Hello bold and italic");
}

#[test]
fn skips_non_text_leaf_nodes() {
    let document = MdNode::Root(vec![MdNode::Paragraph(vec![
        text("text "),
        MdNode::InlineCode("code".to_string()),
        text(" more"),
    ])]);

    assert_eq!(find_text_content_in_mdast(&document), "text  more");
}

#[test]
fn collects_text_across_block_container_nodes() {
    let document = MdNode::Root(vec![
        MdNode::Heading {
            children: vec![text("Heading text")],
            depth: 1,
        },
        MdNode::Blockquote(vec![MdNode::Paragraph(vec![text("quote text")])]),
        MdNode::List {
            children: vec![MdNode::ListItem(vec![MdNode::Paragraph(vec![text("list text")])])],
            ordered: false,
        },
        MdNode::Paragraph(vec![MdNode::Link {
            children: vec![text("link text")],
            title: None,
            url: "https://example.com".to_string(),
            resolved_href: Err("external".to_string()),
        }]),
        MdNode::Table(vec![
            MdNode::TableRow(vec![MdNode::TableCell(vec![text("cell text")])]),
            MdNode::TableRow(vec![MdNode::TableCell(vec![text("data text")])]),
        ]),
    ]);

    let text = find_text_content_in_mdast(&document);

    for fragment in [
        "Heading text",
        "quote text",
        "list text",
        "link text",
        "cell text",
        "data text",
    ] {
        assert!(text.contains(fragment), "missing fragment: {fragment}");
    }
}

#[test]
fn concatenates_child_text_before_slugifying() {
    assert_eq!(
        mdast_children_to_heading_id(&text_nodes(&["Hello ", "World"])),
        "hello-world"
    );
}

#[test]
fn routes_heading_text_to_header_and_paragraph_text_to_paragraph() {
    let document = MdNode::Root(vec![
        MdNode::Heading {
            children: vec![text("Title")],
            depth: 1,
        },
        MdNode::Paragraph(vec![text("Body paragraph")]),
    ]);

    let entries = mdast_to_index_entries(&document);

    assert_eq!(first_in(&entries, IndexField::Header), Some("Title".to_string()));
    assert_eq!(
        first_in(&entries, IndexField::Paragraph),
        Some("Body paragraph".to_string())
    );
}

#[test]
fn does_not_index_text_outside_heading_or_paragraph() {
    let document = MdNode::Root(vec![text("loose")]);

    let entries = mdast_to_index_entries(&document);

    assert_eq!(first_in(&entries, IndexField::Header), None);
    assert_eq!(first_in(&entries, IndexField::Paragraph), None);
}

#[test]
fn heading_id_is_empty_for_text_without_letters() {
    assert_eq!(mdast_children_to_heading_id(&text_nodes(&["!!!"])), "");
}
