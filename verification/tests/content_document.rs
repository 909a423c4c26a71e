use poet::find_table_of_contents_in_mdast::find_headings_in_mdast;
use poet::highlight::highlight_code;
use poet::eval_content_document_mdast::eval_content_document_children;
use poet::eval_content_document_mdast::eval_content_document_mdast;
use poet::eval_content_document_mdast::render_content_document_mdast;
use poet::eval_content_document_mdast::usize_to_decimal;
use poet::eval_content_document_mdast::RenderError;
use poet::mdast::MdNode;
use poet::mdast::MetadataLineItem;
use syntect::parsing::SyntaxDefinition;
use syntect::parsing::SyntaxSet;
use syntect::parsing::SyntaxSetBuilder;

fn text(value: &str) -> MdNode {
    MdNode::Text(value.to_string())
}

fn paragraph(children: Vec<MdNode>) -> MdNode {
    MdNode::Paragraph(children)
}

fn root(children: Vec<MdNode>) -> MdNode {
    MdNode::Root(children)
}

fn single_token_syntax_set() -> SyntaxSet {
    let definition = SyntaxDefinition::load_from_str(
        "%YAML 1.2\n---\nname: Demo\nfile_extensions: [demo]\nscope: source.demo\ncontexts:\n  main:\n    - match: '\\bfn\\b'\n      scope: keyword.demo\n",
        true,
        None,
    )
    .expect("a syntax definition");
    let mut builder = SyntaxSetBuilder::new();

    builder.add(definition);

    builder.build()
}

fn render_with_syntax_set(document: MdNode, syntax_set: &SyntaxSet) -> Result<String, RenderError> {
    eval_content_document_mdast(document, syntax_set)
}

fn render(document: MdNode) -> Result<String, RenderError> {
    render_with_syntax_set(document, &SyntaxSet::new())
}

fn code(lang: Option<&str>, meta: Option<&str>, value: &str) -> MdNode {
    MdNode::Code {
        lang: lang.map(|l| l.to_string()),
        meta: meta.map(|m| m.to_string()),
        value: value.to_string(),
        meta_items: Ok(Vec::new()),
        highlighted: None,
    }
}

fn link(label: &str, url: &str, title: Option<&str>, resolved: Result<&str, &str>) -> MdNode {
    MdNode::Link {
        children: vec![text(label)],
        title: title.map(|t| t.to_string()),
        url: url.to_string(),
        resolved_href: resolved.map(|r| r.to_string()).map_err(|e| e.to_string()),
    }
}

fn image(alt: &str, url: &str, title: Option<&str>, resolved: Result<&str, &str>) -> MdNode {
    MdNode::Image {
        alt: alt.to_string(),
        url: url.to_string(),
        title: title.map(|t| t.to_string()),
        resolved_src: resolved.map(|r| r.to_string()).map_err(|e| e.to_string()),
    }
}

fn list(ordered: bool, items: &[&str]) -> MdNode {
    MdNode::List {
        children: items
            .iter()
            .map(|item| MdNode::ListItem(vec![paragraph(vec![text(item)])]))
            .collect(),
        ordered,
    }
}

fn cell(value: &str) -> MdNode {
    MdNode::TableCell(vec![text(value)])
}

#[test]
fn renders_heading_with_generated_id() -> Result<(), RenderError> {
    let document = root(vec![MdNode::Heading {
        children: vec![text("Hello World")],
        depth: 2,
    }]);

    assert_eq!(render(document)?, "<h2 id=\"hello-world\">Hello World</h2>");

    Ok(())
}

#[test]
fn renders_paragraph_with_emphasis_and_strong() -> Result<(), RenderError> {
    let document = root(vec![paragraph(vec![
        MdNode::Emphasis(vec![text("one")]),
        text(" "),
        MdNode::Strong(vec![text("two")]),
    ])]);

    assert_eq!(
        render(document)?,
        "<p><em>one</em> <strong>two</strong></p>"
    );

    Ok(())
}

#[test]
fn renders_inline_code() -> Result<(), RenderError> {
    let document = root(vec![paragraph(vec![MdNode::InlineCode(
        "let x = 1".to_string(),
    )])]);

    assert_eq!(render(document)?, "<p><code>let x = 1</code></p>");

    Ok(())
}

#[test]
fn renders_strikethrough() -> Result<(), RenderError> {
    let document = root(vec![paragraph(vec![MdNode::Delete(vec![text("gone")])])]);

    assert_eq!(render(document)?, "<p><del>gone</del></p>");

    Ok(())
}

#[test]
fn renders_blockquote() -> Result<(), RenderError> {
    let document = root(vec![MdNode::Blockquote(vec![paragraph(vec![text("quoted")])])]);

    assert_eq!(
        render(document)?,
        "<blockquote><p>quoted</p></blockquote>"
    );

    Ok(())
}

#[test]
fn renders_unordered_list() -> Result<(), RenderError> {
    let rendered = render(root(vec![list(false, &["first", "second"])]))?;

    assert!(rendered.starts_with("<ul>"));
    assert!(rendered.ends_with("</ul>"));
    assert!(rendered.contains("first"));
    assert!(rendered.contains("second"));

    Ok(())
}

#[test]
fn renders_ordered_list() -> Result<(), RenderError> {
    let rendered = render(root(vec![list(true, &["first", "second"])]))?;

    assert!(rendered.starts_with("<ol>"));
    assert!(rendered.ends_with("</ol>"));

    Ok(())
}

#[test]
fn renders_thematic_break() -> Result<(), RenderError> {
    assert_eq!(render(root(vec![MdNode::ThematicBreak]))?, "<hr>");

    Ok(())
}

#[test]
fn renders_table() -> Result<(), RenderError> {
    let document = root(vec![MdNode::Table(vec![
        MdNode::TableRow(vec![cell("H1"), cell("H2")]),
        MdNode::TableRow(vec![cell("a"), cell("b")]),
    ])]);
    let rendered = render(document)?;

    assert!(rendered.starts_with("<table>"));
    assert!(rendered.ends_with("</table>"));
    assert!(rendered.contains("<tr><td>H1</td><td>H2</td></tr>"));
    assert!(rendered.contains("<tr><td>a</td><td>b</td></tr>"));

    Ok(())
}

#[test]
fn highlights_code_block_for_known_language() -> Result<(), RenderError> {
    let document = root(vec![code(Some("demo"), None, "fn main")]);
    let rendered = render_with_syntax_set(document, &single_token_syntax_set())?;

    assert!(rendered.starts_with("<pre class=\"code language-demo\" data-lang=\"demo\"><code>"));
    assert!(rendered.contains("<span"));
    assert!(rendered.ends_with("</code></pre>"));

    Ok(())
}

#[test]
fn escapes_code_block_for_unknown_language() -> Result<(), RenderError> {
    let rendered = render(root(vec![code(Some("nosuchlang"), None, "a < b")]))?;

    assert!(rendered.contains("language-nosuchlang"));
    assert!(!rendered.contains("<span"));
    assert!(rendered.contains("a &lt; b"));

    Ok(())
}

#[test]
fn escapes_code_block_without_language() -> Result<(), RenderError> {
    let rendered = render(root(vec![code(None, None, "a < b")]))?;

    assert!(rendered.starts_with("<pre class=\"code\"><code>"));
    assert!(rendered.contains("a &lt; b"));
    assert!(rendered.ends_with("</code></pre>"));

    Ok(())
}

#[test]
fn renders_external_link_with_title() -> Result<(), RenderError> {
    let document = root(vec![paragraph(vec![link(
        "label",
        "https://example.com",
        Some("Tooltip"),
        Err("not resolved"),
    )])]);

    assert_eq!(
        render(document)?,
        "<p><a href=\"https://example.com\" title=\"Tooltip\">label</a></p>"
    );

    Ok(())
}

#[test]
fn resolves_internal_link_through_linker() -> Result<(), RenderError> {
    let document = root(vec![paragraph(vec![link("label", "guide", None, Ok("/guide/"))])]);

    assert_eq!(render(document)?, "<p><a href=\"/guide/\">label</a></p>");

    Ok(())
}

#[test]
fn fails_internal_link_to_missing_document() {
    let document = root(vec![paragraph(vec![link(
        "label",
        "ghost",
        None,
        Err("Document not found: ghost"),
    )])]);

    assert!(render(document).is_err());
}

#[test]
fn renders_external_image() -> Result<(), RenderError> {
    let document = root(vec![paragraph(vec![image(
        "photo",
        "https://example.com/p.png",
        None,
        Err("not resolved"),
    )])]);

    assert_eq!(
        render(document)?,
        "<p><img alt=\"photo\" src=\"https://example.com/p.png\"></p>"
    );

    Ok(())
}

#[test]
fn resolves_internal_image_through_asset_manager() -> Result<(), RenderError> {
    let document = root(vec![paragraph(vec![image(
        "logo",
        "logo.png",
        None,
        Ok("/static/logo_ABCDEF12.png"),
    )])]);

    assert_eq!(
        render(document)?,
        "<p><img alt=\"logo\" src=\"/static/logo_ABCDEF12.png\"></p>"
    );

    Ok(())
}

#[test]
fn fails_internal_image_for_missing_asset() {
    let document = root(vec![paragraph(vec![image(
        "logo",
        "missing.png",
        None,
        Err("Asset not found: missing.png"),
    )])]);

    assert!(render(document).is_err());
}

#[test]
fn skips_unsupported_math_node() -> Result<(), RenderError> {
    assert_eq!(render(root(vec![MdNode::Math]))?, "");

    Ok(())
}

#[test]
fn renders_hard_break() -> Result<(), RenderError> {
    let document = root(vec![paragraph(vec![text("first"), MdNode::Break, text("second")])]);

    assert!(render(document)?.contains("<br>"));

    Ok(())
}

#[test]
fn renders_code_block_metadata_flags_and_pairs() -> Result<(), RenderError> {
    let document = root(vec![MdNode::Code {
        lang: Some("text".to_string()),
        meta: Some("highlighted label:foo".to_string()),
        value: "code".to_string(),
        meta_items: Ok(vec![
            MetadataLineItem::Flag {
                name: "highlighted".to_string(),
            },
            MetadataLineItem::Pair {
                name: "label".to_string(),
                value: "foo".to_string(),
            },
        ]),
        highlighted: None,
    }]);
    let rendered = render(document)?;

    assert!(rendered.contains(r#"data-meta-line="highlighted label:foo""#));
    assert!(rendered.contains(" highlighted"));
    assert!(rendered.contains(r#"data-meta-label="foo""#));

    Ok(())
}

#[test]
fn fails_on_invalid_code_block_metadata() {
    let document = root(vec![MdNode::Code {
        lang: Some("text".to_string()),
        meta: Some("bad:\"unterminated".to_string()),
        value: "code".to_string(),
        meta_items: Err("Unterminated quoted value".to_string()),
        highlighted: None,
    }]);

    assert!(render(document).is_err());
}

#[test]
fn renders_external_image_with_title() -> Result<(), RenderError> {
    let document = root(vec![paragraph(vec![image(
        "photo",
        "https://example.com/p.png",
        Some("Caption"),
        Err("not resolved"),
    )])]);

    assert_eq!(
        render(document)?,
        "<p><img alt=\"photo\" src=\"https://example.com/p.png\" title=\"Caption\"></p>"
    );

    Ok(())
}

#[test]
fn renders_footnote_reference() -> Result<(), RenderError> {
    let document = root(vec![
        paragraph(vec![
            text("note"),
            MdNode::FootnoteReference {
                identifier: "a".to_string(),
                label: Some("a".to_string()),
            },
        ]),
        MdNode::FootnoteDefinition,
    ]);
    let rendered = render(document)?;

    assert!(rendered.contains(r##"href="#footnote-a""##));
    assert!(rendered.contains(r#"role="doc-noteref""#));

    Ok(())
}

#[test]
fn internal_link_error_is_reported_as_resolved() {
    let document = root(vec![paragraph(vec![link("label", "ghost", None, Err("no such page"))])]);

    match render(document) {
        Err(e) => assert_eq!(e.message, "no such page"),
        Ok(html) => panic!("expected an error, rendered {html}"),
    }
}

#[test]
fn heading_depth_and_quoted_id_are_written() -> Result<(), RenderError> {
    let document = root(vec![MdNode::Heading {
        children: vec![text("Say \"Hi\"")],
        depth: 3,
    }]);

    assert_eq!(render(document)?, "<h3 id=\"say-hi\">Say \"Hi\"</h3>");

    Ok(())
}

#[test]
fn decimal_digits_of_numbers() {
    assert_eq!(usize_to_decimal(0), "0");
    assert_eq!(usize_to_decimal(7), "7");
    assert_eq!(usize_to_decimal(1204), "1204");
}

#[test]
fn carried_highlighting_is_rendered_as_given() -> Result<(), RenderError> {
    let document = root(vec![MdNode::Code {
        lang: Some("demo".to_string()),
        meta: None,
        value: "fn main".to_string(),
        meta_items: Ok(Vec::new()),
        highlighted: Some(Ok("<span class=\"keyword demo\">fn</span> main".to_string())),
    }]);

    assert_eq!(
        render_content_document_mdast(&document)?,
        "<pre class=\"code language-demo\" data-lang=\"demo\"><code><span class=\"keyword demo\">fn</span> main</code></pre>"
    );

    Ok(())
}

#[test]
fn failed_highlighting_fails_the_document() {
    let document = root(vec![MdNode::Code {
        lang: Some("demo".to_string()),
        meta: None,
        value: "fn main".to_string(),
        meta_items: Ok(Vec::new()),
        highlighted: Some(Err("regex failed".to_string())),
    }]);

    match render_content_document_mdast(&document) {
        Err(e) => assert_eq!(e.message, "regex failed"),
        Ok(html) => panic!("rendered {html}"),
    }
}

#[test]
fn highlighting_keeps_the_code_text() -> Result<(), RenderError> {
    let rendered = eval_content_document_children(
        vec![code(Some("demo"), None, "fn main\nlet x\n")],
        &single_token_syntax_set(),
    )?;

    assert!(rendered.contains("fn</span>"));
    assert!(rendered.contains("main"));
    assert!(rendered.contains("let x"));

    Ok(())
}

#[test]
fn html_element_is_written_with_its_rendered_children() -> Result<(), RenderError> {
    let document = root(vec![MdNode::MdxJsxFlowElement {
        attributes: vec![poet::mdast::MdxAttribute::Property {
            name: "class".to_string(),
            value: Some(poet::mdast::MdxAttributeValue::Literal("note".to_string())),
        }],
        children: vec![paragraph(vec![MdNode::Emphasis(vec![text("careful")])])],
        name: Some("aside".to_string()),
        rendered: Err("not a component".to_string()),
    }]);

    assert_eq!(
        render(document)?,
        "<aside class=\"note\" ><p><em>careful</em></p></aside>"
    );

    Ok(())
}

#[test]
fn component_element_is_what_the_host_rendered() -> Result<(), RenderError> {
    let document = root(vec![MdNode::MdxJsxTextElement {
        attributes: vec![],
        children: vec![],
        name: Some("Badge".to_string()),
        rendered: Ok("<span class=\"badge\"></span>".to_string()),
    }]);

    assert_eq!(render(document)?, "<span class=\"badge\"></span>");

    Ok(())
}

#[test]
fn void_element_with_children_fails_the_document() {
    let document = root(vec![MdNode::MdxJsxFlowElement {
        attributes: vec![],
        children: vec![text("x")],
        name: Some("br".to_string()),
        rendered: Err("not a component".to_string()),
    }]);

    match render(document) {
        Err(e) => assert_eq!(e.message, "Void element cannot have children"),
        Ok(html) => panic!("rendered {html}"),
    }
}

#[test]
fn highlight_code_finds_the_syntax_by_extension_ignoring_case() {
    let syntax_set = single_token_syntax_set();

    match highlight_code(&syntax_set, "DEMO", "fn main\n") {
        Some(Ok(html)) => {
            assert!(html.contains("<span class=\"keyword demo\">fn</span>"));
            assert!(html.contains(" main"));
            assert_ne!(html, "fn main\n");
        }
        other => panic!("unexpected {other:?}"),
    }
    assert!(highlight_code(&syntax_set, "nosuchlang", "fn main\n").is_none());
}

#[test]
fn failed_heading_keeps_the_headings_found_before_it() {
    let document = root(vec![
        MdNode::Heading {
            children: vec![text("First")],
            depth: 1,
        },
        MdNode::Heading {
            children: vec![MdNode::Code {
                lang: Some("demo".to_string()),
                meta: None,
                value: "fn main".to_string(),
                meta_items: Ok(Vec::new()),
                highlighted: Some(Err("regex failed".to_string())),
            }],
            depth: 2,
        },
        MdNode::Heading {
            children: vec![text("Third")],
            depth: 2,
        },
    ]);
    let mut headings = Vec::new();

    match find_headings_in_mdast(&document, &mut headings) {
        Err(e) => assert_eq!(e.message, "regex failed"),
        Ok(()) => panic!("expected the second heading to fail"),
    }
    assert_eq!(headings.len(), 1);
    assert_eq!(headings[0].content, "First");
    assert_eq!(headings[0].depth, 1);
    assert_eq!(headings[0].id, "first");
}

#[test]
fn container_nodes_wrap_what_their_children_render_to() -> Result<(), RenderError> {
    let children = || vec![text("a "), MdNode::Strong(vec![text("b")])];
    let inner = eval_content_document_children(children(), &SyntaxSet::new())?;

    assert_eq!(inner, "a <strong>b</strong>");
    assert_eq!(render(paragraph(children()))?, format!("<p>{inner}</p>"));
    assert_eq!(render(MdNode::Blockquote(children()))?, format!("<blockquote>{inner}</blockquote>"));
    assert_eq!(render(MdNode::TableCell(children()))?, format!("<td>{inner}</td>"));
    assert_eq!(
        render(MdNode::List {
            children: children(),
            ordered: true,
        })?,
        format!("<ol>{inner}</ol>")
    );

    Ok(())
}
