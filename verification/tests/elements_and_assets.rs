use poet::eval_mdx_element::eval_mdx_element;
use poet::eval_mdx_element::MdxElement;
use poet::eval_mdx_element::MdxElementError;
use poet::external_asset::ExternalAsset;
use poet::is_image_path::is_image_path;
use poet::mdast::MdNode;
use poet::mdast::MdxAttribute;
use poet::mdast::MdxAttributeValue;
use poet::mdast::PropValue;

fn literal_attribute(name: &str, value: &str) -> MdxAttribute {
    MdxAttribute::Property {
        name: name.to_string(),
        value: Some(MdxAttributeValue::Literal(value.to_string())),
    }
}

fn html(result: Result<MdxElement, MdxElementError>) -> String {
    match result {
        Ok(MdxElement::Html(html)) => html,
        Ok(other) => panic!("expected HTML, got {other:?}"),
        Err(e) => panic!("expected HTML, got {e:?}"),
    }
}

#[test]
fn renders_non_component_element_with_literal_and_boolean_attributes() {
    let rendered = html(eval_mdx_element(
        &vec![
            literal_attribute("class", "highlight"),
            MdxAttribute::Property {
                name: "hidden".to_string(),
                value: None,
            },
        ],
        &vec![],
        String::new(),
        &Some("div".to_string()),
    ));

    assert!(rendered.contains("<div "));
    assert!(rendered.contains("class=\"highlight\""));
    assert!(rendered.contains("hidden"));
    assert!(rendered.contains("</div>"));
    assert_eq!(rendered, "<div class=\"highlight\" hidden ></div>");
}

#[test]
fn errors_when_void_element_has_children() {
    let result = eval_mdx_element(
        &vec![],
        &vec![MdNode::Text("child".to_string())],
        "child".to_string(),
        &Some("br".to_string()),
    );

    assert!(matches!(result, Err(MdxElementError::VoidElementWithChildren)));
}

#[test]
fn errors_on_attribute_expression() {
    let result = eval_mdx_element(
        &vec![MdxAttribute::Expression("spread".to_string())],
        &vec![],
        String::new(),
        &Some("div".to_string()),
    );

    assert!(matches!(result, Err(MdxElementError::AttributeExpression)));
}

#[test]
fn errors_when_element_has_no_name() {
    let result = eval_mdx_element(&vec![], &vec![], String::new(), &None);

    assert!(matches!(result, Err(MdxElementError::MissingName)));
}

#[test]
fn renders_attribute_with_evaluated_expression_value() {
    let rendered = html(eval_mdx_element(
        &vec![MdxAttribute::Property {
            name: "data-label".to_string(),
            value: Some(MdxAttributeValue::Expression {
                value: "\"hi\"".to_string(),
                evaluated: Ok(PropValue::Text("hi".to_string())),
            }),
        }],
        &vec![],
        String::new(),
        &Some("div".to_string()),
    ));

    assert!(rendered.contains("data-label=\"hi\""));
}

#[test]
fn void_element_without_children_has_no_closing_tag() {
    let rendered = html(eval_mdx_element(
        &vec![literal_attribute("src", "a.png")],
        &vec![],
        String::new(),
        &Some("img".to_string()),
    ));

    assert_eq!(rendered, "<img src=\"a.png\" >");
}

#[test]
fn attributes_are_written_in_name_order_and_the_last_of_a_name_wins() {
    let rendered = html(eval_mdx_element(
        &vec![
            literal_attribute("title", "first"),
            literal_attribute("alt", "a \"quoted\" & odd"),
            literal_attribute("title", "second"),
        ],
        &vec![MdNode::Text("inner".to_string())],
        "inner".to_string(),
        &Some("span".to_string()),
    ));

    assert_eq!(
        rendered,
        "<span alt=\"a &quot;quoted&quot; & odd\" title=\"second\" >inner</span>"
    );
}

#[test]
fn capitalised_element_is_a_component_with_sorted_props() {
    let result = eval_mdx_element(
        &vec![
            literal_attribute("size", "large"),
            MdxAttribute::Property {
                name: "disabled".to_string(),
                value: Some(MdxAttributeValue::Expression {
                    value: "false".to_string(),
                    evaluated: Ok(PropValue::Bool(false)),
                }),
            },
        ],
        &vec![MdNode::Text("Click".to_string())],
        "Click".to_string(),
        &Some("Button".to_string()),
    );

    match result {
        Ok(MdxElement::Component {
            name,
            props,
            children,
        }) => {
            assert_eq!(name, "Button");
            assert_eq!(children, "Click");
            assert_eq!(props.len(), 2);
            assert_eq!(props[0].0, "disabled");
            assert!(matches!(props[0].1, PropValue::Bool(false)));
            assert_eq!(props[1].0, "size");
            assert!(matches!(&props[1].1, PropValue::Text(t) if t == "large"));
        }
        other => panic!("expected a component, got {other:?}"),
    }
}

#[test]
fn failing_attribute_expression_is_reported() {
    let result = eval_mdx_element(
        &vec![MdxAttribute::Property {
            name: "x".to_string(),
            value: Some(MdxAttributeValue::Expression {
                value: "nope()".to_string(),
                evaluated: Err("Function not found: nope".to_string()),
            }),
        }],
        &vec![],
        String::new(),
        &Some("div".to_string()),
    );

    match result {
        Err(MdxElementError::Expression { message }) => {
            assert_eq!(message, "Function not found: nope")
        }
        other => panic!("expected an expression error, got {other:?}"),
    }
}

#[test]
fn script_renders_async_defer_tag() {
    let asset =
        ExternalAsset::Script("https://challenges.cloudflare.com/turnstile/v0/api.js".to_string());

    assert_eq!(
        asset.render(asset.url()),
        "<script src=\"https://challenges.cloudflare.com/turnstile/v0/api.js\" async defer></script>",
    );
}

#[test]
fn script_escapes_url_in_attribute() {
    let asset = ExternalAsset::Script("https://example.com/script.js?foo=1&bar=\"test\"".to_string());

    assert_eq!(
        asset.render(asset.url()),
        "<script src=\"https://example.com/script.js?foo=1&bar=&quot;test&quot;\" async defer></script>",
    );
}

#[test]
fn stylesheet_renders_link_tag() {
    let asset =
        ExternalAsset::Stylesheet("https://fonts.googleapis.com/css2?family=Inter".to_string());

    assert_eq!(
        asset.render(asset.url()),
        "<link rel=\"stylesheet\" href=\"https://fonts.googleapis.com/css2?family=Inter\">",
    );
}

#[test]
fn detects_image_extension() {
    assert!(is_image_path("favicon_MWST2DE3.svg"));
}

#[test]
fn rejects_non_image_extension() {
    assert!(!is_image_path("chunk-Q4UAENVW.js"));
}

#[test]
fn image_detection_without_extension() {
    assert!(!is_image_path("README"));
    assert!(is_image_path("photo.PNG"));
}
