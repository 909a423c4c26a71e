//! An MDX element of a document: its properties are collected, an element
//! named like a component is handed on to be rendered as that component, and
//! any other is written out as HTML.

use vstd::prelude::*;

use rhai_components::component_syntax::tag_name::TagName;

use crate::escape::escape_html_attribute;
use crate::escape::escaped_attribute;
use crate::mcp::name_index::entries_map;
use crate::mcp::name_index::lemma_sorted_determined_by_map;
use crate::mcp::name_index::sorted_by_name;
use crate::mcp::name_index::NameIndex;
use crate::mdast::MdNode;
use crate::mdast::MdxAttribute;
use crate::mdast::MdxAttributeValue;
use crate::mdast::PropValue;
use crate::text::push_str;
use crate::text::string_from_chars;

verus! {

/// The names of HTML's void elements, which take no closing tag.
pub open spec fn void_element_names() -> Set<Seq<char>> {
    set![
        "!DOCTYPE"@,
        "area"@,
        "base"@,
        "br"@,
        "col"@,
        "embed"@,
        "hr"@,
        "img"@,
        "input"@,
        "link"@,
        "meta"@,
        "param"@,
        "source"@,
        "track"@,
        "wbr"@,
    ]
}

/// Whether a tag named `name` is a component: its first character is an
/// uppercase letter.
pub uninterp spec fn is_component_name(name: Seq<char>) -> bool;

/// `TagName::is_component` of rhai_components: whether the first character
/// of `name` is uppercase (`char::is_uppercase`). The empty name is no
/// component; a name that starts with an ASCII capital is one, and one that
/// starts with an ASCII small letter is not.
#[verifier::external_body]
fn is_component_tag(name: &str) -> (r: bool)
    ensures
        r == is_component_name(name@),
        name@.len() == 0 ==> !r,
        name@.len() > 0 && 'A' <= name@[0] && name@[0] <= 'Z' ==> r,
        name@.len() > 0 && 'a' <= name@[0] && name@[0] <= 'z' ==> !r,
{
    TagName { name: name.to_string() }.is_component()
}

/// `TagName::is_void_element` of rhai_components: whether `name` is one of
/// the void element names.
#[verifier::external_body]
fn is_void_tag(name: &str) -> (r: bool)
    ensures
        r == void_element_names().contains(name@),
{
    TagName { name: name.to_string() }.is_void_element()
}

/// Why an MDX element could not be evaluated.
#[derive(Clone, Debug)]
pub enum MdxElementError {
    /// The element has no name.
    MissingName,
    /// An attribute is a spread expression, which documents may not use.
    AttributeExpression,
    /// The expression of an attribute's value failed.
    Expression { message: String },
    /// A void element has children.
    VoidElementWithChildren,
}

/// The abstract form of an `MdxElementError`.
pub enum MdxElementFailure {
    MissingName,
    AttributeExpression,
    Expression(Seq<char>),
    VoidElementWithChildren,
}

impl View for MdxElementError {
    type V = MdxElementFailure;

    open spec fn view(&self) -> MdxElementFailure {
        match self {
            MdxElementError::MissingName => MdxElementFailure::MissingName,
            MdxElementError::AttributeExpression => MdxElementFailure::AttributeExpression,
            MdxElementError::Expression { message } => MdxElementFailure::Expression(message@),
            MdxElementError::VoidElementWithChildren => MdxElementFailure::VoidElementWithChildren,
        }
    }
}

/// The message that reports the failure `f`.
pub open spec fn failure_message(f: MdxElementFailure) -> Seq<char> {
    match f {
        MdxElementFailure::MissingName => "MdxJsxFlowElement without a name"@,
        MdxElementFailure::AttributeExpression => "Attribute expressions in Markdown are not supported"@,
        MdxElementFailure::Expression(m) => m,
        MdxElementFailure::VoidElementWithChildren => "Void element cannot have children"@,
    }
}

impl MdxElementError {
    /// The message that reports this failure.
    pub fn message(&self) -> (m: String)
        ensures
            m@ == failure_message(self@),
    {
        match self {
            MdxElementError::MissingName => String::from_str("MdxJsxFlowElement without a name"),
            MdxElementError::AttributeExpression => String::from_str(
                "Attribute expressions in Markdown are not supported",
            ),
            MdxElementError::Expression { message } => message.clone(),
            MdxElementError::VoidElementWithChildren => String::from_str(
                "Void element cannot have children",
            ),
        }
    }
}

/// What an evaluated MDX element becomes.
#[derive(Debug)]
pub enum MdxElement {
    /// A component to render, with its properties in the order of their names
    /// and its evaluated children.
    Component { name: String, props: Vec<(String, PropValue)>, children: String },
    /// The element written out as HTML.
    Html(String),
}

/// The abstract form of an `MdxElement`.
pub enum MdxElementView {
    Component { name: Seq<char>, props: Seq<(Seq<char>, PropValue)>, children: Seq<char> },
    Html(Seq<char>),
}

impl View for MdxElement {
    type V = MdxElementView;

    open spec fn view(&self) -> MdxElementView {
        match self {
            MdxElement::Component { name, props, children } => MdxElementView::Component {
                name: name@,
                props: props@.map_values(|p: (String, PropValue)| (p.0@, p.1)),
                children: children@,
            },
            MdxElement::Html(html) => MdxElementView::Html(html@),
        }
    }
}

/// The properties that `attrs` give, one after another, a later one in place
/// of an earlier one of the same name; the first attribute that cannot give
/// one stops the collection.
pub open spec fn props_of(attrs: Seq<MdxAttribute>) -> Result<Map<Seq<char>, PropValue>, MdxElementFailure>
    decreases attrs.len(),
{
    if attrs.len() == 0 {
        Ok(Map::empty())
    } else {
        match props_of(attrs.drop_last()) {
            Err(f) => Err(f),
            Ok(m) => match attrs.last() {
                MdxAttribute::Expression(_) => Err(MdxElementFailure::AttributeExpression),
                MdxAttribute::Property { name, value } => match value {
                    None => Ok(m.insert(name@, PropValue::Bool(true))),
                    Some(MdxAttributeValue::Literal(l)) => Ok(m.insert(name@, PropValue::Text(l))),
                    Some(MdxAttributeValue::Expression { evaluated, .. }) => match evaluated {
                        Ok(v) => Ok(m.insert(name@, v)),
                        Err(e) => Err(MdxElementFailure::Expression(e@)),
                    },
                },
            },
        }
    }
}

/// An attribute written without a value is the property `true`: after any
/// attributes that give properties, it sets its name to `true`, in place of
/// any earlier value, and keeps every other property; after attributes that
/// fail, it fails as they do.
pub proof fn law_flag_attribute_is_true(attrs: Seq<MdxAttribute>, name: String)
    ensures
        ({
            let flagged = attrs.push(MdxAttribute::Property { name, value: None });
            &&& props_of(attrs) matches Ok(m) ==> props_of(flagged) == Ok::<
                Map<Seq<char>, PropValue>,
                MdxElementFailure,
            >(m.insert(name@, PropValue::Bool(true)))
            &&& props_of(flagged) matches Ok(f) ==> f.contains_key(name@) && f[name@]
                == PropValue::Bool(true)
            &&& props_of(attrs) is Err ==> props_of(flagged) == props_of(attrs)
        }),
{
    let flagged = attrs.push(MdxAttribute::Property { name, value: None });
    assert(flagged.drop_last() =~= attrs);
}

/// The properties of `m` in the order of their names.
pub open spec fn sorted_props(m: Map<Seq<char>, PropValue>) -> Seq<(Seq<char>, PropValue)> {
    choose|s: Seq<(Seq<char>, PropValue)>| sorted_by_name(s) && entries_map(s) == m
}

/// One property as an HTML attribute: a boolean by its name alone, any other
/// value as `name="value"` with the value escaped; a space follows.
pub open spec fn prop_html(p: (Seq<char>, PropValue)) -> Seq<char> {
    match p.1 {
        PropValue::Bool(_) => p.0 + " "@,
        PropValue::Text(t) => p.0 + "=\""@ + escaped_attribute(t@) + "\" "@,
    }
}

/// The properties `ps` as HTML attributes, in order.
pub open spec fn props_html(ps: Seq<(Seq<char>, PropValue)>) -> Seq<char>
    decreases ps.len(),
{
    if ps.len() == 0 {
        Seq::empty()
    } else {
        props_html(ps.drop_last()) + prop_html(ps.last())
    }
}

/// An element written out as HTML: the opening tag with its attributes, the
/// children where there are any, and the closing tag unless the element is
/// void and has no children.
pub open spec fn element_html(
    name: Seq<char>,
    ps: Seq<(Seq<char>, PropValue)>,
    has_children: bool,
    children: Seq<char>,
) -> Seq<char> {
    "<"@ + name + " "@ + props_html(ps) + ">"@ + (if has_children {
        children
    } else {
        Seq::empty()
    }) + (if has_children || !void_element_names().contains(name) {
        "</"@ + name + ">"@
    } else {
        Seq::empty()
    })
}

/// What an MDX element named `name`, with attributes `attrs`, becomes.
pub open spec fn mdx_element_outcome(
    attrs: Seq<MdxAttribute>,
    has_children: bool,
    children: Seq<char>,
    name: Option<Seq<char>>,
) -> Result<MdxElementView, MdxElementFailure> {
    match name {
        None => Err(MdxElementFailure::MissingName),
        Some(n) => match props_of(attrs) {
            Err(f) => Err(f),
            Ok(m) => if void_element_names().contains(n) && has_children {
                Err(MdxElementFailure::VoidElementWithChildren)
            } else if is_component_name(n) {
                Ok(MdxElementView::Component { name: n, props: sorted_props(m), children })
            } else {
                Ok(MdxElementView::Html(element_html(n, sorted_props(m), has_children, children)))
            },
        },
    }
}

/// A copy of a property value.
fn copy_prop(v: &PropValue) -> (r: PropValue)
    ensures
        r == *v,
{
    match v {
        PropValue::Bool(b) => PropValue::Bool(*b),
        PropValue::Text(t) => PropValue::Text(t.clone()),
    }
}

/// Collects the properties of `attributes`.
fn collect_props(attributes: &Vec<MdxAttribute>) -> (r: Result<NameIndex<PropValue>, MdxElementError>)
    ensures
        match r {
            Ok(props) => props_of(attributes@) == Ok::<_, MdxElementFailure>(props.as_map()),
            Err(e) => props_of(attributes@) == Err::<Map<Seq<char>, PropValue>, _>(e@),
        },
{
    let mut props: NameIndex<PropValue> = NameIndex::new();
    assert(props.as_map() =~= Map::empty());
    let mut i: usize = 0;
    while i < attributes.len()
        invariant
            i <= attributes.len(),
            props_of(attributes@.take(i as int)) == Ok::<_, MdxElementFailure>(props.as_map()),
        decreases attributes.len() - i,
    {
        let ghost prefix = attributes@.take(i + 1);
        assert(prefix.drop_last() =~= attributes@.take(i as int));
        assert(prefix.last() == attributes@[i as int]);
        match &attributes[i] {
            MdxAttribute::Expression(_) => {
                proof {
                    lemma_props_failure_stays(attributes@, i as int);
                }
                return Err(MdxElementError::AttributeExpression);
            },
            MdxAttribute::Property { name, value } => match value {
                None => props.insert(name.clone(), PropValue::Bool(true)),
                Some(MdxAttributeValue::Literal(l)) => props.insert(
                    name.clone(),
                    PropValue::Text(l.clone()),
                ),
                Some(MdxAttributeValue::Expression { evaluated, .. }) => match evaluated {
                    Ok(v) => props.insert(name.clone(), copy_prop(v)),
                    Err(e) => {
                        proof {
                            lemma_props_failure_stays(attributes@, i as int);
                        }
                        return Err(MdxElementError::Expression { message: e.clone() });
                    },
                },
            },
        }
        i = i + 1;
    }
    assert(attributes@.take(attributes.len() as int) =~= attributes@);
    Ok(props)
}

/// Once collecting the properties of a prefix failed, collecting those of the
/// whole fails the same way.
proof fn lemma_props_failure_stays(attrs: Seq<MdxAttribute>, i: int)
    requires
        0 <= i < attrs.len(),
        props_of(attrs.take(i + 1)) is Err,
    ensures
        props_of(attrs) == props_of(attrs.take(i + 1)),
    decreases attrs.len(),
{
    if attrs.len() > i + 1 {
        assert(attrs.drop_last().take(i + 1) =~= attrs.take(i + 1));
        lemma_props_failure_stays(attrs.drop_last(), i);
    } else {
        assert(attrs.take(i + 1) =~= attrs);
    }
}

/// The listing of an index is its properties in the order of their names.
proof fn lemma_index_is_sorted_props(props: Seq<(Seq<char>, PropValue)>)
    requires
        sorted_by_name(props),
    ensures
        sorted_props(entries_map(props)) == props,
{
    let m = entries_map(props);
    assert(sorted_by_name(props) && entries_map(props) == m);
    let s = sorted_props(m);
    lemma_sorted_determined_by_map(s, props);
}

/// Evaluates an MDX element named `name`, with attributes `attributes`,
/// whose children evaluated to `evaluated_children`.
pub fn eval_mdx_element(
    attributes: &Vec<MdxAttribute>,
    children: &Vec<MdNode>,
    evaluated_children: String,
    name: &Option<String>,
) -> (r: Result<MdxElement, MdxElementError>)
    ensures
        ({
            let outcome = mdx_element_outcome(
                attributes@,
                children.len() > 0,
                evaluated_children@,
                match *name {
                    Some(n) => Some(n@),
                    None => None,
                },
            );
            match r {
                Ok(e) => outcome == Ok::<_, MdxElementFailure>(e@),
                Err(e) => outcome == Err::<MdxElementView, _>(e@),
            }
        }),
        (*name matches Some(n) && n@.len() > 0 && 'a' <= n@[0] && n@[0] <= 'z') ==> !(r matches Ok(
            MdxElement::Component { .. },
        )),
        (*name matches Some(n) && n@.len() > 0 && 'A' <= n@[0] && n@[0] <= 'Z' && r is Ok) ==> (r matches Ok(
            MdxElement::Component { .. },
        )),
{
    let tag = match name {
        Some(n) => n,
        None => {
            return Err(MdxElementError::MissingName);
        },
    };
    let props = collect_props(attributes)?;
    let n = props.len();
    proof {
        lemma_index_is_sorted_props(props.view());
    }
    let has_children = children.len() > 0;
    let is_void = is_void_tag(tag.as_str());
    if is_void && has_children {
        return Err(MdxElementError::VoidElementWithChildren);
    }
    if is_component_tag(tag.as_str()) {
        let mut list: Vec<(String, PropValue)> = Vec::new();
        let mut k: usize = 0;
        while k < n
            invariant
                k <= n,
                n == props.view().len(),
                list@.map_values(|p: (String, PropValue)| (p.0@, p.1)) == props.view().take(k as int),
            decreases n - k,
        {
            let (key, value) = props.entry_at(k);
            let ghost before = list@;
            list.push((string_from_chars(key), copy_prop(value)));
            proof {
                let f = |p: (String, PropValue)| (p.0@, p.1);
                assert(list@.map_values(f) =~= before.map_values(f).push(props.view()[k as int]));
                assert(props.view().take(k + 1) =~= props.view().take(k as int).push(
                    props.view()[k as int],
                ));
            }
            k = k + 1;
        }
        assert(props.view().take(n as int) =~= props.view());
        return Ok(
            MdxElement::Component {
                name: tag.clone(),
                props: list,
                children: evaluated_children,
            },
        );
    }
    let mut out = String::new();
    push_str(&mut out, "<");
    push_str(&mut out, tag.as_str());
    push_str(&mut out, " ");
    let ghost head = out@;
    let mut k: usize = 0;
    while k < n
        invariant
            k <= n,
            n == props.view().len(),
            out@ == head + props_html(props.view().take(k as int)),
        decreases n - k,
    {
        let (key, value) = props.entry_at(k);
        let key_text = string_from_chars(key);
        match value {
            PropValue::Bool(_) => {
                push_str(&mut out, key_text.as_str());
                push_str(&mut out, " ");
            },
            PropValue::Text(t) => {
                push_str(&mut out, key_text.as_str());
                push_str(&mut out, "=\"");
                let escaped = escape_html_attribute(t.as_str());
                push_str(&mut out, escaped.as_str());
                push_str(&mut out, "\" ");
            },
        }
        proof {
            let t = props.view().take(k + 1);
            assert(t.drop_last() =~= props.view().take(k as int));
            assert(t.last() == props.view()[k as int]);
            assert(out@ =~= head + props_html(t));
        }
        k = k + 1;
    }
    assert(props.view().take(n as int) =~= props.view());
    push_str(&mut out, ">");
    let ghost opened = out@;
    if has_children {
        push_str(&mut out, evaluated_children.as_str());
    } else {
        assert(out@ =~= opened + Seq::<char>::empty());
    }
    let ghost filled = out@;
    if has_children || !is_void {
        push_str(&mut out, "</");
        push_str(&mut out, tag.as_str());
        push_str(&mut out, ">");
        assert(out@ =~= filled + ("</"@ + tag@ + ">"@));
    } else {
        assert(out@ =~= filled + Seq::<char>::empty());
    }
    Ok(MdxElement::Html(out))
}

} // verus!
