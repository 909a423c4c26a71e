//! Turning a prompt document into tidied-up Markdown messages.

use vstd::prelude::*;

use crate::escape::escape_html;
use crate::escape::escape_html_attribute;
use crate::escape::escaped_attribute;
use crate::escape::escaped_html;
use crate::is_external_link::is_external_link;
use crate::is_external_link::is_external_link_spec;
use crate::mcp::jsonrpc::role::Role;
use crate::eval_mdx_element::eval_mdx_element;
use crate::eval_mdx_element::mdx_element_outcome;
use crate::eval_mdx_element::MdxElement;
use crate::eval_mdx_element::MdxElementError;
use crate::eval_mdx_element::MdxElementFailure;
use crate::eval_mdx_element::MdxElementView;
use crate::mdast::MdNode;
use crate::mdast::MdxAttribute;
use crate::mdast::MetadataLineItem;
use crate::mdast::PropValue;
use crate::prompt_document_component_context::state_after_script;
use crate::prompt_document_component_context::ScriptAnswerView;
use crate::prompt_document_component_context::flush_succeeds;
use crate::prompt_document_component_context::state_after_append;
use crate::prompt_document_component_context::state_after_flush;
use crate::prompt_document_component_context::law_messages_only_grow;
use crate::prompt_document_component_context::law_transcript_is_preserved;
use crate::prompt_document_component_context::state_after_switch;
use crate::prompt_document_component_context::transcript;
use crate::prompt_document_component_context::PromptContextView;
use crate::prompt_document_component_context::PromptDocumentComponentContext;
use crate::text::chars_of;
use crate::text::push_str;
use crate::text::join_with;
use crate::text::lines_of;
use crate::text::push_char;
use crate::text::skip_leading_whitespace;
use crate::text::string_from_chars;
use crate::text::string_from_range;
use crate::text::text_lines;
use crate::text::trim;
use crate::text::trim_bounds;
use crate::text::trim_start;

verus! {

/// The marker that starts a quoted line.
pub open spec fn quote_marker() -> Seq<char> {
    seq!['>', ' ']
}

/// `input` as a Markdown block quote: each line prefixed with `"> "`, the
/// lines joined with `'\n'`.
pub open spec fn blockquote_of(input: Seq<char>) -> Seq<char> {
    join_with(text_lines(input).map_values(|line: Seq<char>| quote_marker() + line), seq!['\n'])
}

/// Quotes every line of `input`.
pub fn into_blockquote(input: String) -> (r: String)
    ensures
        r@ == blockquote_of(input@),
{
    let chars = chars_of(input.as_str());
    let lines = lines_of(&chars);
    let ghost quoted = text_lines(input@).map_values(|line: Seq<char>| quote_marker() + line);
    let mut out = String::new();
    let mut i: usize = 0;
    while i < lines.len()
        invariant
            i <= lines.len(),
            lines@.map_values(|l: Vec<char>| l@) == text_lines(input@),
            quoted == text_lines(input@).map_values(|line: Seq<char>| quote_marker() + line),
            out@ == join_with(quoted.take(i as int), seq!['\n']),
        decreases lines.len() - i,
    {
        let ghost before = out@;
        if i > 0 {
            push_char(&mut out, '\n');
        }
        push_char(&mut out, '>');
        push_char(&mut out, ' ');
        let line = &lines[i];
        let mut k: usize = 0;
        let ghost head = out@;
        while k < line.len()
            invariant
                k <= line.len(),
                out@ == head + line@.take(k as int),
            decreases line.len() - k,
        {
            push_char(&mut out, line[k]);
            k = k + 1;
            assert(out@ =~= head + line@.take(k as int));
        }
        proof {
            assert(line@.take(line@.len() as int) =~= line@);
            assert(lines@.map_values(|l: Vec<char>| l@)[i as int] == line@);
            let piece = quoted[i as int];
            assert(piece == quote_marker() + line@);
            let t = quoted.take(i + 1);
            assert(t.drop_last() =~= quoted.take(i as int));
            assert(t.last() == piece);
            if i == 0 {
                assert(out@ =~= piece);
            } else {
                assert(out@ =~= before + seq!['\n'] + piece);
            }
        }
        i = i + 1;
    }
    proof {
        assert(quoted.len() == lines@.len());
        assert(quoted.take(lines@.len() as int) =~= quoted);
    }
    out
}

/// A chunk that is neither empty nor begins (after whitespace) with `':'`.
#[derive(Clone, Debug)]
pub struct MissingChunkPrefix {
    pub chunk: String,
}

/// What `trim_chunk` makes of `chunk`: the empty chunk stays as it is; any
/// other must begin, after whitespace, with `':'`, and what follows that colon
/// is kept without surrounding whitespace.
pub open spec fn trimmed_chunk(chunk: Seq<char>) -> Option<Seq<char>> {
    if chunk.len() == 0 {
        Some(chunk)
    } else {
        let t = trim(chunk);
        if t.len() > 0 && t[0] == ':' {
            Some(trim_start(t.drop_first()))
        } else {
            None
        }
    }
}

/// Strips the `':'` that introduces a chunk of a prompt message.
pub fn trim_chunk(chunk: String) -> (r: Result<String, MissingChunkPrefix>)
    ensures
        match r {
            Ok(s) => trimmed_chunk(chunk@) == Some(s@),
            Err(e) => trimmed_chunk(chunk@) is None && e.chunk@ == chunk@,
        },
{
    if chunk.as_str().is_empty() {
        return Ok(chunk);
    }
    let v = chars_of(chunk.as_str());
    let (from, to) = trim_bounds(&v);
    if from < to && v[from] == ':' {
        let k = skip_leading_whitespace(&v, from + 1, to);
        proof {
            let t = v@.subrange(from as int, to as int);
            assert(t.drop_first() =~= v@.subrange(from + 1, to as int));
        }
        Ok(string_from_range(&v, k, to))
    } else {
        Err(MissingChunkPrefix { chunk })
    }
}

/// Where a node of a prompt document sits.
#[derive(Clone, Copy, Debug, PartialEq, Eq, Structural)]
pub struct EvalPromptDocumentMdastParams {
    /// The node is a direct child of the root: its output is a chunk of a message.
    pub is_directly_in_root: bool,
    /// The node is the first child of its parent.
    pub is_first_child: bool,
    /// The node's parent is a paragraph directly in the root.
    pub is_in_top_paragraph: bool,
}

impl EvalPromptDocumentMdastParams {
    /// Where the root of a document sits.
    pub open spec fn spec_document() -> Self {
        EvalPromptDocumentMdastParams {
            is_directly_in_root: false,
            is_first_child: true,
            is_in_top_paragraph: false,
        }
    }

    /// Where the root of a document sits.
    pub fn document() -> (r: Self)
        ensures
            r == Self::spec_document(),
    {
        EvalPromptDocumentMdastParams {
            is_directly_in_root: false,
            is_first_child: true,
            is_in_top_paragraph: false,
        }
    }

    /// The same place, for a child that is or is not its parent's first.
    pub open spec fn spec_child(self, is_first_child: bool) -> Self {
        EvalPromptDocumentMdastParams { is_first_child, ..self }
    }

    /// Where the children of an ordinary element sit.
    pub open spec fn spec_regular_element(self) -> Self {
        EvalPromptDocumentMdastParams {
            is_directly_in_root: false,
            is_in_top_paragraph: false,
            ..self
        }
    }

    /// Where the children of a paragraph sit.
    pub open spec fn spec_paragraph(self) -> Self {
        EvalPromptDocumentMdastParams {
            is_directly_in_root: false,
            is_in_top_paragraph: self.is_directly_in_root,
            ..self
        }
    }

    /// Where the children of the root sit.
    pub open spec fn spec_directly_in_root(self) -> Self {
        EvalPromptDocumentMdastParams {
            is_directly_in_root: true,
            is_in_top_paragraph: false,
            ..self
        }
    }

    pub fn child(&self, is_first_child: bool) -> (r: Self)
        ensures
            r == self.spec_child(is_first_child),
    {
        EvalPromptDocumentMdastParams { is_first_child, ..*self }
    }

    pub fn regular_element(&self) -> (r: Self)
        ensures
            r == self.spec_regular_element(),
    {
        EvalPromptDocumentMdastParams {
            is_directly_in_root: false,
            is_in_top_paragraph: false,
            ..*self
        }
    }

    pub fn paragraph(&self) -> (r: Self)
        ensures
            r == self.spec_paragraph(),
    {
        EvalPromptDocumentMdastParams {
            is_directly_in_root: false,
            is_in_top_paragraph: self.is_directly_in_root,
            ..*self
        }
    }

    pub fn directly_in_root(&self) -> (r: Self)
        ensures
            r == self.spec_directly_in_root(),
    {
        EvalPromptDocumentMdastParams {
            is_directly_in_root: true,
            is_in_top_paragraph: false,
            ..*self
        }
    }
}

/// A script of a prompt document, to be run with the prompt state at its
/// place in the document.
#[derive(Clone, Debug)]
pub enum ScriptCall {
    /// An MDX expression, by its source.
    Expression { value: String },
    /// A component, with its properties in the order of their names and its
    /// evaluated children.
    Component { name: String, props: Vec<(String, PropValue)>, children: String },
}

/// The abstract form of a `ScriptCall`.
pub enum ScriptCallView {
    Expression(Seq<char>),
    Component { name: Seq<char>, props: Seq<(Seq<char>, PropValue)>, children: Seq<char> },
}

impl View for ScriptCall {
    type V = ScriptCallView;

    open spec fn view(&self) -> ScriptCallView {
        match self {
            ScriptCall::Expression { value } => ScriptCallView::Expression(value@),
            ScriptCall::Component { name, props, children } => ScriptCallView::Component {
                name: name@,
                props: props@.map_values(|p: (String, PropValue)| (p.0@, p.1)),
                children: children@,
            },
        }
    }
}

/// Why a prompt document could not be evaluated.
#[derive(Clone, Debug)]
pub enum PromptEvalError {
    /// Something the host resolved (an internal link or image, an attribute
    /// expression) failed, or a script failed.
    Host { message: String },
    /// A bold role marker that names no role.
    UnknownRole { value: String },
    /// Text had to be closed into a message before any role was set.
    NoRoleToFlush,
    /// A chunk of a message did not begin with `':'`.
    MissingChunkPrefix { chunk: String },
    /// An MDX element could not be evaluated.
    Element { error: MdxElementError },
    /// Evaluation reached a script that the host has not answered yet: the
    /// host runs it with the prompt state as evaluation left it, adds its
    /// answer to those of the state it began with, and evaluates again.
    ScriptPending { call: ScriptCall },
}

/// The abstract form of a `PromptEvalError`.
pub enum PromptEvalFailure {
    Host(Seq<char>),
    UnknownRole(Seq<char>),
    NoRoleToFlush,
    MissingChunkPrefix(Seq<char>),
    Element(MdxElementFailure),
    ScriptPending(ScriptCallView),
}

/// `e` is the failure `f`.
pub open spec fn fails_as(e: PromptEvalError, f: PromptEvalFailure) -> bool {
    match (e, f) {
        (PromptEvalError::Host { message }, PromptEvalFailure::Host(m)) => message@ == m,
        (PromptEvalError::UnknownRole { value }, PromptEvalFailure::UnknownRole(v)) => value@ == v,
        (PromptEvalError::NoRoleToFlush, PromptEvalFailure::NoRoleToFlush) => true,
        (
            PromptEvalError::MissingChunkPrefix { chunk },
            PromptEvalFailure::MissingChunkPrefix(c),
        ) => chunk@ == c,
        (PromptEvalError::Element { error }, PromptEvalFailure::Element(f)) => error@ == f,
        (PromptEvalError::ScriptPending { call }, PromptEvalFailure::ScriptPending(c)) => call@ == c,
        _ => false,
    }
}

/// The result of evaluating part of a prompt document, and the state after.
pub type PromptStep = (Result<Seq<char>, PromptEvalFailure>, PromptContextView);

/// `r` is the result that `step` states.
pub open spec fn evaluates_as(r: Result<String, PromptEvalError>, step: Result<Seq<char>, PromptEvalFailure>) -> bool {
    match (r, step) {
        (Ok(s), Ok(t)) => s@ == t,
        (Err(e), Err(f)) => fails_as(e, f),
        _ => false,
    }
}

/// `inner` between `open` and `close`, the state unchanged by the wrapping.
pub open spec fn wrap_step(open: Seq<char>, inner: PromptStep, close: Seq<char>) -> PromptStep {
    match inner.0 {
        Ok(s) => (Ok(open + s + close), inner.1),
        Err(e) => (Err(e), inner.1),
    }
}

/// Running the script `call` at the state `v`: the next answer of the host,
/// its output or failure, with what the script did to the pending text;
/// where the host has not answered it yet, evaluation stops there, asking
/// for it, with the state as it is.
pub open spec fn script_step(call: ScriptCallView, v: PromptContextView) -> PromptStep {
    if v.scripts_run < v.answers.len() {
        let a = v.answers[v.scripts_run as int];
        match a.output {
            Ok(s) => (Ok(s), state_after_script(v, a)),
            Err(e) => (Err(PromptEvalFailure::Host(e)), state_after_script(v, a)),
        }
    } else {
        (Err(PromptEvalFailure::ScriptPending(call)), v)
    }
}

/// An MDX element whose children evaluated to `children`: a failure there is
/// the element's; an element that names a component runs the component's
/// script, any other is written out as `eval_mdx_element` writes it.
pub open spec fn element_step(
    attributes: Seq<MdxAttribute>,
    has_children: bool,
    children: PromptStep,
    name: Option<String>,
) -> PromptStep {
    match children.0 {
        Err(e) => (Err(e), children.1),
        Ok(inner) => match mdx_element_outcome(
            attributes,
            has_children,
            inner,
            match name {
                Some(n) => Some(n@),
                None => None,
            },
        ) {
            Err(f) => (Err(PromptEvalFailure::Element(f)), children.1),
            Ok(MdxElementView::Html(html)) => (Ok(html), children.1),
            Ok(MdxElementView::Component { name, props, children: c }) => script_step(
                ScriptCallView::Component { name, props, children: c },
                children.1,
            ),
        },
    }
}

/// `n` copies of `#`.
pub open spec fn hashes(n: nat) -> Seq<char> {
    Seq::new(n, |i: int| '#')
}

/// Where a link or image of a prompt points.
pub open spec fn prompt_target(url: Seq<char>, resolved: Result<String, String>) -> Result<
    Seq<char>,
    PromptEvalFailure,
> {
    if is_external_link_spec(url) {
        Ok(url)
    } else {
        match resolved {
            Ok(s) => Ok(s@),
            Err(e) => Err(PromptEvalFailure::Host(e@)),
        }
    }
}

/// A bold span: at the start of a top paragraph it names the new speaker and
/// writes nothing; elsewhere it stays bold.
pub open spec fn strong_step(inner: PromptStep, p: EvalPromptDocumentMdastParams) -> PromptStep {
    match inner.0 {
        Err(e) => (Err(e), inner.1),
        Ok(content) => if p.is_first_child && p.is_in_top_paragraph {
            match Role::from_name(content) {
                None => (Err(PromptEvalFailure::UnknownRole(content)), inner.1),
                Some(role) => if flush_succeeds(inner.1) {
                    (Ok(Seq::empty()), state_after_switch(inner.1, role))
                } else {
                    (Err(PromptEvalFailure::NoRoleToFlush), state_after_switch(inner.1, role))
                },
            }
        } else {
            (Ok("**"@ + content + "**"@), inner.1)
        },
    }
}

/// The node's own output, before it is taken as a chunk of a message.
pub open spec fn prompt_node_step(node: MdNode, p: EvalPromptDocumentMdastParams, v: PromptContextView) -> PromptStep
    decreases node, 0nat,
{
    let regular = p.spec_regular_element();
    match node {
        MdNode::Blockquote(c) => match prompt_children_step(c@, regular, v) {
            (Ok(s), w) => (Ok(blockquote_of(s)), w),
            (Err(e), w) => (Err(e), w),
        },
        MdNode::Break => (Ok("  \n"@), v),
        MdNode::Code { lang, value, .. } => (
            Ok("```"@ + match lang {
                Some(l) => l@,
                None => Seq::empty(),
            } + "\n"@ + escaped_html(value@) + "\n```"@),
            v,
        ),
        MdNode::Delete(c) => wrap_step("~~"@, prompt_children_step(c@, regular, v), "~~"@),
        MdNode::Emphasis(c) => wrap_step("*"@, prompt_children_step(c@, regular, v), "*"@),
        MdNode::Heading { children, depth } => wrap_step(
            hashes(depth as nat) + " "@,
            prompt_children_step(children@, regular, v),
            Seq::empty(),
        ),
        MdNode::Html(value) => (Ok(value@), v),
        MdNode::Image { alt, url, title, resolved_src } => match prompt_target(
            url@,
            resolved_src,
        ) {
            Ok(src) => (
                Ok("!["@ + escaped_attribute(alt@) + "]("@ + escaped_attribute(src) + match title {
                    Some(t) => " \""@ + escaped_attribute(t@) + "\""@,
                    None => Seq::empty(),
                } + ")"@),
                v,
            ),
            Err(e) => (Err(e), v),
        },
        MdNode::InlineCode(value) => (Ok("`"@ + escaped_attribute(value@) + "`"@), v),
        MdNode::Link { children, title, url, resolved_href } => match prompt_children_step(
            children@,
            regular,
            v,
        ) {
            (Ok(text), w) => match prompt_target(url@, resolved_href) {
                Ok(href) => (
                    Ok("["@ + text + "]"@ + "("@ + href + match title {
                        Some(t) => " \""@ + t@ + "\""@,
                        None => Seq::empty(),
                    } + ")"@),
                    w,
                ),
                Err(e) => (Err(e), w),
            },
            (Err(e), w) => (Err(e), w),
        },
        MdNode::List { children, .. } => wrap_step(
            "\n"@,
            prompt_children_step(children@, regular, v),
            "\n"@,
        ),
        MdNode::ListItem(c) => wrap_step("- "@, prompt_children_step(c@, regular, v), Seq::empty()),
        MdNode::MdxFlowExpression { value, .. } => script_step(ScriptCallView::Expression(value@), v),
        MdNode::MdxTextExpression { value, .. } => script_step(ScriptCallView::Expression(value@), v),
        MdNode::MdxJsxFlowElement { attributes, children, name, .. } => element_step(
            attributes@,
            children.len() > 0,
            prompt_children_step(children@, regular, v),
            name,
        ),
        MdNode::MdxJsxTextElement { attributes, children, name, .. } => element_step(
            attributes@,
            children.len() > 0,
            prompt_children_step(children@, regular, v),
            name,
        ),
        MdNode::Paragraph(c) => wrap_step(
            "\n"@,
            prompt_children_step(c@, p.spec_paragraph(), v),
            "\n"@,
        ),
        MdNode::Root(c) => match prompt_children_step(c@, p.spec_directly_in_root(), v) {
            (Ok(s), w) => if flush_succeeds(w) {
                (Ok(s), state_after_flush(w))
            } else {
                (Err(PromptEvalFailure::NoRoleToFlush), state_after_flush(w))
            },
            (Err(e), w) => (Err(e), w),
        },
        MdNode::Strong(c) => strong_step(prompt_children_step(c@, regular, v), p),
        MdNode::Table(c) => prompt_children_step(c@, regular, v),
        MdNode::TableCell(c) => wrap_step("| "@, prompt_children_step(c@, regular, v), Seq::empty()),
        MdNode::TableRow(c) => wrap_step(Seq::empty(), prompt_children_step(c@, regular, v), " |"@),
        MdNode::Text(value) => (Ok(value@), v),
        MdNode::ThematicBreak => (Ok("---"@), v),
        _ => (Ok(Seq::empty()), v),
    }
}

/// Evaluating a node: its output, which, for a node directly in the root, is
/// also appended (as `trim_chunk` leaves it) to the pending message text.
pub open spec fn prompt_step(node: MdNode, p: EvalPromptDocumentMdastParams, v: PromptContextView) -> PromptStep
    decreases node, 1nat,
{
    let own = prompt_node_step(node, p, v);
    match own.0 {
        Ok(s) => if p.is_directly_in_root {
            match trimmed_chunk(s) {
                Some(t) => (Ok(s), state_after_append(own.1, t)),
                None => (Err(PromptEvalFailure::MissingChunkPrefix(s)), own.1),
            }
        } else {
            own
        },
        Err(e) => own,
    }
}

/// Evaluating `nodes` one after another, the state passed along; the first
/// error stops the evaluation.
pub open spec fn prompt_children_step(
    nodes: Seq<MdNode>,
    p: EvalPromptDocumentMdastParams,
    v: PromptContextView,
) -> PromptStep
    decreases nodes,
{
    if nodes.len() == 0 {
        (Ok(Seq::empty()), v)
    } else {
        let before = prompt_children_step(nodes.drop_last(), p, v);
        match before.0 {
            Ok(s) => {
                let last = prompt_step(nodes.last(), p.spec_child(nodes.len() == 1), before.1);
                match last.0 {
                    Ok(t) => (Ok(s + t), last.1),
                    Err(e) => (Err(e), last.1),
                }
            },
            Err(e) => before,
        }
    }
}


/// `a` is how `b` begins.
pub open spec fn begins_with<T>(b: Seq<T>, a: Seq<T>) -> bool {
    a.len() <= b.len() && b.subrange(0, a.len() as int) == a
}

/// No answer of a script flushed the pending text.
pub open spec fn no_script_clears(answers: Seq<ScriptAnswerView>) -> bool {
    forall|i: int| 0 <= i < answers.len() ==> !(#[trigger] answers[i]).cleared_pending
}

/// A step from the state `v` takes back nothing that was said: the messages
/// of `v` still begin those after it, and, where the step succeeds, all the
/// text said in `v` still begins all the text said after it.
pub open spec fn keeps_what_was_said(v: PromptContextView, step: PromptStep) -> bool {
    &&& step.1.answers == v.answers
    &&& begins_with(step.1.messages, v.messages)
    &&& (step.0 is Ok ==> begins_with(transcript(step.1), transcript(v)))
}

proof fn lemma_begins_with_transitive<T>(a: Seq<T>, b: Seq<T>, c: Seq<T>)
    requires
        begins_with(b, a),
        begins_with(c, b),
    ensures
        begins_with(c, a),
{
    assert(c.subrange(0, a.len() as int) =~= b.subrange(0, a.len() as int));
}

proof fn lemma_keeps_transitive(u: PromptContextView, v: PromptContextView, w: PromptStep)
    requires
        v.answers == u.answers,
        begins_with(v.messages, u.messages),
        begins_with(transcript(v), transcript(u)),
        keeps_what_was_said(v, w),
    ensures
        keeps_what_was_said(u, w),
{
    lemma_begins_with_transitive(u.messages, v.messages, w.1.messages);
    if w.0 is Ok {
        lemma_begins_with_transitive(transcript(u), transcript(v), transcript(w.1));
    }
}

proof fn lemma_keeps_reflexive(v: PromptContextView)
    ensures
        begins_with(v.messages, v.messages),
        begins_with(transcript(v), transcript(v)),
{
    assert(v.messages.subrange(0, v.messages.len() as int) =~= v.messages);
    assert(transcript(v).subrange(0, transcript(v).len() as int) =~= transcript(v));
}

/// A flush keeps the messages, and, where it succeeds, all the text said.
proof fn lemma_flush_keeps(v: PromptContextView, role: Role)
    ensures
        state_after_flush(v).answers == v.answers,
        state_after_switch(v, role).answers == v.answers,
        begins_with(state_after_flush(v).messages, v.messages),
        begins_with(state_after_switch(v, role).messages, v.messages),
        flush_succeeds(v) ==> begins_with(transcript(state_after_flush(v)), transcript(v)),
        flush_succeeds(v) ==> begins_with(transcript(state_after_switch(v, role)), transcript(v)),
{
    law_messages_only_grow(v, Seq::empty(), role);
    law_transcript_is_preserved(v, Seq::empty(), role);
    lemma_keeps_reflexive(v);
}

/// A script whose answer does not flush the pending text keeps what was
/// said: it can only add to that text.
proof fn lemma_script_keeps(call: ScriptCallView, v: PromptContextView)
    requires
        no_script_clears(v.answers),
    ensures
        keeps_what_was_said(v, script_step(call, v)),
{
    lemma_keeps_reflexive(v);
    if v.scripts_run < v.answers.len() {
        let a = v.answers[v.scripts_run as int];
        let w = state_after_script(v, a);
        assert(!a.cleared_pending);
        assert(w.messages == v.messages);
        assert(transcript(w) =~= transcript(v) + a.appended);
        assert(transcript(w).subrange(0, transcript(v).len() as int) =~= transcript(v));
    }
}

/// Evaluating one node keeps what was said, where no script's answer
/// flushes the pending text (a script that flushes drops that text).
pub proof fn law_node_keeps_what_was_said(node: MdNode, p: EvalPromptDocumentMdastParams, v: PromptContextView)
    requires
        no_script_clears(v.answers),
    ensures
        keeps_what_was_said(v, prompt_node_step(node, p, v)),
    decreases node, 0nat,
{
    lemma_keeps_reflexive(v);
    let regular = p.spec_regular_element();
    match node {
        MdNode::Blockquote(c) => law_children_keep_what_was_said(c@, regular, v),
        MdNode::Delete(c) => law_children_keep_what_was_said(c@, regular, v),
        MdNode::Emphasis(c) => law_children_keep_what_was_said(c@, regular, v),
        MdNode::Heading { children, .. } => law_children_keep_what_was_said(children@, regular, v),
        MdNode::Link { children, .. } => law_children_keep_what_was_said(children@, regular, v),
        MdNode::List { children, .. } => law_children_keep_what_was_said(children@, regular, v),
        MdNode::ListItem(c) => law_children_keep_what_was_said(c@, regular, v),
        MdNode::MdxFlowExpression { value, .. } => lemma_script_keeps(
            ScriptCallView::Expression(value@),
            v,
        ),
        MdNode::MdxTextExpression { value, .. } => lemma_script_keeps(
            ScriptCallView::Expression(value@),
            v,
        ),
        MdNode::MdxJsxFlowElement { attributes, children, name, .. } => {
            law_children_keep_what_was_said(children@, regular, v);
            lemma_element_keeps(attributes@, children@, name, regular, v);
        },
        MdNode::MdxJsxTextElement { attributes, children, name, .. } => {
            law_children_keep_what_was_said(children@, regular, v);
            lemma_element_keeps(attributes@, children@, name, regular, v);
        },
        MdNode::Paragraph(c) => law_children_keep_what_was_said(c@, p.spec_paragraph(), v),
        MdNode::Root(c) => {
            let inner = prompt_children_step(c@, p.spec_directly_in_root(), v);
            law_children_keep_what_was_said(c@, p.spec_directly_in_root(), v);
            if inner.0 is Ok {
                lemma_flush_keeps(inner.1, Role::User);
                lemma_keeps_transitive(
                    v,
                    inner.1,
                    prompt_node_step(node, p, v),
                );
            }
        },
        MdNode::Strong(c) => {
            let inner = prompt_children_step(c@, regular, v);
            law_children_keep_what_was_said(c@, regular, v);
            if inner.0 is Ok {
                match inner.0 {
                    Ok(content) => match Role::from_name(content) {
                        Some(role) => lemma_flush_keeps(inner.1, role),
                        None => lemma_keeps_reflexive(inner.1),
                    },
                    Err(_) => {},
                }
                lemma_keeps_reflexive(inner.1);
                lemma_keeps_transitive(v, inner.1, prompt_node_step(node, p, v));
            }
        },
        MdNode::Table(c) => law_children_keep_what_was_said(c@, regular, v),
        MdNode::TableCell(c) => law_children_keep_what_was_said(c@, regular, v),
        MdNode::TableRow(c) => law_children_keep_what_was_said(c@, regular, v),
        _ => {},
    }
}

/// An MDX element keeps what was said: its children do, and then its
/// component's script, if it is one, does.
proof fn lemma_element_keeps(
    attributes: Seq<MdxAttribute>,
    children: Seq<MdNode>,
    name: Option<String>,
    p: EvalPromptDocumentMdastParams,
    v: PromptContextView,
)
    requires
        no_script_clears(v.answers),
        keeps_what_was_said(v, prompt_children_step(children, p, v)),
    ensures
        keeps_what_was_said(
            v,
            element_step(attributes, children.len() > 0, prompt_children_step(children, p, v), name),
        ),
{
    let inner = prompt_children_step(children, p, v);
    lemma_keeps_reflexive(inner.1);
    match inner.0 {
        Ok(s) => match mdx_element_outcome(
            attributes,
            children.len() > 0,
            s,
            match name {
                Some(n) => Some(n@),
                None => None,
            },
        ) {
            Ok(MdxElementView::Component { name: n, props, children: c }) => {
                lemma_script_keeps(ScriptCallView::Component { name: n, props, children: c }, inner.1);
                lemma_keeps_transitive(
                    v,
                    inner.1,
                    script_step(ScriptCallView::Component { name: n, props, children: c }, inner.1),
                );
            },
            _ => {},
        },
        Err(_) => {},
    }
}

/// Evaluating one node, and appending its output as a chunk where it sits in
/// the root, keeps what was said, where no script's answer flushes the
/// pending text.
pub proof fn law_step_keeps_what_was_said(node: MdNode, p: EvalPromptDocumentMdastParams, v: PromptContextView)
    requires
        no_script_clears(v.answers),
    ensures
        keeps_what_was_said(v, prompt_step(node, p, v)),
    decreases node, 1nat,
{
    let own = prompt_node_step(node, p, v);
    law_node_keeps_what_was_said(node, p, v);
    match own.0 {
        Ok(s) => if p.is_directly_in_root {
            match trimmed_chunk(s) {
                Some(t) => {
                    law_transcript_is_preserved(own.1, t, Role::User);
                    law_messages_only_grow(own.1, t, Role::User);
                    lemma_keeps_reflexive(own.1);
                    let after = state_after_append(own.1, t);
                    assert(begins_with(transcript(after), transcript(own.1))) by {
                        assert(transcript(after).subrange(0, transcript(own.1).len() as int)
                            =~= transcript(own.1));
                    }
                    lemma_keeps_transitive(v, own.1, prompt_step(node, p, v));
                },
                None => {},
            }
        },
        Err(_) => {},
    }
}

/// Evaluating nodes one after another keeps what was said, where no
/// script's answer flushes the pending text.
pub proof fn law_children_keep_what_was_said(
    nodes: Seq<MdNode>,
    p: EvalPromptDocumentMdastParams,
    v: PromptContextView,
)
    requires
        no_script_clears(v.answers),
    ensures
        keeps_what_was_said(v, prompt_children_step(nodes, p, v)),
    decreases nodes,
{
    lemma_keeps_reflexive(v);
    if nodes.len() > 0 {
        let before = prompt_children_step(nodes.drop_last(), p, v);
        law_children_keep_what_was_said(nodes.drop_last(), p, v);
        if before.0 is Ok {
            let last_node = nodes.last();
            law_step_keeps_what_was_said(last_node, p.spec_child(nodes.len() == 1), before.1);
            lemma_keeps_transitive(v, before.1, prompt_children_step(nodes, p, v));
        }
    }
}

/// A code block in a prompt is written as a fenced block: an opening fence
/// with the block's language, the code with HTML escaped, and a closing
/// fence on a line of its own. Writing it changes nothing of the state.
pub proof fn law_code_block_is_fenced(
    lang: Option<String>,
    meta: Option<String>,
    value: String,
    meta_items: Result<Vec<MetadataLineItem>, String>,
    highlighted: Option<Result<String, String>>,
    p: EvalPromptDocumentMdastParams,
    v: PromptContextView,
)
    ensures
        ({
            let node = MdNode::Code { lang, meta, value, meta_items, highlighted };
            let fence = "```"@ + match lang {
                Some(l) => l@,
                None => Seq::<char>::empty(),
            } + "\n"@;
            let out = fence + escaped_html(value@) + "\n```"@;
            &&& prompt_node_step(node, p, v) == (Ok::<Seq<char>, PromptEvalFailure>(out), v)
            &&& out.subrange(0, fence.len() as int) == fence
            &&& out.subrange(out.len() - 4, out.len() as int) == "\n```"@
            &&& !p.is_directly_in_root ==> prompt_step(node, p, v) == prompt_node_step(node, p, v)
        }),
{
    let fence = "```"@ + match lang {
        Some(l) => l@,
        None => Seq::<char>::empty(),
    } + "\n"@;
    let out = fence + escaped_html(value@) + "\n```"@;
    reveal_strlit("\n```");
    assert(out.subrange(0, fence.len() as int) =~= fence);
    assert(out.subrange(out.len() - 4, out.len() as int) =~= "\n```"@);
}

/// Runs the script `call` at the present state: takes the host's next
/// answer, or stops, asking for it.
fn run_script(call: ScriptCall, context: &mut PromptDocumentComponentContext) -> (r: Result<
    String,
    PromptEvalError,
>)
    ensures
        ({
            let step = script_step(call@, old(context)@);
            evaluates_as(r, step.0) && final(context)@ == step.1
        }),
{
    match context.take_script_answer() {
        Some(Ok(s)) => Ok(s),
        Some(Err(message)) => Err(PromptEvalError::Host { message }),
        None => Err(PromptEvalError::ScriptPending { call }),
    }
}

fn host_error(message: &String) -> (e: PromptEvalError)
    ensures
        fails_as(e, PromptEvalFailure::Host(message@)),
{
    PromptEvalError::Host { message: message.clone() }
}

/// Evaluates `children` and puts the result between `open` and `close`.
fn eval_wrapped(
    open: &str,
    children: &Vec<MdNode>,
    params: EvalPromptDocumentMdastParams,
    close: &str,
    context: &mut PromptDocumentComponentContext,
) -> (r: Result<String, PromptEvalError>)
    ensures
        ({
            let step = wrap_step(open@, prompt_children_step(children@, params, old(context)@), close@);
            evaluates_as(r, step.0) && final(context)@ == step.1
        }),
    decreases children, 2nat,
{
    let inner = eval_prompt_document_children(children, params, context)?;
    let mut out = String::new();
    push_str(&mut out, open);
    push_str(&mut out, inner.as_str());
    push_str(&mut out, close);
    assert(out@ =~= open@ + inner@ + close@);
    Ok(out)
}

/// Evaluates a link: its text first, then where it points.
fn eval_link(
    children: &Vec<MdNode>,
    title: &Option<String>,
    url: &String,
    resolved_href: &Result<String, String>,
    params: EvalPromptDocumentMdastParams,
    context: &mut PromptDocumentComponentContext,
) -> (r: Result<String, PromptEvalError>)
    ensures
        ({
            let step = match prompt_children_step(children@, params, old(context)@) {
                (Ok(text), w) => match prompt_target(url@, *resolved_href) {
                    Ok(href) => (
                        Ok("["@ + text + "]"@ + "("@ + href + match *title {
                            Some(t) => " \""@ + t@ + "\""@,
                            None => Seq::empty(),
                        } + ")"@),
                        w,
                    ),
                    Err(e) => (Err(e), w),
                },
                (Err(e), w) => (Err(e), w),
            };
            evaluates_as(r, step.0) && final(context)@ == step.1
        }),
    decreases children, 2nat,
{
    let text = eval_prompt_document_children(children, params, context)?;
    let mut out = String::new();
    push_str(&mut out, "[");
    push_str(&mut out, text.as_str());
    push_str(&mut out, "]");
    let href: String = if is_external_link(url.as_str()) {
        url.clone()
    } else {
        match resolved_href {
            Ok(s) => s.clone(),
            Err(e) => {
                return Err(host_error(e));
            },
        }
    };
    push_str(&mut out, "(");
    push_str(&mut out, href.as_str());
    let ghost mid = out@;
    match title {
        Some(t) => {
            push_str(&mut out, " \"");
            push_str(&mut out, t.as_str());
            push_str(&mut out, "\"");
            assert(out@ =~= mid + (" \""@ + t@ + "\""@));
        },
        None => {
            assert(out@ =~= mid + Seq::<char>::empty());
        },
    }
    push_str(&mut out, ")");
    assert(out@ =~= "["@ + text@ + "]"@ + "("@ + href@ + match *title {
        Some(t) => " \""@ + t@ + "\""@,
        None => Seq::empty(),
    } + ")"@);
    Ok(out)
}

/// Evaluates an image.
fn eval_image(
    alt: &String,
    url: &String,
    title: &Option<String>,
    resolved_src: &Result<String, String>,
) -> (r: Result<String, PromptEvalError>)
    ensures
        evaluates_as(
            r,
            match prompt_target(url@, *resolved_src) {
                Ok(src) => Ok(
                    "!["@ + escaped_attribute(alt@) + "]("@ + escaped_attribute(src) + match *title {
                        Some(t) => " \""@ + escaped_attribute(t@) + "\""@,
                        None => Seq::empty(),
                    } + ")"@,
                ),
                Err(e) => Err(e),
            },
        ),
{
    let mut out = String::new();
    push_str(&mut out, "![");
    let a = escape_html_attribute(alt.as_str());
    push_str(&mut out, a.as_str());
    push_str(&mut out, "](");
    let src: String = if is_external_link(url.as_str()) {
        url.clone()
    } else {
        match resolved_src {
            Ok(s) => s.clone(),
            Err(e) => {
                return Err(host_error(e));
            },
        }
    };
    let e = escape_html_attribute(src.as_str());
    push_str(&mut out, e.as_str());
    let ghost mid = out@;
    match title {
        Some(t) => {
            push_str(&mut out, " \"");
            let te = escape_html_attribute(t.as_str());
            push_str(&mut out, te.as_str());
            push_str(&mut out, "\"");
            assert(out@ =~= mid + (" \""@ + escaped_attribute(t@) + "\""@));
        },
        None => {
            assert(out@ =~= mid + Seq::<char>::empty());
        },
    }
    push_str(&mut out, ")");
    assert(out@ =~= "!["@ + escaped_attribute(alt@) + "]("@ + escaped_attribute(src@) + match *title {
        Some(t) => " \""@ + escaped_attribute(t@) + "\""@,
        None => Seq::empty(),
    } + ")"@);
    Ok(out)
}

/// Evaluates a code block.
fn eval_code(lang: &Option<String>, value: &String) -> (r: String)
    ensures
        r@ == "```"@ + match *lang {
            Some(l) => l@,
            None => Seq::empty(),
        } + "\n"@ + escaped_html(value@) + "\n```"@,
{
    let mut out = String::new();
    push_str(&mut out, "```");
    let ghost head = out@;
    match lang {
        Some(l) => push_str(&mut out, l.as_str()),
        None => {
            assert(out@ =~= head + Seq::<char>::empty());
        },
    }
    push_str(&mut out, "\n");
    let e = escape_html(value.as_str());
    push_str(&mut out, e.as_str());
    push_str(&mut out, "\n```");
    out
}

/// `n` copies of `#`.
fn hash_marks(n: u8) -> (r: String)
    ensures
        r@ == hashes(n as nat),
{
    let mut out = String::new();
    let mut i: u8 = 0;
    while i < n
        invariant
            i <= n,
            out@ == hashes(i as nat),
        decreases n - i,
    {
        push_char(&mut out, '#');
        i = i + 1;
        assert(out@ =~= hashes(i as nat));
    }
    out
}

/// Evaluates a bold span, which at the start of a top paragraph names the
/// next speaker.
fn eval_strong(
    children: &Vec<MdNode>,
    params: EvalPromptDocumentMdastParams,
    context: &mut PromptDocumentComponentContext,
) -> (r: Result<String, PromptEvalError>)
    ensures
        ({
            let step = strong_step(
                prompt_children_step(children@, params.spec_regular_element(), old(context)@),
                params,
            );
            evaluates_as(r, step.0) && final(context)@ == step.1
        }),
    decreases children, 2nat,
{
    let content = eval_prompt_document_children(children, params.regular_element(), context)?;
    if params.is_first_child && params.is_in_top_paragraph {
        let role = match Role::parse(content.as_str()) {
            Ok(role) => role,
            Err(e) => {
                return Err(PromptEvalError::UnknownRole { value: e.value });
            },
        };
        match context.switch_role_to(role) {
            Ok(()) => Ok(String::new()),
            Err(_) => Err(PromptEvalError::NoRoleToFlush),
        }
    } else {
        let mut out = String::new();
        push_str(&mut out, "**");
        push_str(&mut out, content.as_str());
        push_str(&mut out, "**");
        assert(out@ =~= "**"@ + content@ + "**"@);
        Ok(out)
    }
}

/// A node's own output, before it is taken as a chunk of a message.
fn eval_prompt_node(
    node: &MdNode,
    params: EvalPromptDocumentMdastParams,
    context: &mut PromptDocumentComponentContext,
) -> (r: Result<String, PromptEvalError>)
    ensures
        ({
            let step = prompt_node_step(*node, params, old(context)@);
            evaluates_as(r, step.0) && final(context)@ == step.1
        }),
    decreases node, 3nat,
{
    proof {
        reveal_strlit("");
    }
    let regular = params.regular_element();
    match node {
        MdNode::Blockquote(c) => {
            let inner = eval_prompt_document_children(c, regular, context)?;
            let out = into_blockquote(inner);
            Ok(out)
        },
        MdNode::Break => {
            let out = String::from_str("  \n");
            Ok(out)
        },
        MdNode::Code { lang, value, .. } => {
            let out = eval_code(lang, value);
            Ok(out)
        },
        MdNode::Delete(c) => eval_wrapped("~~", c, regular, "~~", context),
        MdNode::Emphasis(c) => eval_wrapped("*", c, regular, "*", context),
        MdNode::Heading { children, depth } => {
            let marks = hash_marks(*depth);
            let inner = eval_prompt_document_children(children, regular, context)?;
            let mut out = String::new();
            push_str(&mut out, marks.as_str());
            push_str(&mut out, " ");
            push_str(&mut out, inner.as_str());
            assert(out@ =~= (hashes(*depth as nat) + " "@) + inner@ + Seq::<char>::empty());
            Ok(out)
        },
        MdNode::Html(value) => {
            let out = value.clone();
            Ok(out)
        },
        MdNode::Image { alt, url, title, resolved_src } => eval_image(alt, url, title, resolved_src),
        MdNode::InlineCode(value) => {
            let mut out = String::new();
            push_str(&mut out, "`");
            let e = escape_html_attribute(value.as_str());
            push_str(&mut out, e.as_str());
            push_str(&mut out, "`");
            assert(out@ =~= "`"@ + escaped_attribute(value@) + "`"@);
            Ok(out)
        },
        MdNode::Link { children, title, url, resolved_href } => eval_link(
            children,
            title,
            url,
            resolved_href,
            regular,
            context,
        ),
        MdNode::List { children, .. } => eval_wrapped("\n", children, regular, "\n", context),
        MdNode::ListItem(c) => eval_wrapped("- ", c, regular, "", context),
        MdNode::MdxFlowExpression { value, .. } | MdNode::MdxTextExpression { value, .. } => run_script(
            ScriptCall::Expression { value: value.clone() },
            context,
        ),
        MdNode::MdxJsxFlowElement { attributes, children, name, .. }
        | MdNode::MdxJsxTextElement { attributes, children, name, .. } => {
            let inner = eval_prompt_document_children(children, regular, context)?;
            match eval_mdx_element(attributes, children, inner, name) {
                Ok(MdxElement::Html(html)) => Ok(html),
                Ok(MdxElement::Component { name, props, children }) => run_script(
                    ScriptCall::Component { name, props, children },
                    context,
                ),
                Err(error) => Err(PromptEvalError::Element { error }),
            }
        },
        MdNode::Paragraph(c) => eval_wrapped("\n", c, params.paragraph(), "\n", context),
        MdNode::Root(c) => {
            let out = eval_prompt_document_children(c, params.directly_in_root(), context)?;
            match context.flush() {
                Ok(()) => {
                    Ok(out)
                },
                Err(_) => Err(PromptEvalError::NoRoleToFlush),
            }
        },
        MdNode::Strong(c) => eval_strong(c, params, context),
        MdNode::Table(c) => eval_prompt_document_children(c, regular, context),
        MdNode::TableCell(c) => eval_wrapped("| ", c, regular, "", context),
        MdNode::TableRow(c) => eval_wrapped("", c, regular, " |", context),
        MdNode::Text(value) => {
            let out = value.clone();
            Ok(out)
        },
        MdNode::ThematicBreak => {
            let out = String::from_str("---");
            Ok(out)
        },
        _ => {
            let out = String::new();
            Ok(out)
        },
    }
}

/// Converts a node of a prompt document into tidied-up Markdown; output of a
/// node directly in the root becomes a chunk of the current message.
pub fn eval_prompt_document_mdast(
    node: &MdNode,
    params: EvalPromptDocumentMdastParams,
    prompt_document_component_context: &mut PromptDocumentComponentContext,
) -> (r: Result<String, PromptEvalError>)
    ensures
        ({
            let step = prompt_step(*node, params, old(prompt_document_component_context)@);
            evaluates_as(r, step.0) && final(prompt_document_component_context)@ == step.1
        }),
    decreases node, 4nat,
{
    let result = eval_prompt_node(node, params, prompt_document_component_context)?;
    if params.is_directly_in_root {
        let copy = string_from_chars(&chars_of(result.as_str()));
        match trim_chunk(copy) {
            Ok(chunk) => {
                let _ = prompt_document_component_context.append_to_message(chunk);
            },
            Err(e) => {
                return Err(PromptEvalError::MissingChunkPrefix { chunk: e.chunk });
            },
        }
    }
    Ok(result)
}

/// Evaluates `children` one after another, telling each whether it is the
/// first.
pub fn eval_prompt_document_children(
    children: &Vec<MdNode>,
    params: EvalPromptDocumentMdastParams,
    prompt_document_component_context: &mut PromptDocumentComponentContext,
) -> (r: Result<String, PromptEvalError>)
    ensures
        ({
            let step = prompt_children_step(
                children@,
                params,
                old(prompt_document_component_context)@,
            );
            evaluates_as(r, step.0) && final(prompt_document_component_context)@ == step.1
        }),
    decreases children, 0nat,
{
    let ghost v0 = prompt_document_component_context@;
    let mut content = String::new();
    let mut is_first_child = true;
    let mut i: usize = 0;
    while i < children.len()
        invariant
            i <= children.len(),
            is_first_child == (i == 0),
            v0 == old(prompt_document_component_context)@,
            prompt_children_step(children@.take(i as int), params, v0) == (
                Ok::<Seq<char>, PromptEvalFailure>(content@),
                prompt_document_component_context@,
            ),
        decreases children.len() - i,
    {
        assert(children@.take(i + 1).drop_last() =~= children@.take(i as int));
        assert(children@.take(i + 1).last() == children@[i as int]);
        let ghost before = prompt_document_component_context@;
        let piece = eval_prompt_document_mdast(
            &children[i],
            params.child(is_first_child),
            prompt_document_component_context,
        );
        match piece {
            Ok(t) => {
                push_str(&mut content, t.as_str());
            },
            Err(e) => {
                proof {
                    let last = prompt_step(children@[i as int], params.spec_child(i == 0), before);
                    assert(prompt_children_step(children@.take(i + 1), params, v0) == last);
                    lemma_prompt_first_error_stays(children@, params, v0, i as int);
                }
                return Err(e);
            },
        }
        is_first_child = false;
        i = i + 1;
    }
    assert(children@.take(children.len() as int) =~= children@);
    Ok(content)
}

proof fn lemma_prompt_first_error_stays(
    nodes: Seq<MdNode>,
    p: EvalPromptDocumentMdastParams,
    v: PromptContextView,
    i: int,
)
    requires
        0 <= i < nodes.len(),
        prompt_children_step(nodes.take(i + 1), p, v).0 is Err,
    ensures
        prompt_children_step(nodes, p, v) == prompt_children_step(nodes.take(i + 1), p, v),
    decreases nodes.len(),
{
    if nodes.len() > i + 1 {
        assert(nodes.drop_last().take(i + 1) =~= nodes.take(i + 1));
        lemma_prompt_first_error_stays(nodes.drop_last(), p, v, i);
    } else {
        assert(nodes.take(i + 1) =~= nodes);
    }
}

} // verus!
