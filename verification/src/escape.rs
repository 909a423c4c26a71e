//! HTML escaping, as `rhai_components` does it.

use vstd::prelude::*;

verus! {

/// How `escape_html` writes one character.
pub open spec fn escape_html_char(c: char) -> Seq<char> {
    if c == '&' {
        seq!['&', 'a', 'm', 'p', ';']
    } else if c == '<' {
        seq!['&', 'l', 't', ';']
    } else if c == '>' {
        seq!['&', 'g', 't', ';']
    } else if c == '"' {
        seq!['&', 'q', 'u', 'o', 't', ';']
    } else if c == '\'' {
        seq!['&', '#', 'x', '2', '7', ';']
    } else if c == '/' {
        seq!['&', '#', 'x', '2', 'F', ';']
    } else {
        seq![c]
    }
}

/// `s` escaped for the text of an HTML element.
pub open spec fn escaped_html(s: Seq<char>) -> Seq<char>
    decreases s.len(),
{
    if s.len() == 0 {
        Seq::empty()
    } else {
        escaped_html(s.drop_last()) + escape_html_char(s.last())
    }
}

/// How `escape_html_attribute` writes one character.
pub open spec fn escape_attribute_char(c: char) -> Seq<char> {
    if c == '"' {
        seq!['&', 'q', 'u', 'o', 't', ';']
    } else {
        seq![c]
    }
}

/// `s` escaped for a double-quoted HTML attribute value: only `"` changes.
pub open spec fn escaped_attribute(s: Seq<char>) -> Seq<char>
    decreases s.len(),
{
    if s.len() == 0 {
        Seq::empty()
    } else {
        escaped_attribute(s.drop_last()) + escape_attribute_char(s.last())
    }
}

/// `rhai_components::escape_html::escape_html`: replaces `&`, `<`, `>`, `"`,
/// `'` and `/` by their entities and keeps every other character.
#[verifier::external_body]
pub(crate) fn escape_html(input: &str) -> (r: String)
    ensures
        r@ == escaped_html(input@),
{
    rhai_components::escape_html::escape_html(input)
}

/// `rhai_components::escape_html_attribute::escape_html_attribute`: replaces
/// `"` by `&quot;` and keeps every other character.
#[verifier::external_body]
pub(crate) fn escape_html_attribute(input: &str) -> (r: String)
    ensures
        r@ == escaped_attribute(input@),
{
    rhai_components::escape_html_attribute::escape_html_attribute(input)
}

/// Text without `"` needs no escaping in an attribute.
pub proof fn lemma_attribute_escape_keeps_quote_free_text(s: Seq<char>)
    requires
        forall|i: int| 0 <= i < s.len() ==> #[trigger] s[i] != '"',
    ensures
        escaped_attribute(s) == s,
    decreases s.len(),
{
    if s.len() > 0 {
        lemma_attribute_escape_keeps_quote_free_text(s.drop_last());
        assert(s.drop_last() + seq![s.last()] =~= s);
    }
}

/// Escaping distributes over concatenation.
pub proof fn lemma_escapes_distribute(a: Seq<char>, b: Seq<char>)
    ensures
        escaped_html(a + b) == escaped_html(a) + escaped_html(b),
        escaped_attribute(a + b) == escaped_attribute(a) + escaped_attribute(b),
    decreases b.len(),
{
    if b.len() > 0 {
        lemma_escapes_distribute(a, b.drop_last());
        assert((a + b).drop_last() =~= a + b.drop_last());
        assert((a + b).last() == b.last());
    } else {
        assert(a + b =~= a);
    }
}

} // verus!
