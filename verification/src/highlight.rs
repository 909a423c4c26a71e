//! Syntax highlighting of code blocks, with syntect's classed HTML.

use vstd::prelude::*;

use syntect::html::ClassStyle;
use syntect::html::ClassedHTMLGenerator;
use syntect::parsing::SyntaxReference;
use syntect::parsing::SyntaxSet;

verus! {

#[verifier::external_type_specification]
#[verifier::external_body]
pub struct ExSyntaxSet(SyntaxSet);

#[verifier::external_type_specification]
#[verifier::external_body]
pub struct ExSyntaxReference(SyntaxReference);

#[verifier::external_type_specification]
#[verifier::external_body]
pub struct ExClassedHTMLGenerator<'a>(ClassedHTMLGenerator<'a>);

/// The syntax that `SyntaxSet::find_syntax_by_token` of syntect finds in
/// `syntax_set` for the language name or extension `token`: the last syntax
/// with `token` among its file extensions, else the last one so named, both
/// ignoring ASCII case; none where there is neither.
pub uninterp spec fn found_syntax(syntax_set: SyntaxSet, token: Seq<char>) -> Option<SyntaxReference>;

/// The syntax that a `ClassedHTMLGenerator` highlights with.
pub uninterp spec fn generator_syntax(generator: ClassedHTMLGenerator) -> SyntaxReference;

/// The syntax set that a `ClassedHTMLGenerator` reads.
pub uninterp spec fn generator_syntax_set(generator: ClassedHTMLGenerator) -> SyntaxSet;

/// The lines that a `ClassedHTMLGenerator` has highlighted, in order.
pub uninterp spec fn generator_lines(generator: ClassedHTMLGenerator) -> Seq<Seq<char>>;

/// The message with which syntect's parser, in the state that highlighting
/// the lines `fed` with `syntax` of `syntax_set` left it in, fails on
/// `line`; none where it parses the line.
pub uninterp spec fn line_failure(
    syntax_set: SyntaxSet,
    syntax: SyntaxReference,
    fed: Seq<Seq<char>>,
    line: Seq<char>,
) -> Option<Seq<char>>;

/// The classed HTML, every span closed, that syntect writes for the lines
/// `lines` highlighted with `syntax` of `syntax_set`.
pub uninterp spec fn classed_html(
    syntax_set: SyntaxSet,
    syntax: SyntaxReference,
    lines: Seq<Seq<char>>,
) -> Seq<char>;

/// `SyntaxSet::find_syntax_by_token` of syntect: the syntax of `syntax_set`
/// that the language name or extension `token` names, if any, as
/// `found_syntax` says.
#[verifier::external_body]
fn find_syntax<'a>(syntax_set: &'a SyntaxSet, token: &str) -> (r: Option<&'a SyntaxReference>)
    ensures
        r is Some <==> found_syntax(*syntax_set, token@) is Some,
        r matches Some(s) ==> found_syntax(*syntax_set, token@) == Some(*s),
{
    syntax_set.find_syntax_by_token(token)
}

/// `ClassedHTMLGenerator::new_with_class_style` of syntect, with spaced
/// class names: a highlighter of `syntax` that has highlighted no line yet.
#[verifier::external_body]
fn classed_html_generator<'a>(
    syntax: &'a SyntaxReference,
    syntax_set: &'a SyntaxSet,
) -> (r: ClassedHTMLGenerator<'a>)
    ensures
        generator_syntax(r) == *syntax,
        generator_syntax_set(r) == *syntax_set,
        generator_lines(r) == Seq::<Seq<char>>::empty(),
{
    ClassedHTMLGenerator::new_with_class_style(syntax, syntax_set, ClassStyle::Spaced)
}

/// `ClassedHTMLGenerator::parse_html_for_line_which_includes_newline` of
/// syntect: highlights one more line, ending with its newline where it has
/// one. It fails, with the parser's message, exactly where `line_failure`
/// says; where it succeeds, the line is added to those highlighted. What
/// a failed call leaves in the generator is not stated.
#[verifier::external_body]
fn highlight_line(generator: &mut ClassedHTMLGenerator, line: &str) -> (r: Result<(), String>)
    ensures
        r is Err <==> line_failure(
            generator_syntax_set(*old(generator)),
            generator_syntax(*old(generator)),
            generator_lines(*old(generator)),
            line@,
        ) is Some,
        r matches Err(m) ==> line_failure(
            generator_syntax_set(*old(generator)),
            generator_syntax(*old(generator)),
            generator_lines(*old(generator)),
            line@,
        ) == Some(m@),
        r is Ok ==> generator_syntax(*final(generator)) == generator_syntax(*old(generator)),
        r is Ok ==> generator_syntax_set(*final(generator)) == generator_syntax_set(*old(generator)),
        r is Ok ==> generator_lines(*final(generator)) == generator_lines(*old(generator)).push(line@),
{
    generator.parse_html_for_line_which_includes_newline(line).map_err(|e| e.to_string())
}

/// `ClassedHTMLGenerator::finalize` of syntect: the HTML written for the
/// lines highlighted, with every span closed.
#[verifier::external_body]
fn finish_highlighting(generator: ClassedHTMLGenerator) -> (r: String)
    ensures
        r@ == classed_html(
            generator_syntax_set(generator),
            generator_syntax(generator),
            generator_lines(generator),
        ),
{
    generator.finalize()
}

/// The lines of `s`, each with the `'\n'` that ends it; the last one ends
/// without it where `s` does not end in one.
pub open spec fn lines_with_endings(s: Seq<char>) -> Seq<Seq<char>>
    decreases s.len(),
{
    if s.len() == 0 {
        Seq::empty()
    } else {
        let end = crate::text::line_end(s);
        if end < s.len() {
            seq![s.subrange(0, end as int + 1)] + lines_with_endings(s.subrange(end as int + 1, s.len() as int))
        } else {
            seq![s]
        }
    }
}

/// `syntect::util::LinesWithEndings`, collected: the lines of `code`, each
/// with its line ending.
#[verifier::external_body]
fn split_lines_with_endings(code: &str) -> (r: Vec<String>)
    ensures
        r@.map_values(|l: String| l@) == lines_with_endings(code@),
{
    syntect::util::LinesWithEndings::from(code).map(|line| line.to_string()).collect()
}

/// The first failure of syntect's parser when the lines `lines` are
/// highlighted in order with `syntax` of `syntax_set`; none where every line
/// parses.
pub open spec fn feed_failure(
    syntax_set: SyntaxSet,
    syntax: SyntaxReference,
    lines: Seq<Seq<char>>,
) -> Option<Seq<char>>
    decreases lines.len(),
{
    if lines.len() == 0 {
        None
    } else {
        match feed_failure(syntax_set, syntax, lines.drop_last()) {
            Some(m) => Some(m),
            None => line_failure(syntax_set, syntax, lines.drop_last(), lines.last()),
        }
    }
}

/// What highlighting `code` in the language `lang` gives: none where
/// `syntax_set` has no syntax for `lang`; else the first line's failure, or
/// the classed HTML of all the lines of `code`, each with its ending.
pub open spec fn highlight_result(
    syntax_set: SyntaxSet,
    lang: Seq<char>,
    code: Seq<char>,
) -> Option<Result<Seq<char>, Seq<char>>> {
    match found_syntax(syntax_set, lang) {
        None => None,
        Some(syntax) => {
            let lines = lines_with_endings(code);
            match feed_failure(syntax_set, syntax, lines) {
                Some(m) => Some(Err(m)),
                None => Some(Ok(classed_html(syntax_set, syntax, lines))),
            }
        },
    }
}

/// A highlighting outcome, its strings taken by their characters.
pub open spec fn highlight_view(h: Option<Result<String, String>>) -> Option<Result<Seq<char>, Seq<char>>> {
    match h {
        None => None,
        Some(Ok(html)) => Some(Ok(html@)),
        Some(Err(m)) => Some(Err(m@)),
    }
}

/// The classed HTML of `code` in the language `lang`, line by line: none
/// where `syntax_set` has no syntax for `lang`, and the highlighter's message
/// where a line fails.
pub fn highlight_code(syntax_set: &SyntaxSet, lang: &str, code: &str) -> (r: Option<
    Result<String, String>,
>)
    ensures
        highlight_view(r) == highlight_result(*syntax_set, lang@, code@),
{
    let syntax = match find_syntax(syntax_set, lang) {
        Some(syntax) => syntax,
        None => {
            return None;
        },
    };
    let ghost all = lines_with_endings(code@);
    let mut generator = classed_html_generator(syntax, syntax_set);
    let lines = split_lines_with_endings(code);
    let mut i: usize = 0;
    while i < lines.len()
        invariant
            i <= lines.len(),
            lines@.map_values(|l: String| l@) == all,
            all == lines_with_endings(code@),
            found_syntax(*syntax_set, lang@) == Some(*syntax),
            generator_syntax(generator) == *syntax,
            generator_syntax_set(generator) == *syntax_set,
            generator_lines(generator) == all.take(i as int),
            feed_failure(*syntax_set, *syntax, all.take(i as int)) is None,
        decreases lines.len() - i,
    {
        let ghost before = generator_lines(generator);
        proof {
            assert(all.take(i + 1).drop_last() =~= all.take(i as int));
            assert(all.take(i + 1).last() == lines@[i as int]@);
        }
        match highlight_line(&mut generator, lines[i].as_str()) {
            Ok(()) => {},
            Err(message) => {
                proof {
                    assert(all.take(i + 1) =~= all.take(i as int).push(all[i as int]));
                    lemma_first_feed_failure_stays(*syntax_set, *syntax, all, i + 1);
                }
                return Some(Err(message));
            },
        }
        assert(generator_lines(generator) =~= all.take(i + 1));
        i = i + 1;
    }
    assert(all.take(i as int) =~= all);
    Some(Ok(finish_highlighting(generator)))
}

/// A failure met feeding the first `k` lines is the first failure of all.
proof fn lemma_first_feed_failure_stays(
    syntax_set: SyntaxSet,
    syntax: SyntaxReference,
    lines: Seq<Seq<char>>,
    k: int,
)
    requires
        0 <= k <= lines.len(),
        feed_failure(syntax_set, syntax, lines.take(k)) is Some,
    ensures
        feed_failure(syntax_set, syntax, lines) == feed_failure(syntax_set, syntax, lines.take(k)),
    decreases lines.len(),
{
    if lines.len() > k {
        assert(lines.drop_last().take(k) =~= lines.take(k));
        lemma_first_feed_failure_stays(syntax_set, syntax, lines.drop_last(), k);
    } else {
        assert(lines.take(k) =~= lines);
    }
}

} // verus!
