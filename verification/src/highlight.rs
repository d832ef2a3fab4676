use vstd::prelude::*;

use crate::catalog::class_prefix;
use crate::catalog::has_plain_text_grammar;
use crate::catalog::holds_grammar;
use crate::catalog::plain_text_syntax;
use crate::catalog::selected_syntax;
use crate::catalog::syntax_for_token;
use crate::catalog::syntax_name;
use crate::lines::line_split;
use crate::lines::split_lines;
use crate::lines::str_views;
use syntect::html::ClassedHTMLGenerator;
use syntect::parsing::SyntaxReference;
use syntect::parsing::SyntaxSet;

verus! {

#[verifier::external_type_specification]
#[verifier::external_body]
pub struct ExClassedHTMLGenerator<'a>(ClassedHTMLGenerator<'a>);

/// What a generator holds: the syntax set it resolves grammar contexts in.
pub uninterp spec fn gen_set(g: ClassedHTMLGenerator) -> SyntaxSet;

/// What a generator holds: the name of the grammar it tokenizes with.
pub uninterp spec fn gen_grammar(g: ClassedHTMLGenerator) -> Seq<char>;

/// What a generator holds: the prefix its class style puts on every class
/// name.
pub uninterp spec fn gen_prefix(g: ClassedHTMLGenerator) -> Seq<char>;

/// What a generator holds: the lines fed to it so far, in order.
pub uninterp spec fn gen_lines(g: ClassedHTMLGenerator) -> Seq<Seq<char>>;

/// Whether the generator was built over a grammar of its own syntax set, as
/// that set's lookups hand it out.  Only such generators may tokenize:
/// syntect resolves a grammar's contexts by index into the set, so a
/// mismatched pair would tokenize wrongly or panic.
pub uninterp spec fn gen_wf(g: ClassedHTMLGenerator) -> bool;

/// The classed markup that `ClassedHTMLGenerator::finalize` produces after
/// the given lines, in order, went through a generator built over the set's
/// grammar of that name, with the given class-name prefix.
pub uninterp spec fn classed_html(
    ss: SyntaxSet,
    grammar: Seq<char>,
    prefix: Seq<char>,
    lines: Seq<Seq<char>>,
) -> Seq<char>;

/// Relies on `syntect::html::ClassedHTMLGenerator::new_with_class_style`:
/// the fresh generator tokenizes with the given grammar of the given set,
/// has seen no line, and prefixes every class name with the given prefix.
#[verifier::external_body]
fn new_generator<'a>(syntax: &'a SyntaxReference, ss: &'a SyntaxSet, prefix: &'static str) -> (g:
    ClassedHTMLGenerator<'a>)
    requires
        holds_grammar(*ss, *syntax),
    ensures
        gen_wf(g),
        gen_set(g) == *ss,
        gen_grammar(g) == syntax_name(*syntax),
        gen_prefix(g) == prefix@,
        gen_lines(g) == Seq::<Seq<char>>::empty(),
{
    let style = syntect::html::ClassStyle::SpacedPrefixed { prefix };
    ClassedHTMLGenerator::new_with_class_style(syntax, ss, style)
}

/// Relies on `syntect::html::ClassedHTMLGenerator::parse_html_for_line`: it
/// tokenizes one more line, carrying the parse state of the earlier lines,
/// and changes nothing else about the generator.  Tokenizing resolves
/// contexts in the generator's set, so only a well-formed generator is
/// admitted.
#[verifier::external_body]
#[allow(deprecated)]
fn generator_add_line(g: &mut ClassedHTMLGenerator, line: &str)
    requires
        gen_wf(*old(g)),
    ensures
        gen_wf(*final (g)),
        gen_set(*final (g)) == gen_set(*old(g)),
        gen_grammar(*final (g)) == gen_grammar(*old(g)),
        gen_prefix(*final (g)) == gen_prefix(*old(g)),
        gen_lines(*final (g)) == gen_lines(*old(g)).push(line@),
{
    g.parse_html_for_line(line);
}

/// Relies on `syntect::html::ClassedHTMLGenerator::finalize`: it closes the
/// open spans and hands back markup that, for a well-formed generator,
/// depends only on the set, the grammar's name, the class-name prefix and
/// the lines fed in order.
#[verifier::external_body]
fn generator_finalize(g: ClassedHTMLGenerator) -> (r: String)
    requires
        gen_wf(g),
    ensures
        r@ == classed_html(gen_set(g), gen_grammar(g), gen_prefix(g), gen_lines(g)),
{
    g.finalize()
}

/// Wraps highlighted markup in the fixed shell every fenced block renders
/// into.
pub open spec fn pre_code(inner: Seq<char>) -> Seq<char> {
    "<pre><code>"@ + inner + "</code></pre>"@
}

/// Builds the block shell around already-highlighted markup.
pub fn wrap_pre_code(inner: &str) -> (r: String)
    ensures
        r@ == pre_code(inner@),
{
    let mut out = String::from_str("<pre><code>");
    out.append(inner);
    out.append("</code></pre>");
    out
}

/// The classed markup a fenced block's text ends up as: the lines of the
/// text go, in order, through a generator over the grammar selected for the
/// fence token, with the fixed class-name prefix.
pub open spec fn block_highlight(ss: SyntaxSet, token: Seq<char>, text: Seq<char>) -> Seq<char> {
    classed_html(ss, selected_syntax(ss, token), "syn-"@, line_split(text))
}

/// Highlights one fenced block's text: the grammar is selected by the fence
/// token, falling back to plain text, and each line is tokenized in textual
/// order, so that multi-line constructs keep their parse state.
pub fn highlight_block(ss: &SyntaxSet, token: &str, text: &str) -> (r: String)
    requires
        has_plain_text_grammar(*ss),
    ensures
        r@ == block_highlight(*ss, token@, text@),
{
    let syntax = match syntax_for_token(ss, token) {
        Some(sr) => sr,
        None => plain_text_syntax(ss),
    };
    let lines = split_lines(text);
    let mut g = new_generator(syntax, ss, class_prefix());
    let mut i: usize = 0;
    while i < lines.len()
        invariant
            gen_wf(g),
            gen_set(g) == *ss,
            gen_grammar(g) == selected_syntax(*ss, token@),
            gen_prefix(g) == "syn-"@,
            gen_lines(g) == str_views(lines@).take(i as int),
            str_views(lines@) == line_split(text@),
            i <= lines.len(),
        decreases lines.len() - i,
    {
        generator_add_line(&mut g, lines[i].as_str());
        proof {
            assert(str_views(lines@).take(i + 1) =~= str_views(lines@).take(i as int).push(
                lines@[i as int]@,
            ));
        }
        i = i + 1;
    }
    proof {
        assert(str_views(lines@).take(i as int) =~= str_views(lines@));
    }
    generator_finalize(g)
}

} // verus!
