use vstd::prelude::*;

use crate::catalog::Catalog;
use crate::events::event_views;
use crate::events::EvModel;
use crate::events::MdEvent;
use crate::intercept::intercept;
use crate::intercept::intercept_model;
use pulldown_cmark::CodeBlockKind;
use pulldown_cmark::Event;
use pulldown_cmark::Options;
use pulldown_cmark::Parser;
use pulldown_cmark::Tag;
use pulldown_cmark::TagEnd;

verus! {

#[verifier::external_type_specification]
#[verifier::external_body]
pub struct ExEvent<'a>(Event<'a>);

/// The event sequence that the CommonMark parser, with strikethrough,
/// tables and smart punctuation enabled, yields for a document — with
/// code-block starts, code-block ends and text nodes told apart, and every
/// other event carried as an owned pass-through payload.
pub uninterp spec fn md_events(input: Seq<char>) -> Seq<EvModel<Event<'static>>>;

/// The HTML text that the serializer produces for an event sequence.
pub uninterp spec fn rendered(evs: Seq<EvModel<Event<'static>>>) -> Seq<char>;

/// Relies on `pulldown_cmark::Parser::new_ext`: it parses the document by
/// the CommonMark grammar with strikethrough, tables and smart punctuation
/// enabled, and yields the structural events in document order,
/// deterministically.  A fenced block starts with its fence token; an
/// indented block counts as one with no declared language, so its text is
/// forwarded bare downstream and its `<pre><code>` shell is lost — the
/// interceptor treats only blocks with a non-empty token as active.
#[verifier::external_body]
fn parse_markdown(input: &str) -> (r: Vec<MdEvent<Event<'static>>>)
    ensures
        event_views(r@) == md_events(input@),
{
    let opts = Options::ENABLE_STRIKETHROUGH | Options::ENABLE_TABLES
        | Options::ENABLE_SMART_PUNCTUATION;
    Parser::new_ext(input, opts).map(|ev| match ev {
        Event::Start(Tag::CodeBlock(CodeBlockKind::Fenced(t))) => MdEvent::CodeStart(
            t.into_string(),
        ),
        Event::Start(Tag::CodeBlock(CodeBlockKind::Indented)) => MdEvent::CodeStart(String::new()),
        Event::End(TagEnd::CodeBlock) => MdEvent::CodeEnd,
        Event::Text(t) => MdEvent::Text(t.into_string()),
        e => MdEvent::Other(e.into_static()),
    }).collect()
}

/// Relies on `pulldown_cmark::html::push_html`: it serializes the events
/// into one HTML string, deterministically, writing literal-HTML fragments
/// through verbatim.
#[verifier::external_body]
fn render_events(events: Vec<MdEvent<Event<'static>>>) -> (r: String)
    ensures
        r@ == rendered(event_views(events@)),
{
    let mut out = String::new();
    pulldown_cmark::html::push_html(&mut out, events.into_iter().map(|ev| match ev {
        MdEvent::CodeStart(t) => Event::Start(Tag::CodeBlock(CodeBlockKind::Fenced(t.into()))),
        MdEvent::CodeEnd => Event::End(TagEnd::CodeBlock),
        MdEvent::Text(t) => Event::Text(t.into()),
        MdEvent::Html(h) => Event::Html(h.into()),
        MdEvent::Other(e) => e,
    }));
    out
}

/// Converts one Markdown document to an HTML fragment: the document is
/// parsed to events, every fenced code block with a declared language and
/// non-empty text collapses into a single highlighted `<pre><code>` block,
/// and the rewritten events are serialized.
pub fn convert(cat: &Catalog, input: &str) -> (r: String)
    requires
        cat.wf(),
    ensures
        r@ == rendered(intercept_model(cat.syntaxes, md_events(input@))),
{
    let events = parse_markdown(input);
    let rewritten = intercept(cat, events);
    render_events(rewritten)
}

} // verus!
