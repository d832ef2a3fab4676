use vstd::prelude::*;

verus! {

/// One structural event of a Markdown document, as the code-block
/// interceptor sees it.
///
/// The interceptor only ever inspects the start of a code block (with its
/// fence token), the end of a code block, text nodes, and literal HTML
/// fragments.  Every other structural event is carried through untouched in
/// the `Other` variant, whose payload type `T` the interceptor never looks
/// at.
#[derive(Debug, Clone, PartialEq, Eq)]
pub enum MdEvent<T> {
    /// Start of a code block; the field is the fence's language token.
    /// It is empty when the fence declares no language and for indented
    /// code blocks.
    CodeStart(String),
    /// End of a code block.
    CodeEnd,
    /// A text node.
    Text(String),
    /// A literal HTML fragment, emitted verbatim by the renderer.
    Html(String),
    /// Any other structural event, forwarded unchanged.
    Other(T),
}

/// The mathematical model of an event: each string is seen as its sequence
/// of characters, and a pass-through payload stays as it is.
pub enum EvModel<T> {
    CodeStart(Seq<char>),
    CodeEnd,
    Text(Seq<char>),
    Html(Seq<char>),
    Other(T),
}

impl<T> View for MdEvent<T> {
    type V = EvModel<T>;

    open spec fn view(&self) -> EvModel<T> {
        match self {
            MdEvent::CodeStart(t) => EvModel::CodeStart(t@),
            MdEvent::CodeEnd => EvModel::CodeEnd,
            MdEvent::Text(s) => EvModel::Text(s@),
            MdEvent::Html(s) => EvModel::Html(s@),
            MdEvent::Other(x) => EvModel::Other(*x),
        }
    }
}

/// The models of a sequence of events, elementwise.
pub open spec fn event_views<T>(s: Seq<MdEvent<T>>) -> Seq<EvModel<T>> {
    s.map_values(|e: MdEvent<T>| e@)
}

} // verus!
