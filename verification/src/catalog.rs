use vstd::prelude::*;

use syntect::highlighting::ThemeSet;
use syntect::parsing::SyntaxReference;
use syntect::parsing::SyntaxSet;

verus! {

#[verifier::external_type_specification]
#[verifier::external_body]
pub struct ExSyntaxSet(SyntaxSet);

#[verifier::external_type_specification]
#[verifier::external_body]
pub struct ExSyntaxReference(SyntaxReference);

#[verifier::external_type_specification]
#[verifier::external_body]
pub struct ExThemeSet(ThemeSet);

/// What a syntax set holds: for each loaded grammar, in order, its name and
/// its recognized file extensions.
pub uninterp spec fn syntax_entries(ss: SyntaxSet) -> Seq<(Seq<char>, Seq<Seq<char>>)>;

/// The name of the grammar that `SyntaxSet::find_syntax_by_token` selects in
/// `ss` for a fence token, or `None` when no grammar of the set matches the
/// token by extension or by case-insensitive name.
pub uninterp spec fn found_syntax_name(ss: SyntaxSet, token: Seq<char>) -> Option<Seq<char>>;

/// The name of the grammar that `SyntaxSet::find_syntax_plain_text` returns
/// for `ss`.
pub uninterp spec fn plain_syntax_name(ss: SyntaxSet) -> Seq<char>;

/// What a grammar reference holds: the grammar's name.
pub uninterp spec fn syntax_name(sr: SyntaxReference) -> Seq<char>;

/// What a syntax set holds: whether this grammar reference is one of the
/// set's own grammars, as the set's lookups hand them out.  A highlighter
/// may only be built over a grammar of the very set it is given.
pub uninterp spec fn holds_grammar(ss: SyntaxSet, sr: SyntaxReference) -> bool;

/// What a theme set holds: the names of its themes, in ascending order.
pub uninterp spec fn theme_names(ts: ThemeSet) -> Seq<Seq<char>>;

/// The CSS stylesheet that `syntect::html::css_for_theme_with_class_style`
/// produces for the theme stored under `name` in `ts`, with every class name
/// carrying the given prefix.
pub uninterp spec fn theme_css(ts: ThemeSet, name: Seq<char>, prefix: Seq<char>) -> Seq<char>;

/// Whether the set holds the designated fallback grammar for text without a
/// recognized language.
pub open spec fn has_plain_text_grammar(ss: SyntaxSet) -> bool {
    exists|i: int|
        0 <= i < syntax_entries(ss).len() && syntax_entries(ss)[i].0 == "Plain Text"@
}

/// The grammar name the highlighter ends up using for a fence token: the
/// match that `find_syntax_by_token` yields, or the plain-text fallback.
pub open spec fn selected_syntax(ss: SyntaxSet, token: Seq<char>) -> Seq<char> {
    match found_syntax_name(ss, token) {
        Some(n) => n,
        None => plain_syntax_name(ss),
    }
}

/// The fixed prefix put on every class name the highlighter emits, so that
/// the classes cannot collide with surrounding page styles.
pub fn class_prefix() -> (r: &'static str)
    ensures
        r@ == "syn-"@,
{
    "syn-"
}

/// Relies on `syntect::parsing::SyntaxSet::load_defaults_newlines`: it loads
/// the bundled grammar dump, which holds the "Plain Text" grammar that
/// `find_syntax_plain_text` looks up by that exact name.
#[verifier::external_body]
fn load_default_syntaxes() -> (r: SyntaxSet)
    ensures
        has_plain_text_grammar(r),
{
    SyntaxSet::load_defaults_newlines()
}

/// Relies on `syntect::highlighting::ThemeSet::load_defaults`: it loads the
/// bundled color themes.
#[verifier::external_body]
fn load_default_themes() -> (r: ThemeSet)
    ensures
        theme_names(r).len() > 0,
{
    ThemeSet::load_defaults()
}

/// Relies on `syntect::parsing::SyntaxSet::find_syntax_by_token`: it selects
/// a grammar of the set by extension or by case-insensitive name, or yields
/// `None` when the token matches nothing.
#[verifier::external_body]
pub(crate) fn syntax_for_token<'s>(ss: &'s SyntaxSet, token: &str) -> (r: Option<
    &'s SyntaxReference,
>)
    ensures
        match r {
            Some(sr) => found_syntax_name(*ss, token@) == Some(syntax_name(*sr))
                && holds_grammar(*ss, *sr),
            None => found_syntax_name(*ss, token@) is None,
        },
{
    ss.find_syntax_by_token(token)
}

/// Relies on `syntect::parsing::SyntaxSet::find_syntax_plain_text`: it looks
/// up the grammar named "Plain Text" and panics when the set lacks one,
/// which the precondition rules out.
#[verifier::external_body]
pub(crate) fn plain_text_syntax<'s>(ss: &'s SyntaxSet) -> (r: &'s SyntaxReference)
    requires
        has_plain_text_grammar(*ss),
    ensures
        syntax_name(*r) == plain_syntax_name(*ss),
        holds_grammar(*ss, *r),
{
    ss.find_syntax_plain_text()
}

/// The model of one listed grammar entry.
pub open spec fn entry_view(p: (String, Vec<String>)) -> (Seq<char>, Seq<Seq<char>>) {
    (p.0@, p.1@.map_values(|e: String| e@))
}

/// Relies on `syntect::parsing::SyntaxSet::syntaxes`: it hands out the
/// loaded grammars in order; each is mapped to its name and extensions.
#[verifier::external_body]
fn syntax_entries_vec(ss: &SyntaxSet) -> (r: Vec<(String, Vec<String>)>)
    ensures
        r@.map_values(|p: (String, Vec<String>)| entry_view(p)) == syntax_entries(*ss),
{
    ss.syntaxes().iter().map(|s| (s.name.clone(), s.file_extensions.clone())).collect()
}

/// Relies on the public `themes` map of `syntect::highlighting::ThemeSet`,
/// a `BTreeMap` keyed by theme name: its keys come out in ascending order.
#[verifier::external_body]
fn theme_names_vec(ts: &ThemeSet) -> (r: Vec<String>)
    ensures
        r@.map_values(|s: String| s@) == theme_names(*ts),
{
    ts.themes.keys().cloned().collect()
}

/// Whether `needle` occurs in `hay` as a contiguous run.
pub open spec fn contains_seq(hay: Seq<char>, needle: Seq<char>) -> bool {
    exists|i: int|
        0 <= i && i + needle.len() <= hay.len() && #[trigger] hay.subrange(i, i + needle.len())
            == needle
}

/// Relies on the `themes` map of `syntect::highlighting::ThemeSet` and on
/// `syntect::html::css_for_theme_with_class_style`: the lookup succeeds
/// exactly for stored theme names, and the stylesheet is a function of the
/// stored theme and the class-name prefix.  The renderer always writes a
/// comment header first and then a rule for the `.{prefix}code` selector,
/// so the text is never empty and always holds that selector.  The
/// looked-up theme value goes straight into the CSS renderer and never
/// leaves this body.
#[verifier::external_body]
fn theme_css_lookup(ts: &ThemeSet, name: &str, prefix: &'static str) -> (r: Option<String>)
    ensures
        r is Some <==> theme_names(*ts).contains(name@),
        r matches Some(css) ==> css@ == theme_css(*ts, name@, prefix@),
        r matches Some(css) ==> css@.len() > 0 && contains_seq(css@, "."@ + prefix@ + "code"@),
{
    let style = syntect::html::ClassStyle::SpacedPrefixed { prefix };
    ts.themes.get(name).map(|t| syntect::html::css_for_theme_with_class_style(t, style))
}

/// The read-only registries of language grammars and color themes, loaded
/// once and passed to whatever needs them.
pub struct Catalog {
    pub syntaxes: SyntaxSet,
    pub themes: ThemeSet,
}

impl Catalog {
    /// A loaded catalog always holds the plain-text fallback grammar.
    pub open spec fn wf(self) -> bool {
        has_plain_text_grammar(self.syntaxes)
    }

    /// Loads the bundled grammars and themes.
    pub fn load() -> (r: Catalog)
        ensures
            r.wf(),
            theme_names(r.themes).len() > 0,
    {
        Catalog { syntaxes: load_default_syntaxes(), themes: load_default_themes() }
    }

    /// Every loaded grammar, in order, with its name and its recognized file
    /// extensions.
    pub fn list_syntaxes(&self) -> (r: Vec<(String, Vec<String>)>)
        ensures
            r@.map_values(|p: (String, Vec<String>)| entry_view(p)) == syntax_entries(
                self.syntaxes,
            ),
    {
        syntax_entries_vec(&self.syntaxes)
    }

    /// The names of every loaded theme, in ascending order.
    pub fn list_themes(&self) -> (r: Vec<String>)
        ensures
            r@.map_values(|s: String| s@) == theme_names(self.themes),
    {
        theme_names_vec(&self.themes)
    }

    /// The CSS stylesheet for the named theme: non-empty text holding the
    /// prefixed `.syn-code` selector among its rules.  An unknown theme
    /// name yields empty text — a silent no-op, not an error.
    pub fn render_css(&self, theme: &str) -> (r: String)
        ensures
            theme_names(self.themes).contains(theme@) ==> r@ == theme_css(
                self.themes,
                theme@,
                "syn-"@,
            ),
            theme_names(self.themes).contains(theme@) ==> r@.len() > 0 && contains_seq(
                r@,
                "."@ + "syn-"@ + "code"@,
            ),
            !theme_names(self.themes).contains(theme@) ==> r@ == Seq::<char>::empty(),
    {
        match theme_css_lookup(&self.themes, theme, class_prefix()) {
            Some(css) => css,
            None => String::new(),
        }
    }
}

} // verus!
