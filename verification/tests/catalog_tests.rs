use enerator::catalog::Catalog;

#[test]
fn themes_are_listed_in_ascending_order() {
    let cat = Catalog::load();
    let names = cat.list_themes();
    assert!(!names.is_empty());
    assert!(names.iter().any(|n| n == "InspiredGitHub"));
    for pair in names.windows(2) {
        assert!(pair[0] < pair[1]);
    }
}

#[test]
fn syntaxes_are_listed_with_extensions() {
    let cat = Catalog::load();
    let entries = cat.list_syntaxes();
    assert!(!entries.is_empty());
    let rust = entries.iter().find(|(name, _)| name == "Rust").expect("bundled grammar");
    assert!(rust.1.iter().any(|e| e == "rs"));
    assert!(entries.iter().any(|(name, _)| name == "Plain Text"));
}

#[test]
fn render_css_for_known_theme_has_prefixed_selectors() {
    let cat = Catalog::load();
    let css = cat.render_css("InspiredGitHub");
    assert!(!css.is_empty());
    assert!(css.contains(".syn-"));
}

#[test]
fn render_css_for_unknown_theme_is_empty() {
    let cat = Catalog::load();
    let css = cat.render_css("nonexistent");
    assert_eq!(css, "");
}
