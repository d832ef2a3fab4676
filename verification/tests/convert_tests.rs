use enerator::catalog::Catalog;
use enerator::convert::convert;

#[test]
fn prose_and_one_python_block_give_three_elements() {
    let cat = Catalog::load();
    let input = "before text\n\n```python\nprint(1)\n```\n\nafter text\n";
    let out = convert(&cat, input);
    assert_eq!(out.matches("<p>").count(), 2);
    assert_eq!(out.matches("<pre><code>").count(), 1);
    let before = out.find("<p>before text</p>").expect("leading paragraph");
    let block = out.find("<pre><code>").expect("highlighted block");
    let after = out.find("<p>after text</p>").expect("trailing paragraph");
    assert!(before < block && block < after);
    assert!(out.contains("print"));
    assert!(out.contains('1'));
    assert!(out.contains("syn-"));
}

#[test]
fn plain_paragraphs_round_trip_to_the_plain_render() {
    let cat = Catalog::load();
    let input = "hello world\n\na second paragraph with *emphasis*\n";
    let out = convert(&cat, input);
    let opts = pulldown_cmark::Options::ENABLE_STRIKETHROUGH
        | pulldown_cmark::Options::ENABLE_TABLES
        | pulldown_cmark::Options::ENABLE_SMART_PUNCTUATION;
    let mut expected = String::new();
    pulldown_cmark::html::push_html(
        &mut expected,
        pulldown_cmark::Parser::new_ext(input, opts),
    );
    assert_eq!(out, expected);
}

#[test]
fn empty_fenced_block_leaves_no_element() {
    let cat = Catalog::load();
    let out = convert(&cat, "```python\n```\n");
    assert!(!out.contains("<pre"));
    assert!(!out.contains("<code"));
}

#[test]
fn unknown_fence_language_still_renders_pre_code() {
    let cat = Catalog::load();
    let out = convert(&cat, "```zzznotalanguage\nsome text\n```\n");
    assert_eq!(out.matches("<pre><code>").count(), 1);
    assert!(out.contains("some text"));
}

#[test]
fn smart_punctuation_is_enabled() {
    let cat = Catalog::load();
    let out = convert(&cat, "don't\n");
    assert!(out.contains('\u{2019}'));
}

#[test]
fn strikethrough_is_enabled() {
    let cat = Catalog::load();
    let out = convert(&cat, "~~gone~~\n");
    assert!(out.contains("<del>"));
}
