use enerator::catalog::Catalog;
use enerator::intercept::intercept;
use enerator::MdEvent;

fn text(s: &str) -> MdEvent<u32> {
    MdEvent::Text(String::from(s))
}

fn start(token: &str) -> MdEvent<u32> {
    MdEvent::CodeStart(String::from(token))
}

#[test]
fn no_code_blocks_pass_through() {
    let cat = Catalog::load();
    let events: Vec<MdEvent<u32>> =
        vec![MdEvent::Other(7), text("hello"), MdEvent::Other(9), text("world")];
    let out = intercept(&cat, events.clone());
    assert_eq!(out, events);
}

#[test]
fn empty_input_stays_empty() {
    let cat = Catalog::load();
    let out = intercept(&cat, Vec::<MdEvent<u32>>::new());
    assert_eq!(out, Vec::new());
}

#[test]
fn empty_block_vanishes() {
    let cat = Catalog::load();
    let events = vec![MdEvent::Other(1), start("python"), MdEvent::CodeEnd, MdEvent::Other(2)];
    let out = intercept(&cat, events);
    assert_eq!(out, vec![MdEvent::Other(1), MdEvent::Other(2)]);
}

#[test]
fn block_collapses_to_single_html_event() {
    let cat = Catalog::load();
    let events = vec![
        text("before"),
        start("rs"),
        text("fn main() {}\n"),
        MdEvent::CodeEnd,
        text("after"),
    ];
    let out = intercept(&cat, events);
    assert_eq!(out.len(), 3);
    assert_eq!(out[0], text("before"));
    assert_eq!(out[2], text("after"));
    match &out[1] {
        MdEvent::Html(h) => {
            assert!(h.starts_with("<pre><code>"));
            assert!(h.ends_with("</code></pre>"));
            assert!(h.contains("main"));
            assert!(h.contains("syn-"));
        }
        other => panic!("expected a literal-HTML event, got {:?}", other),
    }
}

#[test]
fn unknown_language_still_wraps_in_pre_code() {
    let cat = Catalog::load();
    let events: Vec<MdEvent<u32>> =
        vec![start("zzznotalanguage"), text("hello world\n"), MdEvent::CodeEnd];
    let out = intercept(&cat, events);
    assert_eq!(out.len(), 1);
    match &out[0] {
        MdEvent::Html(h) => {
            assert!(h.starts_with("<pre><code>"));
            assert!(h.ends_with("</code></pre>"));
            assert!(h.contains("hello world"));
        }
        other => panic!("expected a literal-HTML event, got {:?}", other),
    }
}

#[test]
fn text_events_buffer_in_order_and_none_survives() {
    let cat = Catalog::load();
    let events: Vec<MdEvent<u32>> = vec![
        start("py"),
        text("print(1)\n"),
        text("print(2)\n"),
        MdEvent::CodeEnd,
    ];
    let out = intercept(&cat, events);
    assert_eq!(out.len(), 1);
    match &out[0] {
        MdEvent::Html(h) => {
            let first = h.find("print").expect("first line highlighted");
            let second = h.rfind("print").expect("second line highlighted");
            assert!(first < second);
            assert!(h.contains('1'));
            assert!(h.contains('2'));
        }
        other => panic!("expected a literal-HTML event, got {:?}", other),
    }
}

#[test]
fn buffer_clears_between_blocks() {
    let cat = Catalog::load();
    let events: Vec<MdEvent<u32>> = vec![
        start("py"),
        text("print(1)\n"),
        MdEvent::CodeEnd,
        start("py"),
        text("print(2)\n"),
        MdEvent::CodeEnd,
    ];
    let out = intercept(&cat, events);
    assert_eq!(out.len(), 2);
    match (&out[0], &out[1]) {
        (MdEvent::Html(h1), MdEvent::Html(h2)) => {
            assert!(h1.contains('1'));
            assert!(!h1.contains('2'));
            assert!(h2.contains('2'));
            assert!(!h2.contains('1'));
        }
        other => panic!("expected two literal-HTML events, got {:?}", other),
    }
}

#[test]
fn unlabeled_block_text_is_forwarded() {
    let cat = Catalog::load();
    let events: Vec<MdEvent<u32>> = vec![start(""), text("not highlighted"), MdEvent::CodeEnd];
    let out = intercept(&cat, events);
    assert_eq!(out, vec![text("not highlighted")]);
}
