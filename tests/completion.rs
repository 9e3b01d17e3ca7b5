use css_class_lsp::completion::complete;
use css_class_lsp::frameworks::bootstrap5_classes;
use css_class_lsp::index::ClassIndex;
use css_class_lsp::position::Position;

fn pos(line: u32, character: u32) -> Position {
    Position { line, character }
}

#[test]
fn complete_empty_prefix_returns_all_sorted() {
    let vocab = bootstrap5_classes();
    let mut idx = ClassIndex::new();
    idx.upsert("site.css".to_string(), vec!["btn-primary-emphasis".to_string()]);
    let r = complete("<div class=\"btn \">", pos(0, 16), &vocab, &idx).unwrap();
    assert!(r.windows(2).all(|w| w[0] < w[1]));
    assert_eq!(r.len(), vocab.len() + 1);
    let a = r.iter().position(|c| c == "btn-primary").unwrap();
    let b = r.iter().position(|c| c == "btn-primary-emphasis").unwrap();
    assert!(a < b);
}

#[test]
fn complete_filters_by_prefix() {
    let vocab = bootstrap5_classes();
    let idx = ClassIndex::new();
    let r = complete("<div class=\"btn-p\">", pos(0, 17), &vocab, &idx).unwrap();
    assert!(r.iter().all(|c| c.starts_with("btn-p")));
    assert!(r.contains(&"btn-primary".to_string()));
    assert!(!r.contains(&"btn-secondary".to_string()));
    assert_eq!(r, vec!["btn-primary".to_string()]);
}

#[test]
fn complete_outside_attribute_is_none() {
    let vocab = bootstrap5_classes();
    let idx = ClassIndex::new();
    assert_eq!(complete("<div id=\"btn", pos(0, 12), &vocab, &idx), None);
    assert_eq!(complete("<div class=\"a\" b", pos(0, 16), &vocab, &idx), None);
    assert_eq!(complete("<div class=\"a", pos(4, 0), &vocab, &idx), None);
}

#[test]
fn complete_after_deleting_stylesheet() {
    let vocab: Vec<String> = Vec::new();
    let mut idx = ClassIndex::new();
    idx.upsert("a.css".to_string(), vec!["alpha".to_string(), "shared".to_string()]);
    idx.upsert("b.css".to_string(), vec!["beta".to_string(), "shared".to_string()]);
    let text = "<p class=\"";
    let before = complete(text, pos(0, 10), &vocab, &idx).unwrap();
    assert_eq!(before, vec!["alpha", "beta", "shared"]);
    idx.remove(&"a.css".to_string());
    let after = complete(text, pos(0, 10), &vocab, &idx).unwrap();
    assert_eq!(after, vec!["beta", "shared"]);
}

#[test]
fn complete_normalizes_line_endings() {
    let vocab = vec!["card".to_string(), "card-body".to_string(), "col".to_string()];
    let idx = ClassIndex::new();
    let text = "<div>\r\n<p>\r<span class=\"card-";
    let r = complete(text, pos(2, 18), &vocab, &idx).unwrap();
    assert_eq!(r, vec!["card-body"]);
    let r = complete(text, pos(2, 17), &vocab, &idx).unwrap();
    assert_eq!(r, vec!["card", "card-body"]);
    assert_eq!(complete(text, pos(2, 19), &vocab, &idx), None);
}

#[test]
fn complete_merges_index_and_vocabulary_without_repeats() {
    let vocab = vec!["b".to_string(), "a".to_string(), "b".to_string()];
    let mut idx = ClassIndex::new();
    idx.upsert("x.css".to_string(), vec!["c".to_string(), "a".to_string()]);
    let r = complete("<i className='", pos(0, 14), &vocab, &idx).unwrap();
    assert_eq!(r, vec!["a", "b", "c"]);
}
