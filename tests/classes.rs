use css_class_lsp::files::{indexed_path, is_skipped_dir, is_stylesheet_file, is_stylesheet_uri, scan_files};
use css_class_lsp::frameworks::bootstrap5_classes;
use css_class_lsp::index::ClassIndex;
use css_class_lsp::scanner::extract_classes;
use std::collections::BTreeSet;

fn set(v: Vec<String>) -> BTreeSet<String> {
    v.into_iter().collect()
}

fn names(v: &[&str]) -> BTreeSet<String> {
    v.iter().map(|s| s.to_string()).collect()
}

fn file(rel: &str, text: &str) -> (String, String, String) {
    (format!("file:///w/{rel}"), rel.to_string(), text.to_string())
}

#[test]
fn extract_ignores_comments_and_strings() {
    let css = ".card .card-body { color: red; } /* .ignored */ content: \".skip\";";
    assert_eq!(set(extract_classes(css)), names(&["card", "card-body"]));
}

#[test]
fn extract_handles_escapes_and_quotes() {
    let css = "a[title='x\\'.no'] .yes { } b::after { content: \"\\\".nope\" } .-neg{}";
    assert_eq!(set(extract_classes(css)), names(&["yes", "-neg"]));
}

#[test]
fn extract_unterminated_comment_is_kept() {
    let css = ".a {} /* .b";
    assert_eq!(set(extract_classes(css)), names(&["a", "b"]));
}

#[test]
fn extract_has_no_duplicates() {
    let r = extract_classes(".x .x .y:hover .x-1 ._z .9no .--no");
    assert_eq!(r.len(), 4);
    assert_eq!(set(r), names(&["x", "y", "x-1", "_z"]));
}

#[test]
fn extract_nothing_from_empty() {
    assert!(extract_classes("").is_empty());
    assert!(extract_classes("/* .a */").is_empty());
}

#[test]
fn scan_skips_dependency_directories() {
    let files = vec![
        file("a.css", ".foo{}"),
        file("node_modules/b.css", ".bar{}"),
    ];
    let idx = scan_files(&files);
    let all = set(idx.all_classes());
    assert!(all.contains("foo"));
    assert!(!all.contains("bar"));
    assert!(idx.contains(&"file:///w/a.css".to_string()));
    assert!(!idx.contains(&"file:///w/node_modules/b.css".to_string()));
}

#[test]
fn scan_keeps_only_stylesheets() {
    let files = vec![
        file("src/app.scss", ".app{}"),
        file("src/app.js", ".js{}"),
        file("target/out.css", ".built{}"),
        file("src/.git/x.less", ".vcs{}"),
        file("styles/theme.sass", ".theme"),
    ];
    let all = set(scan_files(&files).all_classes());
    assert_eq!(all, names(&["app", "theme"]));
}

#[test]
fn path_rules() {
    assert!(is_stylesheet_uri("/w/a.css"));
    assert!(is_stylesheet_uri("/w/a.min.less"));
    assert!(!is_stylesheet_uri("/w/a.html"));
    assert!(!is_stylesheet_uri("/w/a.CSS"));
    assert!(is_skipped_dir("node_modules"));
    assert!(is_skipped_dir(".next"));
    assert!(!is_skipped_dir("src"));
    assert!(is_stylesheet_file("x.scss"));
    assert!(!is_stylesheet_file(".css"));
    assert!(indexed_path("a/b/c.css"));
    assert!(!indexed_path("a/.git/c.css"));
    assert!(!indexed_path("a/b/c.txt"));
}

#[test]
fn index_upsert_replaces_and_remove_drops() {
    let mut idx = ClassIndex::new();
    idx.upsert("a.css".to_string(), vec!["x".to_string()]);
    idx.upsert("b.css".to_string(), vec!["y".to_string()]);
    idx.upsert("a.css".to_string(), vec!["z".to_string()]);
    assert_eq!(set(idx.all_classes()), names(&["y", "z"]));
    idx.remove(&"b.css".to_string());
    assert_eq!(set(idx.all_classes()), names(&["z"]));
    assert!(!idx.contains(&"b.css".to_string()));
}

#[test]
fn index_merge_prefers_incoming() {
    let mut a = ClassIndex::new();
    a.upsert("a.css".to_string(), vec!["old".to_string()]);
    a.upsert("b.css".to_string(), vec!["b".to_string()]);
    let mut b = ClassIndex::new();
    b.upsert("a.css".to_string(), vec!["new".to_string()]);
    b.upsert("c.css".to_string(), vec!["c".to_string()]);
    a.merge(&b);
    assert_eq!(set(a.all_classes()), names(&["new", "b", "c"]));
}

#[test]
fn vocabulary_has_components_and_utilities() {
    let v = bootstrap5_classes();
    let s: BTreeSet<String> = v.iter().cloned().collect();
    assert_eq!(s.len(), v.len());
    for n in [
        "btn-primary", "col-xxl-12", "d-md-flex", "d-print-none", "mt-lg-auto", "mx-n3",
        "m-0", "p-5", "gap-sm-2", "gy-3", "flex-lg-grow-1", "text-bg-dark", "rounded-top-start-3",
        "rounded", "border-bottom-0", "link-danger-emphasis", "ratio-16x9", "overflow-y-auto",
        "shadow", "z-n1", "translate-middle-x", "text-primary-emphasis",
    ] {
        assert!(s.contains(n), "missing {n}");
    }
    assert!(!s.contains("btn-primary-emphasis"));
    assert!(!s.contains(""));
}

#[test]
fn extract_ignores_comment_and_string_after_text() {
    assert_eq!(set(extract_classes(".a /* .b 'c */ .d")), names(&["a", "d"]));
    assert_eq!(set(extract_classes(".a { content: \".x .y\" } .z")), names(&["a", "z"]));
    assert_eq!(set(extract_classes(".a 'it''s .no' .b")), names(&["a", "b"]));
}

#[test]
fn record_stylesheet_replaces_one_file() {
    let mut idx = ClassIndex::new();
    idx.record_stylesheet("a.css".to_string(), ".one .two");
    idx.record_stylesheet("b.css".to_string(), ".three");
    idx.record_stylesheet("a.css".to_string(), "/* .one */ .four");
    assert_eq!(set(idx.all_classes()), names(&["four", "three"]));
}

#[test]
fn vocabulary_spacing_and_display_families() {
    let s: BTreeSet<String> = bootstrap5_classes().into_iter().collect();
    for prop in ["m", "p"] {
        for dir in ["", "t", "b", "s", "e", "x", "y"] {
            for bp in ["", "sm-", "md-", "lg-", "xl-", "xxl-"] {
                for v in ["0", "1", "2", "3", "4", "5", "auto"] {
                    assert!(s.contains(&format!("{prop}{dir}-{bp}{v}")));
                }
                for k in 1..=5 {
                    assert_eq!(s.contains(&format!("{prop}{dir}-{bp}n{k}")), prop == "m");
                }
            }
        }
    }
    for bp in ["", "sm-", "md-", "lg-", "xl-", "xxl-"] {
        for k in 0..=5 {
            for g in ["gap-", "row-gap-", "column-gap-", "g-", "gx-", "gy-"] {
                assert!(s.contains(&format!("{g}{bp}{k}")));
            }
        }
        assert!(s.contains(&format!("d-{bp}inline-flex")));
    }
    assert!(s.contains("d-print-table-cell"));
}

#[test]
fn vocabulary_names_are_plain_tokens() {
    let v = bootstrap5_classes();
    for n in &v {
        assert!(!n.is_empty());
        assert!(n.chars().next().unwrap().is_ascii_lowercase(), "{n}");
        assert!(n.chars().all(|c| c.is_ascii_lowercase() || c.is_ascii_digit() || c == '-'), "{n}");
        assert_eq!(set(extract_classes(&format!(".{n}"))), names(&[n.as_str()]));
    }
    let btn_p: Vec<&String> = v.iter().filter(|n| n.starts_with("btn-p")).collect();
    assert_eq!(btn_p, vec!["btn-primary"]);
}

#[test]
fn backslash_is_part_of_a_file_name() {
    assert!(indexed_path("node_modules\\a.css"));
    assert!(indexed_path("src\\target\\x.scss"));
    let files = vec![file("node_modules\\a.css", ".kept{}")];
    assert_eq!(set(scan_files(&files).all_classes()), names(&["kept"]));
}
