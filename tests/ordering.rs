use onyx::filesystem::read::{File, FileKind};
use onyx::fuzzy::order_by_scores;
use onyx::state::{Files, SortMode};

fn entry(name: &str) -> File {
    File::new(format!("/d/{}", name), FileKind::File, name.to_string())
}

fn names(files: &[File]) -> Vec<String> {
    files.iter().map(|f| f.name.clone()).collect()
}

#[test]
fn order_by_scores_descending_ties_in_read_order() {
    let files = vec![entry("a"), entry("b"), entry("c"), entry("d"), entry("e")];
    let keys = vec![Some(3), None, Some(7), Some(3), Some(-1)];
    let r = order_by_scores(files, keys);
    assert_eq!(names(&r), vec!["c", "a", "d", "e"]);
}

#[test]
fn order_by_scores_of_empty_listing() {
    let r = order_by_scores(Vec::new(), Vec::new());
    assert!(r.is_empty());
}

#[test]
fn default_sort_keeps_read_order() {
    let mut f = Files::new(vec![entry("b.md"), entry("a.txt")]);
    assert_eq!(f.sort(), None);
    assert_eq!(names(&f.files), vec!["b.md", "a.txt"]);
}

#[test]
fn fuzzy_query_txt_keeps_matches_and_drops_others() {
    let mut f = Files::new(vec![entry("a.txt"), entry("b.md"), entry("test.txt")]);
    f.sort_mode = SortMode::Fuzzy;
    f.input = "txt".to_string();
    assert_eq!(f.sort(), Some(()));
    let n = names(&f.files);
    assert_eq!(n.len(), 2);
    assert!(n.contains(&"a.txt".to_string()));
    assert!(n.contains(&"test.txt".to_string()));
    assert!(!n.contains(&"b.md".to_string()));
}

#[test]
fn fuzzy_order_is_idempotent() {
    let mut f = Files::new(vec![
        entry("main.rs"),
        entry("mod.rs"),
        entry("Cargo.toml"),
        entry("readme.md"),
        entry("src"),
    ]);
    f.sort_mode = SortMode::Fuzzy;
    f.input = "m".to_string();
    f.sort();
    let once = names(&f.files);
    f.sort();
    assert_eq!(names(&f.files), once);
}

#[test]
fn empty_query_keeps_every_entry_in_read_order() {
    let mut f = Files::new(vec![entry("z"), entry("a"), entry("m")]);
    f.sort_mode = SortMode::Fuzzy;
    f.sort();
    assert_eq!(names(&f.files), vec!["z", "a", "m"]);
}

#[test]
fn scorer_scores_subsequence_matches_only() {
    let s = SortMode::Fuzzy.get_score_fn().unwrap();
    assert!(s.score("abc", &entry("axbycz")).is_some());
    assert!(s.score("xyz", &entry("abc")).is_none());
    assert!(SortMode::Default.get_score_fn().is_none());
}
