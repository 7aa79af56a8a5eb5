use pytokei::CodeStats;
use pytokei::Config;
use pytokei::Language;
use pytokei::LanguageType;
use pytokei::Languages;
use pytokei::Report;
use pytokei::Sort;

fn report(name: &str, blanks: usize, code: usize, comments: usize) -> Report {
    Report::with_stats(name, CodeStats::with_counts(blanks, code, comments))
}

#[test]
fn empty_stats_are_zero() {
    let s = CodeStats::new();
    assert_eq!(s.blanks(), 0);
    assert_eq!(s.code(), 0);
    assert_eq!(s.comments(), 0);
    assert_eq!(s.lines(), 0);
    assert!(s.blobs().is_empty());
}

#[test]
fn lines_is_the_sum_of_the_three_counters() {
    let s = CodeStats::with_counts(1, 10, 2);
    assert_eq!(s.lines(), 13);
}

#[test]
fn summarise_folds_blobs_and_clears_them() {
    let mut s = CodeStats::with_counts(1, 10, 2);
    s.add_blob(LanguageType::JavaScript, CodeStats::with_counts(0, 4, 1));
    s.add_blob(LanguageType::Css, CodeStats::with_counts(2, 3, 0));
    let flat = s.summarise();
    assert_eq!(flat.blanks(), 3);
    assert_eq!(flat.code(), 17);
    assert_eq!(flat.comments(), 3);
    assert!(flat.blobs().is_empty());
    // every line is accounted for exactly once
    assert_eq!(flat.lines(), s.lines() + 5 + 5);
}

#[test]
fn summarise_is_idempotent() {
    let mut s = CodeStats::with_counts(1, 10, 2);
    s.add_blob(LanguageType::JavaScript, CodeStats::with_counts(0, 4, 1));
    let once = s.summarise();
    let twice = once.summarise();
    assert_eq!(once.blanks(), twice.blanks());
    assert_eq!(once.code(), twice.code());
    assert_eq!(once.comments(), twice.comments());
    assert!(twice.blobs().is_empty());
}

#[test]
fn report_carries_name_and_stats() {
    let r = Report::new("src/lib.rs");
    assert_eq!(r.name(), "src/lib.rs");
    assert_eq!(r.stats().lines(), 0);
    let r = report("src/main.rs", 1, 2, 3);
    assert_eq!(r.name(), "src/main.rs");
    assert_eq!(r.stats().blanks(), 1);
    assert_eq!(r.stats().code(), 2);
    assert_eq!(r.stats().comments(), 3);
}

#[test]
fn three_reports_total() {
    let mut lang = Language::new();
    lang.add_report(report("a.rs", 1, 10, 2));
    lang.add_report(report("b.rs", 0, 5, 0));
    lang.add_report(report("c.rs", 4, 0, 3));
    let total = lang.total();
    assert_eq!(total.code(), 15);
    assert_eq!(total.comments(), 5);
    assert_eq!(total.blanks(), 5);
    assert_eq!(total.lines(), 25);
    assert_eq!(lang.files(), 3);
    assert!(!total.is_empty());
}

#[test]
fn totals_are_merge_order_independent() {
    let reports = [
        ("a.rs", 1usize, 10usize, 2usize),
        ("b.rs", 0, 5, 0),
        ("c.rs", 4, 0, 3),
        ("d.rs", 7, 7, 7),
    ];
    let mut forward = Language::new();
    for (n, b, c, m) in reports.iter() {
        forward.add_report(report(n, *b, *c, *m));
    }
    let mut backward = Language::new();
    for (n, b, c, m) in reports.iter().rev() {
        backward.add_report(report(n, *b, *c, *m));
    }
    assert_eq!(forward.blanks(), backward.blanks());
    assert_eq!(forward.code(), backward.code());
    assert_eq!(forward.comments(), backward.comments());
    let ft = forward.total();
    let bt = backward.total();
    assert_eq!(ft.blanks(), bt.blanks());
    assert_eq!(ft.code(), bt.code());
    assert_eq!(ft.comments(), bt.comments());
}

#[test]
fn is_empty_tracks_the_reports_collection() {
    let mut lang = Language::new();
    assert!(lang.is_empty());
    lang.add_report(report("a.rs", 0, 0, 0));
    assert!(!lang.is_empty(), "a language with one all-zero report is not empty");
}

#[test]
fn inaccurate_is_monotone() {
    let mut lang = Language::new();
    assert!(!lang.inaccurate());
    lang.mark_inaccurate();
    assert!(lang.inaccurate());
    lang.add_report(report("a.rs", 1, 2, 3));
    lang.add_report(report("b.rs", 0, 0, 0));
    assert!(lang.inaccurate(), "further reports must not clear the flag");
}

#[test]
fn embedded_blobs_go_to_children_not_totals() {
    let mut stats = CodeStats::with_counts(1, 10, 2);
    stats.add_blob(LanguageType::JavaScript, CodeStats::with_counts(0, 4, 1));
    let mut lang = Language::new();
    lang.add_report(Report::with_stats("index.html", stats));
    // the parent's totals hold only the file's own counters
    assert_eq!(lang.blanks(), 1);
    assert_eq!(lang.code(), 10);
    assert_eq!(lang.comments(), 2);
    // the embedded language's counters sit in the breakdown
    let children = lang.children();
    assert_eq!(children.len(), 1);
    let (ty, reports) = &children[0];
    assert_eq!(*ty, LanguageType::JavaScript);
    assert_eq!(reports.len(), 1);
    assert_eq!(reports[0].name(), "index.html");
    assert_eq!(reports[0].stats().code(), 4);
    assert_eq!(reports[0].stats().comments(), 1);
    assert_eq!(reports[0].stats().blanks(), 0);
}

#[test]
fn summarise_folds_children_into_the_totals() {
    let mut stats = CodeStats::with_counts(1, 10, 2);
    stats.add_blob(LanguageType::JavaScript, CodeStats::with_counts(0, 4, 1));
    let mut lang = Language::new();
    lang.add_report(Report::with_stats("index.html", stats));
    let summary = lang.summarise();
    assert_eq!(summary.blanks(), 1);
    assert_eq!(summary.code(), 14);
    assert_eq!(summary.comments(), 3);
    // the original is untouched and the breakdown is carried over
    assert_eq!(lang.code(), 10);
    assert_eq!(summary.children().len(), 1);
    assert_eq!(summary.files(), 1);
}

#[test]
fn sort_by_lines_is_descending() {
    let mut lang = Language::new();
    lang.add_report(report("small.rs", 0, 1, 0));
    lang.add_report(report("large.rs", 5, 20, 5));
    lang.add_report(report("medium.rs", 2, 8, 2));
    lang.sort_by(Sort::from_str("Lines").unwrap());
    let names: Vec<&str> = lang.reports().iter().map(|r| r.name()).collect();
    assert_eq!(names, vec!["large.rs", "medium.rs", "small.rs"]);
}

#[test]
fn sort_is_stable_on_equal_keys() {
    let mut lang = Language::new();
    lang.add_report(report("first.rs", 0, 3, 0));
    lang.add_report(report("second.rs", 1, 3, 1));
    lang.add_report(report("third.rs", 0, 3, 0));
    lang.sort_by(Sort::Code);
    let names: Vec<&str> = lang.reports().iter().map(|r| r.name()).collect();
    assert_eq!(names, vec!["first.rs", "second.rs", "third.rs"]);
}

#[test]
fn sort_by_files_is_ascending_by_path() {
    let mut lang = Language::new();
    lang.add_report(report("b.rs", 0, 1, 0));
    lang.add_report(report("a/z.rs", 0, 2, 0));
    lang.add_report(report("a/a.rs", 0, 3, 0));
    lang.sort_by(Sort::Files);
    let names: Vec<&str> = lang.reports().iter().map(|r| r.name()).collect();
    assert_eq!(names, vec!["a/a.rs", "a/z.rs", "b.rs"]);
}

#[test]
fn empty_scan_totals_are_zero() {
    let langs = Languages::new();
    let total = langs.total();
    assert_eq!(total.blanks(), 0);
    assert_eq!(total.code(), 0);
    assert_eq!(total.comments(), 0);
    assert_eq!(total.lines(), 0);
    assert!(total.children().is_empty());
    assert_eq!(total.files(), 0);
    assert!(!total.inaccurate());
}

#[test]
fn languages_aggregate_per_language() {
    let mut langs = Languages::new();
    langs.add_report(LanguageType::Rust, report("a.rs", 1, 10, 2));
    langs.add_report(LanguageType::Python, report("b.py", 0, 5, 1));
    langs.add_report(LanguageType::Rust, report("c.rs", 2, 20, 4));
    assert_eq!(langs.len(), 2);

    let rust = langs.get(LanguageType::Rust).unwrap();
    assert_eq!(rust.code(), 30);
    assert_eq!(rust.files(), 2);
    let python = langs.get(LanguageType::Python).unwrap();
    assert_eq!(python.code(), 5);

    match langs.get(LanguageType::Zig) {
        Ok(_) => panic!("an absent language must not resolve"),
        Err(e) => assert_eq!(e.language_type, LanguageType::Zig),
    }

    assert_eq!(langs.language_names(), vec!["Rust", "Python"]);

    let total = langs.total();
    assert_eq!(total.code(), 35);
    assert_eq!(total.blanks(), 3);
    assert_eq!(total.comments(), 7);
    assert!(total.is_empty(), "the grand total carries no reports of its own");
    let files: usize = total.children().iter().map(|(_, rs)| rs.len()).sum();
    assert_eq!(files, 3);
}

#[test]
fn languages_total_carries_inaccuracy() {
    let mut langs = Languages::new();
    langs.add_report(LanguageType::Rust, report("a.rs", 1, 1, 1));
    assert!(!langs.total().inaccurate());
    langs.mark_inaccurate(LanguageType::Rust);
    assert!(langs.get(LanguageType::Rust).unwrap().inaccurate());
    assert!(langs.total().inaccurate());
    // further reports do not clear the taint
    langs.add_report(LanguageType::Rust, report("b.rs", 2, 2, 2));
    assert!(langs.total().inaccurate());
}

#[test]
fn marking_an_absent_language_creates_an_empty_tainted_entry() {
    let mut langs = Languages::new();
    langs.mark_inaccurate(LanguageType::Cobol);
    let entry = langs.get(LanguageType::Cobol).unwrap();
    assert!(entry.inaccurate());
    assert!(entry.is_empty());
    assert_eq!(entry.code(), 0);
}

#[test]
fn config_defaults_are_unset() {
    let c = Config::new();
    assert_eq!(c.columns(), None);
    assert_eq!(c.hidden(), None);
    assert_eq!(c.no_ignore(), None);
    assert_eq!(c.no_ignore_parent(), None);
    assert_eq!(c.no_ignore_dot(), None);
    assert_eq!(c.no_ignore_vcs(), None);
    assert_eq!(c.treat_doc_strings_as_comments(), None);
}

#[test]
fn config_keeps_explicit_options() {
    let c = Config::from_options(
        Some(80),
        Some(true),
        None,
        None,
        Some(false),
        None,
        Some(true),
    );
    assert_eq!(c.columns(), Some(80));
    assert_eq!(c.hidden(), Some(true));
    assert_eq!(c.no_ignore(), None);
    assert_eq!(c.no_ignore_dot(), Some(false));
    assert_eq!(c.treat_doc_strings_as_comments(), Some(true));
}

#[test]
fn counters_at_the_machine_limit() {
    let s = CodeStats::with_counts(usize::MAX - 5, 5, 0);
    assert_eq!(s.lines(), usize::MAX);
    assert_eq!(s.blanks(), usize::MAX - 5);
}
