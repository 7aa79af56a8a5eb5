use pytokei::language_type_mapper;
use pytokei::LanguageType;
use pytokei::Sort;
use pytokei::sort_types;

#[test]
fn name_round_trip_over_whole_registry() {
    let all = LanguageType::list();
    assert_eq!(all.len(), 226);
    for t in all {
        let back = language_type_mapper(t.name());
        assert_eq!(back, Ok(t));
    }
}

#[test]
fn unknown_name_is_rejected_not_defaulted() {
    let r = language_type_mapper("NotALanguage");
    match r {
        Ok(_) => panic!("an unknown name must not resolve"),
        Err(e) => assert_eq!(e.name, "NotALanguage"),
    }
    let first = LanguageType::list()[0];
    assert_ne!(
        language_type_mapper("NotALanguage"),
        Ok(first),
        "lookup must not fall back to the first variant"
    );
}

#[test]
fn lookup_is_case_sensitive() {
    assert!(language_type_mapper("Rust").is_ok());
    assert!(language_type_mapper("rust").is_err());
    assert!(language_type_mapper("RUST").is_err());
}

#[test]
fn known_names_resolve() {
    assert_eq!(language_type_mapper("Rust"), Ok(LanguageType::Rust));
    assert_eq!(language_type_mapper("C Header"), Ok(LanguageType::CHeader));
    assert_eq!(language_type_mapper("F*"), Ok(LanguageType::Fstar));
    assert_eq!(
        language_type_mapper("Gherkin (Cucumber)"),
        Ok(LanguageType::Gherkin)
    );
    assert_eq!(language_type_mapper("BASH"), Ok(LanguageType::Bash));
}

#[test]
fn names_are_pairwise_distinct() {
    let all = LanguageType::list();
    let mut names: Vec<&str> = all.iter().map(|t| t.name()).collect();
    names.sort();
    names.dedup();
    assert_eq!(names.len(), all.len());
}

#[test]
fn syntax_metadata_samples() {
    let rust = LanguageType::Rust;
    assert_eq!(rust.name(), "Rust");
    assert_eq!(rust.line_comments(), vec!["//"]);
    assert_eq!(rust.multi_line_comments(), vec![("/*", "*/")]);
    assert!(rust.allows_nested());
    assert!(!rust.is_literate());

    let markdown = LanguageType::Markdown;
    assert!(markdown.is_literate());
    assert!(markdown.line_comments().is_empty());

    let d = LanguageType::D;
    assert_eq!(d.nested_comments(), vec![("/+", "+/")]);

    let python = LanguageType::Python;
    assert_eq!(
        python.doc_quotes(),
        vec![("\"\"\"", "\"\"\""), ("'''", "'''")]
    );
    assert_eq!(python.quotes(), vec![("\"", "\""), ("'", "'")]);

    let bash = LanguageType::Bash;
    assert!(bash.shebangs().contains(&"#!/bin/bash"));

    let html = LanguageType::Html;
    assert!(html.important_syntax().contains(&"<script"));
    assert!(html.important_syntax().contains(&"<style"));

    let csharp = LanguageType::CSharp;
    assert_eq!(csharp.verbatim_quotes(), vec![("@\"", "\"")]);
}

#[test]
fn quote_pairs_come_longest_delimiter_first() {
    let dart = LanguageType::Dart;
    assert_eq!(
        dart.quotes(),
        vec![
            ("\"\"\"", "\"\"\""),
            ("'''", "'''"),
            ("\"", "\""),
            ("'", "'"),
        ]
    );
    let powershell = LanguageType::PowerShell;
    assert_eq!(
        powershell.quotes(),
        vec![("\"@", "@\""), ("\"", "\""), ("@'", "'@"), ("'", "'")]
    );
    let rust = LanguageType::Rust;
    assert_eq!(rust.verbatim_quotes(), vec![("r##\"", "\"##"), ("r#\"", "\"#")]);
}

#[test]
fn sort_category_names_parse() {
    assert_eq!(Sort::from_str("Lines"), Ok(Sort::Lines));
    assert_eq!(Sort::from_str("lines"), Ok(Sort::Lines));
    assert_eq!(Sort::from_str("BLANKS"), Ok(Sort::Blanks));
    assert_eq!(Sort::from_str("Comments"), Ok(Sort::Comments));
    assert_eq!(Sort::from_str("Code"), Ok(Sort::Code));
    assert_eq!(Sort::from_str("Files"), Ok(Sort::Files));
    let r = Sort::from_str("bogus");
    match r {
        Ok(_) => panic!("an unknown sort category must not resolve"),
        Err(e) => assert_eq!(e.name, "bogus"),
    }
}

#[test]
fn sort_type_listing() {
    assert_eq!(
        sort_types(),
        vec!["Blanks", "Comments", "Code", "Files", "Lines"]
    );
}
