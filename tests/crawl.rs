use std::sync::Arc;

use askalono::{Store, TextData};
use license_crawl::{
    build_filter, classify, clone_ref, decide_entry, prepare_crawl, report_for, share,
    CrawlError, EntryAction, EntryEvent, FilterError, Report, WalkDecision,
};

fn identify_ok(_s: &Store, _d: &TextData) -> Result<String, String> {
    Ok("License: MIT\n".to_string())
}

fn identify_err(_s: &Store, _d: &TextData) -> Result<String, String> {
    Err("no license matched".to_string())
}

#[test]
fn report_for_match_is_path_then_report() {
    let r = report_for("src/LICENSE", &Ok("License: MIT\n".to_string()));
    match r {
        Report::Stdout(t) => assert_eq!(t, "src/LICENSE\nLicense: MIT\n"),
        Report::Stderr(_) => panic!("a match goes to standard output"),
    }
}

#[test]
fn report_for_failure_goes_to_error_stream() {
    let r = report_for("a/COPYING", &Err("no license matched".to_string()));
    match r {
        Report::Stderr(t) => assert_eq!(t, "a/COPYING\nError: no license matched\n"),
        Report::Stdout(_) => panic!("a failure goes to the error stream"),
    }
}

#[test]
fn report_for_empty_report() {
    match report_for("x", &Ok(String::new())) {
        Report::Stdout(t) => assert_eq!(t, "x\n"),
        Report::Stderr(_) => panic!("a match goes to standard output"),
    }
}

#[test]
fn entry_error_is_reported_and_skipped() {
    let (d, a) = decide_entry(EntryEvent::EntryError("cannot read dir".to_string()));
    assert_eq!(d, WalkDecision::Skip);
    match a {
        EntryAction::Emit(Report::Stderr(t)) => assert_eq!(t, "cannot read dir\n"),
        _ => panic!("the error is written to the error stream"),
    }
}

#[test]
fn metadata_error_is_reported_and_skipped() {
    let (d, a) = decide_entry(EntryEvent::MetadataError("permission denied".to_string()));
    assert_eq!(d, WalkDecision::Skip);
    match a {
        EntryAction::Emit(Report::Stderr(t)) => assert_eq!(t, "permission denied\n"),
        _ => panic!("the error is written to the error stream"),
    }
}

#[test]
fn directory_is_descended_not_classified() {
    let (d, a) = decide_entry(EntryEvent::Directory);
    assert_eq!(d, WalkDecision::Continue);
    assert!(matches!(a, EntryAction::Nothing));
}

#[test]
fn file_is_classified() {
    let (d, a) = decide_entry(EntryEvent::File);
    assert_eq!(d, WalkDecision::Continue);
    assert!(matches!(a, EntryAction::Classify));
}

#[test]
fn unreadable_file_produces_no_output() {
    let store = Store::new();
    assert!(classify("bin/blob", None, &store, &identify_ok).is_none());
    assert!(classify("bin/blob", None, &store, &identify_err).is_none());
}

#[test]
fn classified_file_block_is_path_then_report() {
    let store = Store::new();
    match classify("LICENSE", Some("MIT License".to_string()), &store, &identify_ok) {
        Some(Report::Stdout(t)) => assert_eq!(t, "LICENSE\nLicense: MIT\n"),
        _ => panic!("a match is one block on standard output"),
    }
}

#[test]
fn failed_classification_goes_to_error_stream() {
    let store = Store::new();
    match classify("NOTICE", Some("some text".to_string()), &store, &identify_err) {
        Some(Report::Stderr(t)) => assert_eq!(t, "NOTICE\nError: no license matched\n"),
        _ => panic!("a failure is one block on the error stream"),
    }
}

#[test]
fn custom_glob_selects_only_its_files() {
    let types = match build_filter(Some("*.md")) {
        Ok(t) => t,
        Err(_) => panic!("*.md is a valid glob"),
    };
    assert!(types.matched("README.md", false).is_whitelist());
    assert!(types.matched("docs/guide.md", false).is_whitelist());
    assert!(types.matched("notes.txt", false).is_ignore());
    assert!(types.matched("LICENSE", false).is_ignore());
}

#[test]
fn malformed_glob_is_an_invalid_pattern() {
    assert!(matches!(build_filter(Some("a[")), Err(FilterError::InvalidPattern(_))));
    assert!(matches!(build_filter(Some("{a,b")), Err(FilterError::InvalidPattern(_))));
}

#[test]
fn default_filter_selects_license_files() {
    let types = match build_filter(None) {
        Ok(t) => t,
        Err(_) => panic!("the built-in types build"),
    };
    assert!(types.matched("LICENSE", false).is_whitelist());
    assert!(types.matched("COPYING", false).is_whitelist());
    assert!(types.matched("main.rs", false).is_ignore());
}

#[test]
fn failed_corpus_load_ends_crawl_first() {
    match prepare_crawl(Err("cannot open cache".to_string()), Some("*.md")) {
        Err(CrawlError::Load(m)) => assert_eq!(m, "cannot open cache"),
        _ => panic!("a failed load is the crawl's error"),
    }
    match prepare_crawl(Err("bad cache".to_string()), Some("a[")) {
        Err(CrawlError::Load(m)) => assert_eq!(m, "bad cache"),
        _ => panic!("the load is checked before the filter"),
    }
}

#[test]
fn crawl_setup_with_bad_glob_fails_on_filter() {
    assert!(matches!(
        prepare_crawl(Ok(Store::new()), Some("a[")),
        Err(CrawlError::Filter(FilterError::InvalidPattern(_)))
    ));
}

#[test]
fn crawl_setup_holds_corpus_and_filter() {
    match prepare_crawl(Ok(Store::new()), Some("*.md")) {
        Ok(setup) => {
            assert!(setup.corpus.is_empty());
            assert!(setup.types.matched("a.md", false).is_whitelist());
            assert!(setup.types.matched("a.txt", false).is_ignore());
        },
        Err(_) => panic!("a loaded corpus and a valid glob make a crawl"),
    }
}

#[test]
fn shared_handles_point_at_one_corpus() {
    let a = share(Store::new());
    let b = clone_ref(&a);
    assert!(Arc::ptr_eq(&a, &b));
    assert_eq!(Arc::strong_count(&a), 2);
}

#[test]
fn default_filter_matches_builtin_license_names() {
    let types = match build_filter(None) {
        Ok(t) => t,
        Err(_) => panic!("the built-in types build"),
    };
    for name in ["MIT-LICENSE", "APACHE-2.0.txt", "license.md", "gpl-3.0.txt", "UNLICENSE", "NOTICE"] {
        assert!(types.matched(name, false).is_whitelist(), "{}", name);
    }
    assert!(types.matched("README.md", false).is_ignore());
}

#[test]
fn crawl_setup_with_default_filter() {
    match prepare_crawl(Ok(Store::new()), None) {
        Ok(setup) => {
            assert!(setup.types.matched("COPYING", false).is_whitelist());
            assert!(setup.types.matched("lib.rs", false).is_ignore());
        },
        Err(_) => panic!("a loaded corpus and the built-in types make a crawl"),
    }
}
