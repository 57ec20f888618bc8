use adoptium_jdk::adoptium_api::{ReleaseVersion, ReleaseVersions};
use adoptium_jdk::pagination::{PageOutcome, Pagination, PAGE_SIZE};

fn page_of(n: usize) -> ReleaseVersions {
    let mut versions = Vec::new();
    let mut i = 0usize;
    while i < n {
        versions.push(ReleaseVersion {
            major: 21,
            minor: 0,
            patch: i as u64,
            build: 1,
            semver: format!("21.0.{i}+1"),
        });
        i += 1;
    }
    ReleaseVersions { versions }
}

#[test]
fn collects_full_pages_then_stops() {
    let mut run = Pagination::start(page_of(20));
    assert!(run.wants_more());
    assert_eq!(run.next_page_number(), 1);

    run.step(PageOutcome::Page(page_of(20)));
    assert!(run.wants_more());
    assert_eq!(run.next_page_number(), 2);

    run.step(PageOutcome::Page(page_of(7)));
    assert!(!run.wants_more());

    let all = run.finish();
    assert_eq!(all.versions.len(), 47);
}

#[test]
fn failed_page_truncates_without_error() {
    let mut run = Pagination::start(page_of(20));
    assert!(run.wants_more());

    run.step(PageOutcome::Exhausted);
    assert!(!run.wants_more());

    let all = run.finish();
    assert_eq!(all.versions.len(), 20);
}

#[test]
fn short_first_page_needs_no_further_calls() {
    let run = Pagination::start(page_of(7));
    assert!(!run.wants_more());
    assert_eq!(run.finish().versions.len(), 7);
}

#[test]
fn empty_first_page_yields_empty_listing() {
    let run = Pagination::start(page_of(0));
    assert!(!run.wants_more());
    assert_eq!(run.finish().versions.len(), 0);
}

#[test]
fn page_size_is_twenty() {
    assert_eq!(PAGE_SIZE, 20);
}

#[test]
fn keeps_upstream_order() {
    let mut run = Pagination::start(page_of(20));
    run.step(PageOutcome::Page(page_of(3)));
    let all = run.finish();
    assert_eq!(all.versions[0].patch, 0);
    assert_eq!(all.versions[19].patch, 19);
    assert_eq!(all.versions[20].patch, 0);
    assert_eq!(all.versions[22].patch, 2);
}
