//! Tests for the acquisition pipeline's decisions.

use rakuyomi_core::pipeline::{
    collect_successes, ext_of_url, first_page_path, page_filename, page_filename_jpg,
    plan_filenames, summarize,
};

#[test]
fn extension_follows_the_url_path() {
    assert_eq!(ext_of_url(b"https://cdn.x/img/p.jpg"), b"jpg".to_vec());
    assert_eq!(ext_of_url(b"https://cdn.x/img/p.webp"), b"webp".to_vec());
    assert_eq!(ext_of_url(b"https://cdn.x/img/p"), b"jpg".to_vec());
    assert_eq!(ext_of_url(b""), b"jpg".to_vec());
    // a dot opening the last segment does not count as an extension
    assert_eq!(ext_of_url(b"https://cdn.x/.hidden"), b"jpg".to_vec());
    // trailing slashes are ignored, as a path would ignore them
    assert_eq!(ext_of_url(b"https://cdn.x/p.png/"), b"png".to_vec());
    // the raw URL is inspected as a path: a query string stays in the
    // extension, as it does in the stored filename
    assert_eq!(ext_of_url(b"https://cdn.x/p.jpg?v=2"), b"jpg?v=2".to_vec());
}

#[test]
fn filenames_are_zero_padded_positions() {
    assert_eq!(page_filename(0, b"https://cdn.x/a.png"), b"001.png".to_vec());
    assert_eq!(page_filename(9, b"https://cdn.x/a"), b"010.jpg".to_vec());
    assert_eq!(page_filename(99, b"x.webp"), b"100.webp".to_vec());
    assert_eq!(page_filename(999, b"x.gif"), b"1000.gif".to_vec());
    assert_eq!(page_filename_jpg(0), b"001.jpg".to_vec());
    assert_eq!(page_filename_jpg(123), b"124.jpg".to_vec());
}

#[test]
fn summary_counts_successes() {
    let outcomes = vec![true, false, true, false, true];
    let report = summarize(&outcomes);
    assert_eq!(report.requested, 5);
    assert_eq!(report.succeeded, 3);
    assert!(report.is_success());
}

#[test]
fn total_failure_reports_failure() {
    let outcomes = vec![false, false, false];
    let report = summarize(&outcomes);
    assert_eq!(report.requested, 3);
    assert_eq!(report.succeeded, 0);
    assert!(!report.is_success());

    let names = plan_filenames(&vec![
        b"u/a.jpg".to_vec(),
        b"u/b.jpg".to_vec(),
        b"u/c.jpg".to_vec(),
    ]);
    let bodies: Vec<Option<Vec<u8>>> = vec![None, None, None];
    let files = collect_successes(&names, &bodies);
    assert!(files.is_empty());
}

#[test]
fn acquisition_scenario_five_pages_two_failures() {
    // five page URLs; positions 2 and 4 (1-based) fail
    let urls: Vec<Vec<u8>> = vec![
        b"https://cdn.x/1.jpg".to_vec(),
        b"https://cdn.x/2.jpg".to_vec(),
        b"https://cdn.x/3.jpg".to_vec(),
        b"https://cdn.x/4.jpg".to_vec(),
        b"https://cdn.x/5.jpg".to_vec(),
    ];
    let names = plan_filenames(&urls);
    let bodies: Vec<Option<Vec<u8>>> = vec![
        Some(b"one".to_vec()),
        None,
        Some(b"three".to_vec()),
        None,
        Some(b"five".to_vec()),
    ];
    let outcomes: Vec<bool> = bodies.iter().map(|b| b.is_some()).collect();
    let report = summarize(&outcomes);
    assert_eq!(report.requested, 5);
    assert_eq!(report.succeeded, 3);
    assert!(report.is_success());
    let files = collect_successes(&names, &bodies);
    assert_eq!(files.len(), 3);
    assert_eq!(files[0].0, b"001.jpg".to_vec());
    assert_eq!(files[0].1, b"one".to_vec());
    assert_eq!(files[1].0, b"003.jpg".to_vec());
    assert_eq!(files[1].1, b"three".to_vec());
    assert_eq!(files[2].0, b"005.jpg".to_vec());
    assert_eq!(files[2].1, b"five".to_vec());
}

#[test]
fn first_page_path_is_under_the_destination() {
    assert_eq!(
        first_page_path(b"/tmp/chapter"),
        b"/tmp/chapter/001.jpg".to_vec()
    );
}
