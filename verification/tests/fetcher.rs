use batch_sealer::fetcher::{fetch_path, fetch_query, get_host_and_file};

#[test]
fn a_locator_with_one_separator_splits_into_host_and_file() {
    let (host, file) = get_host_and_file("http://10.0.0.2:1789|/pieces/baga123").unwrap();
    assert_eq!(host, "http://10.0.0.2:1789");
    assert_eq!(file, "/pieces/baga123");
}

#[test]
fn separators_at_the_edges_leave_empty_parts() {
    let (host, file) = get_host_and_file("|f").unwrap();
    assert_eq!(host, "");
    assert_eq!(file, "f");
    let (host2, file2) = get_host_and_file("h|").unwrap();
    assert_eq!(host2, "h");
    assert_eq!(file2, "");
}

#[test]
fn locators_without_exactly_one_separator_are_rejected() {
    let e = get_host_and_file("no-separator-here").unwrap_err();
    assert!(e.message.starts_with("unknown remote file url: "));
    assert!(get_host_and_file("a|b|c").is_err());
    assert!(get_host_and_file("").is_err());
}

#[test]
fn the_fetch_query_carries_the_file_and_the_confirmation_flag() {
    let q = fetch_query("/pieces/baga123");
    assert_eq!(q, "file=%2Fpieces%2Fbaga123&offer_confirmation=true");
    let q2 = fetch_query("plain");
    assert_eq!(q2, "file=plain&offer_confirmation=true");
    let q3 = fetch_query("a b");
    assert_eq!(q3, "file=a+b&offer_confirmation=true");
}

#[test]
fn the_fetch_path_is_fixed() {
    assert_eq!(fetch_path(), "/api/file_opt/fetch");
}
