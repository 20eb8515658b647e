use esdump::decimal::{push_decimal, push_signed_decimal};
use esdump::job::EsDump;
use std::time::Duration;

#[test]
fn data_file_is_named_by_index_and_round() {
    let job = EsDump::new("logs").path("./out");
    assert_eq!(job.data_file(2), "./out/logs_2.data");
    assert_eq!(job.data_file(0), "./out/logs_0.data");
    assert_eq!(job.data_file(1234567890), "./out/logs_1234567890.data");
}

#[test]
fn archive_is_named_by_index() {
    let job = EsDump::new("logs").path("./out");
    assert_eq!(job.archive_file(), "./out/logs.zip");
}

#[test]
fn a_new_job_has_the_defaults() {
    let job = EsDump::new("idx");
    assert_eq!(job.search_url(), "http://localhost:9200/idx/_search?scroll=1m&size=50000");
    assert_eq!(job.scroll_url(), "http://localhost:9200/_search/scroll");
    assert_eq!(job.data_file(0), "./esdump/idx_0.data");
    assert_eq!(job.archive_file(), "./esdump/idx.zip");
    assert_eq!(job.page_size(), 50000);
    assert_eq!(job.query_body(), "");
    assert_eq!(job.credentials(), (String::new(), None));
    assert_eq!(job.scroll_window(), "1m");
    assert_eq!(job.output_dir(), "./esdump");
    assert_eq!(job.request_timeout(), None);
    assert_eq!(job.connect_timeout(), None);
    assert_eq!(job.max_idle_per_host(), None);
    assert!(job.is_valid());
}

#[test]
fn each_builder_sets_its_own_field() {
    let job = EsDump::new("idx")
        .addr("https://es:9200")
        .scroll("5m")
        .scroll_size(250)
        .query("{\"query\":{\"match_all\":{}}}")
        .path("/tmp/dump")
        .user("kim")
        .password("s3cret");
    assert_eq!(job.search_url(), "https://es:9200/idx/_search?scroll=5m&size=250");
    assert_eq!(job.scroll_url(), "https://es:9200/_search/scroll");
    assert_eq!(job.data_file(7), "/tmp/dump/idx_7.data");
    assert_eq!(job.archive_file(), "/tmp/dump/idx.zip");
    assert_eq!(job.page_size(), 250);
    assert_eq!(job.query_body(), "{\"query\":{\"match_all\":{}}}");
    assert_eq!(job.credentials(), (String::from("kim"), Some(String::from("s3cret"))));
    assert_eq!(job.scroll_window(), "5m");
    assert_eq!(job.output_dir(), "/tmp/dump");
}

#[test]
fn client_sets_the_limits_of_the_connection() {
    let job = EsDump::new("idx").client(
        Some(Duration::from_secs(30)),
        Some(Duration::from_secs(5)),
        Some(8),
    );
    assert_eq!(job.request_timeout(), Some(Duration::from_secs(30)));
    assert_eq!(job.connect_timeout(), Some(Duration::from_secs(5)));
    assert_eq!(job.max_idle_per_host(), Some(8));
    let open = job.client(None, Some(Duration::from_secs(1)), None);
    assert_eq!(open.request_timeout(), None);
    assert_eq!(open.connect_timeout(), Some(Duration::from_secs(1)));
    assert_eq!(open.max_idle_per_host(), None);
}

#[test]
fn a_clone_has_the_same_settings() {
    let job = EsDump::new("idx").addr("http://a").user("u").password("p").scroll_size(9).client(
        Some(Duration::from_secs(2)),
        None,
        Some(1),
    );
    let copy = job.clone();
    assert_eq!(copy.search_url(), job.search_url());
    assert_eq!(copy.credentials(), (String::from("u"), Some(String::from("p"))));
    assert_eq!(copy.page_size(), 9);
    assert_eq!(copy.request_timeout(), Some(Duration::from_secs(2)));
    assert_eq!(copy.max_idle_per_host(), Some(1));
}

#[test]
fn a_page_size_below_one_is_not_valid() {
    assert!(!EsDump::new("idx").scroll_size(0).is_valid());
    assert!(!EsDump::new("idx").scroll_size(-3).is_valid());
    assert!(EsDump::new("idx").scroll_size(1).is_valid());
}

#[test]
fn a_negative_page_size_is_written_with_its_sign() {
    let job = EsDump::new("idx").scroll_size(-12);
    assert_eq!(job.search_url(), "http://localhost:9200/idx/_search?scroll=1m&size=-12");
}

#[test]
fn decimal_digits_are_appended() {
    let mut text = String::from("n=");
    push_decimal(&mut text, 0);
    assert_eq!(text, "n=0");
    push_decimal(&mut text, 9);
    push_decimal(&mut text, 10);
    push_decimal(&mut text, 305);
    assert_eq!(text, "n=0910305");
    let mut max = String::new();
    push_decimal(&mut max, u64::MAX);
    assert_eq!(max, "18446744073709551615");
}

#[test]
fn signed_decimal_handles_both_ends() {
    let mut text = String::new();
    push_signed_decimal(&mut text, i64::MIN);
    assert_eq!(text, "-9223372036854775808");
    let mut top = String::new();
    push_signed_decimal(&mut top, i64::MAX);
    assert_eq!(top, "9223372036854775807");
    let mut small = String::new();
    push_signed_decimal(&mut small, -1);
    push_signed_decimal(&mut small, 0);
    assert_eq!(small, "-10");
}
