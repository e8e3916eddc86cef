use repo_migrate::decode::{decode_record, process_page, SourceDecodeError};
use repo_migrate::enumerate::Enumeration;
use repo_migrate::model::{RawRecord, RunFilter};
use repo_migrate::Visibility;

fn all_filter() -> RunFilter {
    RunFilter { include_public: true, include_private: true, any_owner: true, include_forks: true }
}

fn record_json(name: &str, owner: &str, visibility: &str, fork: bool) -> String {
    format!(
        "{{\"name\":\"{}\",\"visibility\":\"{}\",\"fork\":{},\"owner\":{{\"login\":\"{}\"}}}}",
        name, visibility, fork, owner
    )
}

#[test]
fn pagination_three_pages() {
    let mut e = Enumeration::new(all_filter(), String::from("alice"));
    assert_eq!(e.next_page(), 1);
    assert!(!e.is_done());

    let page1 = format!(
        "[{},{}]",
        record_json("r1", "alice", "public", false),
        record_json("r2", "alice", "private", false)
    );
    let more = e.feed_body(&page1).unwrap();
    assert!(more);
    assert_eq!(e.next_page(), 2);

    let page2 = format!("[{}]", record_json("r3", "bob", "public", true));
    let more = e.feed_body(&page2).unwrap();
    assert!(more);
    assert_eq!(e.next_page(), 3);

    let more = e.feed_body("[]").unwrap();
    assert!(!more);
    assert!(e.is_done());
    assert_eq!(e.next_page(), 3);

    let matches = e.into_matches();
    let names: Vec<&str> = matches.iter().map(|d| d.name.as_str()).collect();
    assert_eq!(names, vec!["r1", "r2", "r3"]);
}

#[test]
fn pagination_applies_filter_in_order() {
    let filter = RunFilter {
        include_public: true,
        include_private: false,
        any_owner: false,
        include_forks: false,
    };
    let mut e = Enumeration::new(filter, String::from("alice"));
    let page = format!(
        "[{},{},{},{}]",
        record_json("keep1", "alice", "public", false),
        record_json("drop_private", "alice", "private", false),
        record_json("drop_owner", "bob", "public", false),
        record_json("keep2", "alice", "public", false)
    );
    let more = e.feed_body(&page).unwrap();
    assert!(more);
    let matches = e.into_matches();
    let names: Vec<&str> = matches.iter().map(|d| d.name.as_str()).collect();
    assert_eq!(names, vec!["keep1", "keep2"]);
}

#[test]
fn missing_owner_login_is_fatal_with_no_descriptors() {
    let mut e = Enumeration::new(all_filter(), String::from("alice"));
    let page = format!(
        "[{},{{\"name\":\"bad\",\"visibility\":\"public\",\"fork\":false}},{}]",
        record_json("good1", "alice", "public", false),
        record_json("good2", "alice", "public", false)
    );
    let err = e.feed_body(&page).unwrap_err();
    assert_eq!(err, SourceDecodeError::InvalidRecord);
    assert_eq!(e.matched_count(), 0);
    assert!(!e.is_done());
    assert_eq!(e.next_page(), 1);
}

#[test]
fn malformed_json_is_fatal() {
    let mut e = Enumeration::new(all_filter(), String::from("alice"));
    let err = e.feed_body("not json at all").unwrap_err();
    assert_eq!(err, SourceDecodeError::MalformedPage);
    assert_eq!(e.matched_count(), 0);
}

#[test]
fn non_array_page_is_fatal() {
    let mut e = Enumeration::new(all_filter(), String::from("alice"));
    let err = e.feed_body("{\"message\":\"rate limited\"}").unwrap_err();
    assert_eq!(err, SourceDecodeError::MalformedPage);
}

fn raw(
    name: Option<&str>,
    owner: Option<&str>,
    visibility: Option<&str>,
    fork: Option<bool>,
) -> RawRecord {
    RawRecord {
        name: name.map(String::from),
        owner_login: owner.map(String::from),
        visibility: visibility.map(String::from),
        fork,
    }
}

#[test]
fn decode_reads_all_fields() {
    let d = decode_record(&raw(Some("r1"), Some("alice"), Some("private"), Some(true))).unwrap();
    assert_eq!(d.name, "r1");
    assert_eq!(d.owner, "alice");
    assert_eq!(d.visibility, Visibility::Private);
    assert!(d.is_fork);
}

#[test]
fn decode_defaults_visibility_and_fork() {
    // an absent visibility counts as public; an absent fork counts as a fork
    let d = decode_record(&raw(Some("r1"), Some("alice"), None, None)).unwrap();
    assert_eq!(d.visibility, Visibility::Public);
    assert!(d.is_fork);
    let d = decode_record(&raw(Some("r1"), Some("alice"), Some("internal"), Some(false))).unwrap();
    assert_eq!(d.visibility, Visibility::Public);
    assert!(!d.is_fork);
}

#[test]
fn decode_rejects_missing_or_empty_required_fields() {
    assert_eq!(
        decode_record(&raw(None, Some("alice"), Some("public"), Some(false))).unwrap_err(),
        SourceDecodeError::InvalidRecord
    );
    assert_eq!(
        decode_record(&raw(Some("r1"), None, Some("public"), Some(false))).unwrap_err(),
        SourceDecodeError::InvalidRecord
    );
    assert_eq!(
        decode_record(&raw(Some(""), Some("alice"), None, None)).unwrap_err(),
        SourceDecodeError::InvalidRecord
    );
    assert_eq!(
        decode_record(&raw(Some("r1"), Some(""), None, None)).unwrap_err(),
        SourceDecodeError::InvalidRecord
    );
}

#[test]
fn process_page_fails_whole_page_on_first_bad_record() {
    let user = String::from("alice");
    let page = vec![
        raw(Some("good"), Some("alice"), Some("public"), Some(false)),
        raw(Some("bad"), None, Some("public"), Some(false)),
    ];
    let err = process_page(&all_filter(), &user, &page).unwrap_err();
    assert_eq!(err, SourceDecodeError::InvalidRecord);
}

#[test]
fn error_messages_name_the_failure() {
    assert_eq!(
        SourceDecodeError::MalformedPage.describe(),
        "source page is not a JSON array"
    );
    assert_eq!(
        SourceDecodeError::InvalidRecord.describe(),
        "source record lacks a required field"
    );
}
