use repo_migrate::creds::Credentials;
use repo_migrate::model::RepositoryDescriptor;
use repo_migrate::request::{
    basic_auth_value, build_request, build_requests, dest_header_values, migrate_url, page_url,
    source_header_values,
};
use repo_migrate::text::{strip_line_ending, trim_whitespace, u64_to_decimal};
use repo_migrate::Visibility;

fn creds() -> Credentials {
    Credentials {
        source_user: String::from("alice"),
        source_secret: String::from("tok123"),
        dest_user: String::from("bob"),
        dest_secret: String::from("pw456"),
    }
}

#[test]
fn builds_private_mirror_request() {
    let descriptor = RepositoryDescriptor {
        name: String::from("repo1"),
        owner: String::from("alice"),
        visibility: Visibility::Private,
        is_fork: false,
    };
    let req = build_request(&descriptor, &creds(), true);
    assert_eq!(req.clone_url, "https://github.com/alice/repo1");
    assert_eq!(req.repo_name, "repo1");
    assert_eq!(req.dest_owner, "bob");
    assert!(req.mirror);
    assert!(req.private);
    assert_eq!(req.auth_user, "alice");
    assert_eq!(req.auth_secret, "tok123");
}

#[test]
fn builds_public_non_mirror_request() {
    let descriptor = RepositoryDescriptor {
        name: String::from("repo2"),
        owner: String::from("carol"),
        visibility: Visibility::Public,
        is_fork: true,
    };
    let req = build_request(&descriptor, &creds(), false);
    assert_eq!(req.clone_url, "https://github.com/carol/repo2");
    assert!(!req.mirror);
    assert!(!req.private);
}

#[test]
fn builds_one_request_per_descriptor_in_order() {
    let descriptors = vec![
        RepositoryDescriptor {
            name: String::from("a"),
            owner: String::from("alice"),
            visibility: Visibility::Public,
            is_fork: false,
        },
        RepositoryDescriptor {
            name: String::from("b"),
            owner: String::from("alice"),
            visibility: Visibility::Private,
            is_fork: false,
        },
    ];
    let requests = build_requests(&descriptors, &creds(), false);
    assert_eq!(requests.len(), 2);
    assert_eq!(requests[0].repo_name, "a");
    assert!(!requests[0].private);
    assert_eq!(requests[1].repo_name, "b");
    assert!(requests[1].private);
    assert_eq!(requests[1].clone_url, "https://github.com/alice/b");
}

#[test]
fn basic_auth_is_base64_of_user_colon_secret() {
    // base64("alice:tok") == "YWxpY2U6dG9r"
    assert_eq!(basic_auth_value("alice", "tok"), "Basic YWxpY2U6dG9r");
    // the empty-secret form still carries the colon: base64("alice:")
    assert_eq!(basic_auth_value("alice", ""), "Basic YWxpY2U6");
}

#[test]
fn source_headers_carry_versioned_accept() {
    let h = source_header_values(&creds());
    assert_eq!(h.authorization, format!("Basic {}", base64::encode("alice:tok123")));
    assert_eq!(h.user_agent, "api");
    assert_eq!(h.accept, "application/vnd.github.v3+json");
    assert!(h.content_type.is_none());
}

#[test]
fn dest_headers_carry_json_content_type() {
    let h = dest_header_values(&creds());
    assert_eq!(h.authorization, format!("Basic {}", base64::encode("bob:pw456")));
    assert_eq!(h.user_agent, "api");
    assert_eq!(h.accept, "application/json");
    assert_eq!(h.content_type.as_deref(), Some("application/json"));
}

#[test]
fn page_url_renders_numbers_in_decimal() {
    assert_eq!(
        page_url("https://api.github.com/", 100, 1),
        "https://api.github.com/user/repos?per_page=100&page=1"
    );
    assert_eq!(
        page_url("https://api.github.com/", 100, 37),
        "https://api.github.com/user/repos?per_page=100&page=37"
    );
}

#[test]
fn migrate_url_appends_endpoint() {
    assert_eq!(
        migrate_url("https://gitea.example.com"),
        "https://gitea.example.com/api/v1/repos/migrate"
    );
}

#[test]
fn decimal_rendering() {
    assert_eq!(u64_to_decimal(0), "0");
    assert_eq!(u64_to_decimal(7), "7");
    assert_eq!(u64_to_decimal(105), "105");
    assert_eq!(u64_to_decimal(u64::MAX), "18446744073709551615");
}

#[test]
fn strip_line_ending_forms() {
    assert_eq!(strip_line_ending("abc\n"), "abc");
    assert_eq!(strip_line_ending("abc\r\n"), "abc");
    assert_eq!(strip_line_ending("abc"), "abc");
    assert_eq!(strip_line_ending("abc\n\n"), "abc\n");
    assert_eq!(strip_line_ending(""), "");
    assert_eq!(strip_line_ending("\n"), "");
}

#[test]
fn trim_whitespace_forms() {
    assert_eq!(trim_whitespace("  alice:tok123 \t\r\n"), "alice:tok123");
    assert_eq!(trim_whitespace("a b"), "a b");
    assert_eq!(trim_whitespace("\u{00A0}x\u{3000}"), "x");
    assert_eq!(trim_whitespace("   "), "");
    assert_eq!(trim_whitespace(""), "");
}
