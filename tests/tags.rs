use datadog_cli::shaping::extract_tag_filter;
use datadog_cli::tags::{filter_tags, filter_tags_map};

fn tags(v: &[&str]) -> Vec<String> {
    v.iter().map(|s| s.to_string()).collect()
}

#[test]
fn hosts_test_tag_filter_modes() {
    let tag_filter_all = "*";
    let tag_filter_none = "";
    let tag_filter_specific = "env:,service:";

    assert_eq!(tag_filter_all, "*");
    assert_eq!(tag_filter_none, "");
    assert!(tag_filter_specific.contains("env:"));
}

#[test]
fn logs_test_tag_filter_modes() {
    let tags = vec!["env:prod".to_string(), "service:api".to_string()];

    assert_eq!(filter_tags(&tags, "*").len(), 2);
    assert_eq!(filter_tags(&tags, "env:").len(), 1);
    assert_eq!(filter_tags(&tags, "").len(), 0);
}

#[test]
fn test_tag_filter_trait() {
    let tags = vec!["env:prod".to_string(), "service:web".to_string()];

    assert_eq!(filter_tags(&tags, "*").len(), 2);
    assert_eq!(filter_tags(&tags, "env:").len(), 1);
    assert_eq!(filter_tags(&tags, "").len(), 0);
}

#[test]
fn filter_modes_exact_results() {
    let t = tags(&["env:prod", "service:api"]);
    assert_eq!(filter_tags(&t, "*"), t);
    assert_eq!(filter_tags(&t, "env:"), tags(&["env:prod"]));
    assert_eq!(filter_tags(&t, ""), Vec::<String>::new());
}

#[test]
fn prefixes_are_trimmed_and_order_kept() {
    let t = tags(&["service:api", "host:a", "env:prod", "env:dev"]);
    assert_eq!(filter_tags(&t, " env: , service:"), tags(&["service:api", "env:prod", "env:dev"]));
    assert_eq!(filter_tags(&t, "\tenv:prod\n"), tags(&["env:prod"]));
}

#[test]
fn prefix_match_is_case_sensitive() {
    let t = tags(&["Env:prod"]);
    assert!(filter_tags(&t, "env:").is_empty());
}

#[test]
fn empty_piece_matches_everything() {
    let t = tags(&["a", "b"]);
    assert_eq!(filter_tags(&t, "zzz,"), t);
}

#[test]
fn map_filter_drops_empty_sources() {
    let m = vec![
        ("aws".to_string(), tags(&["env:prod", "region:us"])),
        ("chef".to_string(), tags(&["role:db"])),
    ];
    let r = filter_tags_map(Some(&m), "env:").unwrap();
    assert_eq!(r, vec![("aws".to_string(), tags(&["env:prod"]))]);
}

#[test]
fn map_filter_modes() {
    let m = vec![("aws".to_string(), tags(&["env:prod"]))];
    assert_eq!(filter_tags_map(Some(&m), "*"), Some(m.clone()));
    assert_eq!(filter_tags_map(Some(&m), ""), None);
    assert_eq!(filter_tags_map(None, "env:"), None);
    assert_eq!(filter_tags_map(None, "*"), None);
    assert_eq!(filter_tags_map(Some(&m), "x:"), Some(Vec::new()));
}

#[test]
fn tag_filter_precedence() {
    assert_eq!(extract_tag_filter(Some("env:"), Some("service:")), "env:");
    assert_eq!(extract_tag_filter(None, Some("service:")), "service:");
    assert_eq!(extract_tag_filter(None, None), "*");
}
