use datadog_cli::request::{
    base_url, dashboard_path, dashboards_params, events_params, hosts_params, metrics_params,
    monitor_path, monitors_params, services_params, spans_params,
};

fn pairs(v: &[(&str, &str)]) -> Vec<(String, String)> {
    v.iter().map(|(k, x)| (k.to_string(), x.to_string())).collect()
}

#[test]
fn regional_base_urls() {
    assert_eq!(base_url(None), "https://api.datadoghq.com");
    assert_eq!(base_url(Some("datadoghq.com")), "https://api.datadoghq.com");
    assert_eq!(base_url(Some("datadoghq.eu")), "https://api.datadoghq.eu");
    assert_eq!(base_url(Some("us3.datadoghq.com")), "https://api.us3.datadoghq.com");
    assert_eq!(base_url(Some("us5.datadoghq.com")), "https://api.us5.datadoghq.com");
}

#[test]
fn paths_of_single_resources() {
    assert_eq!(monitor_path(12345), "/api/v1/monitor/12345");
    assert_eq!(monitor_path(-1), "/api/v1/monitor/-1");
    assert_eq!(dashboard_path("abc-def"), "/api/v1/dashboard/abc-def");
}

#[test]
fn metrics_query_parameters() {
    assert_eq!(
        metrics_params("avg:cpu{*}", 1704063600, 1704067200),
        pairs(&[("query", "avg:cpu{*}"), ("from", "1704063600"), ("to", "1704067200")])
    );
}

#[test]
fn monitors_parameters_only_when_given() {
    assert_eq!(monitors_params(None, None, None, None), None);
    assert_eq!(
        monitors_params(Some("env:prod".to_string()), None, Some(0), Some(100)),
        Some(pairs(&[("tags", "env:prod"), ("page", "0"), ("page_size", "100")]))
    );
}

#[test]
fn events_parameters() {
    assert_eq!(
        events_params(1, 2, Some("normal".to_string()), None, Some("env:prod".to_string())),
        pairs(&[("start", "1"), ("end", "2"), ("priority", "normal"), ("tags", "env:prod")])
    );
}

#[test]
fn hosts_parameters_in_order() {
    assert_eq!(
        hosts_params(
            Some("web".to_string()),
            Some(-3600),
            Some("cpu".to_string()),
            Some("desc".to_string()),
            Some(0),
            Some(100)
        ),
        Some(pairs(&[
            ("filter", "web"),
            ("from", "-3600"),
            ("sort_field", "cpu"),
            ("sort_dir", "desc"),
            ("start", "0"),
            ("count", "100")
        ]))
    );
    assert_eq!(hosts_params(None, None, None, None, None, None), None);
}

#[test]
fn dashboards_flags_only_when_set() {
    assert_eq!(
        dashboards_params(Some(100), Some(0), Some(true), Some(false)),
        Some(pairs(&[("count", "100"), ("start", "0"), ("filter[shared]", "true")]))
    );
    assert_eq!(dashboards_params(None, None, Some(false), None), None);
}

#[test]
fn spans_parameters() {
    assert_eq!(
        spans_params("service:web", "a", "b", 10, Some("c1".to_string()), None),
        pairs(&[
            ("filter[query]", "service:web"),
            ("filter[from]", "a"),
            ("filter[to]", "b"),
            ("page[limit]", "10"),
            ("page[cursor]", "c1")
        ])
    );
}

#[test]
fn services_parameters() {
    assert_eq!(
        services_params(Some(100), Some(2), Some("prod".to_string())),
        Some(pairs(&[("page[size]", "100"), ("page[number]", "2"), ("filter[env]", "prod")]))
    );
    assert_eq!(services_params(None, None, None), None);
}
