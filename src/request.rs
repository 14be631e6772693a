//! What a request is made of, endpoint by endpoint: the base URL of a site,
//! the paths, and the ordered query parameters of each GET endpoint.

use vstd::prelude::*;

use crate::config::opt_view;
use crate::text::{push_all, push_str, signed_decimal, signed_decimal_chars, string_of};

verus! {

/// The characters of a list of query parameters.
pub open spec fn param_views(v: Seq<(String, String)>) -> Seq<(Seq<char>, Seq<char>)> {
    v.map_values(|p: (String, String)| (p.0@, p.1@))
}

/// A parameter where a value is given; nothing otherwise.
pub open spec fn opt_param(key: Seq<char>, v: Option<Seq<char>>) -> Seq<(Seq<char>, Seq<char>)> {
    match v {
        Some(x) => seq![(key, x)],
        None => Seq::<(Seq<char>, Seq<char>)>::empty(),
    }
}

/// A numeric parameter, in decimal, where a value is given; nothing otherwise.
pub open spec fn opt_num_param(key: Seq<char>, v: Option<i64>) -> Seq<(Seq<char>, Seq<char>)> {
    match v {
        Some(n) => seq![(key, signed_decimal(n as int))],
        None => Seq::<(Seq<char>, Seq<char>)>::empty(),
    }
}

/// A flag parameter, `true`, where the flag is set; nothing otherwise.
pub open spec fn flag_param(key: Seq<char>, v: Option<bool>) -> Seq<(Seq<char>, Seq<char>)> {
    if v == Some(true) {
        seq![(key, "true"@)]
    } else {
        Seq::<(Seq<char>, Seq<char>)>::empty()
    }
}

/// No parameter list at all where there are no parameters.
pub open spec fn unless_empty(s: Seq<(Seq<char>, Seq<char>)>) -> Option<
    Seq<(Seq<char>, Seq<char>)>,
> {
    if s.len() == 0 {
        None
    } else {
        Some(s)
    }
}

/// The view of an optional parameter list.
pub open spec fn opt_params_view(p: Option<Vec<(String, String)>>) -> Option<
    Seq<(Seq<char>, Seq<char>)>,
> {
    match p {
        Some(v) => Some(param_views(v@)),
        None => None,
    }
}

/// An `i32` widened, where given.
pub open spec fn wide(v: Option<i32>) -> Option<i64> {
    match v {
        Some(n) => Some(n as i64),
        None => None,
    }
}

fn widen(v: Option<i32>) -> (r: Option<i64>)
    ensures
        r == wide(v),
{
    match v {
        Some(n) => Some(n as i64),
        None => None,
    }
}

/// The decimal text of a number.
pub fn number_text(n: i64) -> (r: String)
    ensures
        r@ == signed_decimal(n as int),
{
    string_of(&signed_decimal_chars(n))
}

fn push_param(params: &mut Vec<(String, String)>, key: &str, value: String)
    ensures
        param_views(final(params)@) == param_views(old(params)@).push((key@, value@)),
{
    let ghost before = params@;
    params.push((key.to_owned(), value));
    assert(param_views(params@) =~= param_views(before).push((key@, value@)));
}

fn push_opt(params: &mut Vec<(String, String)>, key: &str, value: Option<String>)
    ensures
        param_views(final(params)@) == param_views(old(params)@) + opt_param(key@, opt_view(value)),
{
    match value {
        Some(v) => push_param(params, key, v),
        None => {
            assert(param_views(params@) =~= param_views(params@) + opt_param(key@, None));
        },
    }
}

fn push_opt_num(params: &mut Vec<(String, String)>, key: &str, value: Option<i64>)
    ensures
        param_views(final(params)@) == param_views(old(params)@) + opt_num_param(key@, value),
{
    match value {
        Some(n) => push_param(params, key, number_text(n)),
        None => {
            assert(param_views(params@) =~= param_views(params@) + opt_num_param(key@, None));
        },
    }
}

fn push_flag(params: &mut Vec<(String, String)>, key: &str, value: Option<bool>)
    ensures
        param_views(final(params)@) == param_views(old(params)@) + flag_param(key@, value),
{
    if value == Some(true) {
        push_param(params, key, String::from_str("true"));
    } else {
        assert(param_views(params@) =~= param_views(params@) + flag_param(key@, value));
    }
}

fn nonempty(params: Vec<(String, String)>) -> (r: Option<Vec<(String, String)>>)
    ensures
        opt_params_view(r) == unless_empty(param_views(params@)),
{
    if params.len() == 0 {
        None
    } else {
        Some(params)
    }
}

/// The base URL of the API on a site; the main site where none is given.
pub fn base_url(site: Option<&str>) -> (r: String)
    ensures
        r@ == "https://api."@ + match site {
            Some(s) => s@,
            None => "datadoghq.com"@,
        },
{
    let mut out: Vec<char> = Vec::new();
    push_str(&mut out, "https://api.");
    match site {
        Some(s) => push_str(&mut out, s),
        None => push_str(&mut out, "datadoghq.com"),
    }
    string_of(&out)
}

/// The path of one monitor.
pub fn monitor_path(monitor_id: i64) -> (r: String)
    ensures
        r@ == "/api/v1/monitor/"@ + signed_decimal(monitor_id as int),
{
    let mut out: Vec<char> = Vec::new();
    push_str(&mut out, "/api/v1/monitor/");
    push_all(&mut out, &signed_decimal_chars(monitor_id));
    string_of(&out)
}

/// The path of one dashboard.
pub fn dashboard_path(dashboard_id: &str) -> (r: String)
    ensures
        r@ == "/api/v1/dashboard/"@ + dashboard_id@,
{
    let mut out: Vec<char> = Vec::new();
    push_str(&mut out, "/api/v1/dashboard/");
    push_str(&mut out, dashboard_id);
    string_of(&out)
}

/// The parameters of a metrics query.
pub fn metrics_params(query: &str, from: i64, to: i64) -> (r: Vec<(String, String)>)
    ensures
        param_views(r@) == seq![
            ("query"@, query@),
            ("from"@, signed_decimal(from as int)),
            ("to"@, signed_decimal(to as int)),
        ],
{
    let mut params: Vec<(String, String)> = Vec::new();
    push_param(&mut params, "query", query.to_owned());
    push_param(&mut params, "from", number_text(from));
    push_param(&mut params, "to", number_text(to));
    assert(param_views(params@) =~= seq![
        ("query"@, query@),
        ("from"@, signed_decimal(from as int)),
        ("to"@, signed_decimal(to as int)),
    ]);
    params
}

/// The parameters of a monitor listing; none where nothing is given.
pub fn monitors_params(
    tags: Option<String>,
    monitor_tags: Option<String>,
    page: Option<i32>,
    page_size: Option<i32>,
) -> (r: Option<Vec<(String, String)>>)
    ensures
        opt_params_view(r) == unless_empty(
            opt_param("tags"@, opt_view(tags)) + opt_param("monitor_tags"@, opt_view(monitor_tags))
                + opt_num_param("page"@, wide(page)) + opt_num_param(
                "page_size"@,
                wide(page_size),
            ),
        ),
{
    let ghost spec_tags = opt_view(tags);
    let ghost spec_monitor_tags = opt_view(monitor_tags);
    let mut params: Vec<(String, String)> = Vec::new();
    assert(param_views(params@) =~= Seq::<(Seq<char>, Seq<char>)>::empty());
    push_opt(&mut params, "tags", tags);
    push_opt(&mut params, "monitor_tags", monitor_tags);
    push_opt_num(&mut params, "page", widen(page));
    push_opt_num(&mut params, "page_size", widen(page_size));
    assert(param_views(params@) =~= opt_param("tags"@, spec_tags) + opt_param(
        "monitor_tags"@,
        spec_monitor_tags,
    ) + opt_num_param("page"@, wide(page)) + opt_num_param("page_size"@, wide(page_size)));
    nonempty(params)
}

/// The parameters of an events query.
pub fn events_params(
    start: i64,
    end: i64,
    priority: Option<String>,
    sources: Option<String>,
    tags: Option<String>,
) -> (r: Vec<(String, String)>)
    ensures
        param_views(r@) == seq![
            ("start"@, signed_decimal(start as int)),
            ("end"@, signed_decimal(end as int)),
        ] + opt_param("priority"@, opt_view(priority)) + opt_param("sources"@, opt_view(sources))
            + opt_param("tags"@, opt_view(tags)),
{
    let ghost sp = opt_view(priority);
    let ghost ss = opt_view(sources);
    let ghost st = opt_view(tags);
    let mut params: Vec<(String, String)> = Vec::new();
    push_param(&mut params, "start", number_text(start));
    push_param(&mut params, "end", number_text(end));
    push_opt(&mut params, "priority", priority);
    push_opt(&mut params, "sources", sources);
    push_opt(&mut params, "tags", tags);
    assert(param_views(params@) =~= seq![
        ("start"@, signed_decimal(start as int)),
        ("end"@, signed_decimal(end as int)),
    ] + opt_param("priority"@, sp) + opt_param("sources"@, ss) + opt_param("tags"@, st));
    params
}

/// The parameters of a host listing; none where nothing is given.
pub fn hosts_params(
    filter: Option<String>,
    from: Option<i64>,
    sort_field: Option<String>,
    sort_dir: Option<String>,
    start: Option<i32>,
    count: Option<i32>,
) -> (r: Option<Vec<(String, String)>>)
    ensures
        opt_params_view(r) == unless_empty(
            opt_param("filter"@, opt_view(filter)) + opt_num_param("from"@, from) + opt_param(
                "sort_field"@,
                opt_view(sort_field),
            ) + opt_param("sort_dir"@, opt_view(sort_dir)) + opt_num_param("start"@, wide(start))
                + opt_num_param("count"@, wide(count)),
        ),
{
    let ghost sf = opt_view(filter);
    let ghost ssf = opt_view(sort_field);
    let ghost ssd = opt_view(sort_dir);
    let mut params: Vec<(String, String)> = Vec::new();
    assert(param_views(params@) =~= Seq::<(Seq<char>, Seq<char>)>::empty());
    push_opt(&mut params, "filter", filter);
    push_opt_num(&mut params, "from", from);
    push_opt(&mut params, "sort_field", sort_field);
    push_opt(&mut params, "sort_dir", sort_dir);
    push_opt_num(&mut params, "start", widen(start));
    push_opt_num(&mut params, "count", widen(count));
    assert(param_views(params@) =~= opt_param("filter"@, sf) + opt_num_param("from"@, from)
        + opt_param("sort_field"@, ssf) + opt_param("sort_dir"@, ssd) + opt_num_param(
        "start"@,
        wide(start),
    ) + opt_num_param("count"@, wide(count)));
    nonempty(params)
}

/// The parameters of a dashboard listing; none where nothing is given.
pub fn dashboards_params(
    count: Option<i32>,
    start: Option<i32>,
    filter_shared: Option<bool>,
    filter_deleted: Option<bool>,
) -> (r: Option<Vec<(String, String)>>)
    ensures
        opt_params_view(r) == unless_empty(
            opt_num_param("count"@, wide(count)) + opt_num_param("start"@, wide(start))
                + flag_param("filter[shared]"@, filter_shared) + flag_param(
                "filter[deleted]"@,
                filter_deleted,
            ),
        ),
{
    let mut params: Vec<(String, String)> = Vec::new();
    assert(param_views(params@) =~= Seq::<(Seq<char>, Seq<char>)>::empty());
    push_opt_num(&mut params, "count", widen(count));
    push_opt_num(&mut params, "start", widen(start));
    push_flag(&mut params, "filter[shared]", filter_shared);
    push_flag(&mut params, "filter[deleted]", filter_deleted);
    assert(param_views(params@) =~= opt_num_param("count"@, wide(count)) + opt_num_param(
        "start"@,
        wide(start),
    ) + flag_param("filter[shared]"@, filter_shared) + flag_param(
        "filter[deleted]"@,
        filter_deleted,
    ));
    nonempty(params)
}

/// The parameters of a span search.
pub fn spans_params(
    query: &str,
    from: &str,
    to: &str,
    limit: i32,
    cursor: Option<String>,
    sort: Option<String>,
) -> (r: Vec<(String, String)>)
    ensures
        param_views(r@) == seq![
            ("filter[query]"@, query@),
            ("filter[from]"@, from@),
            ("filter[to]"@, to@),
            ("page[limit]"@, signed_decimal(limit as int)),
        ] + opt_param("page[cursor]"@, opt_view(cursor)) + opt_param("sort"@, opt_view(sort)),
{
    let ghost sc = opt_view(cursor);
    let ghost ss = opt_view(sort);
    let mut params: Vec<(String, String)> = Vec::new();
    push_param(&mut params, "filter[query]", query.to_owned());
    push_param(&mut params, "filter[from]", from.to_owned());
    push_param(&mut params, "filter[to]", to.to_owned());
    push_param(&mut params, "page[limit]", number_text(limit as i64));
    push_opt(&mut params, "page[cursor]", cursor);
    push_opt(&mut params, "sort", sort);
    assert(param_views(params@) =~= seq![
        ("filter[query]"@, query@),
        ("filter[from]"@, from@),
        ("filter[to]"@, to@),
        ("page[limit]"@, signed_decimal(limit as int)),
    ] + opt_param("page[cursor]"@, sc) + opt_param("sort"@, ss));
    params
}

/// The parameters of a service catalog listing; none where nothing is given.
pub fn services_params(
    page_size: Option<i32>,
    page_number: Option<i32>,
    filter_env: Option<String>,
) -> (r: Option<Vec<(String, String)>>)
    ensures
        opt_params_view(r) == unless_empty(
            opt_num_param("page[size]"@, wide(page_size)) + opt_num_param(
                "page[number]"@,
                wide(page_number),
            ) + opt_param("filter[env]"@, opt_view(filter_env)),
        ),
{
    let ghost se = opt_view(filter_env);
    let mut params: Vec<(String, String)> = Vec::new();
    assert(param_views(params@) =~= Seq::<(Seq<char>, Seq<char>)>::empty());
    push_opt_num(&mut params, "page[size]", widen(page_size));
    push_opt_num(&mut params, "page[number]", widen(page_number));
    push_opt(&mut params, "filter[env]", filter_env);
    assert(param_views(params@) =~= opt_num_param("page[size]"@, wide(page_size))
        + opt_num_param("page[number]"@, wide(page_number)) + opt_param("filter[env]"@, se));
    nonempty(params)
}

} // verus!
