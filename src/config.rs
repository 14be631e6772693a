//! Configuration: built-in defaults, merging a configuration file over them,
//! overrides from the environment and the command line, validation, and
//! the masked text that shows a configuration.

use vstd::prelude::*;

use crate::errors::{DatadogError, ErrorView};
use crate::text::{
    chars_of, contains_chars, decimal, decimal_chars, occurs_in, push_all, push_str,
    signed_decimal, signed_decimal_chars, string_of,
};

verus! {

/// The whole configuration of a client.
#[derive(Debug, Clone)]
pub struct Config {
    pub api_key: Option<String>,
    pub app_key: Option<String>,
    pub site: String,
    pub defaults: Defaults,
    pub network: Network,
}

/// Defaults for requests and output.
#[derive(Debug, Clone)]
pub struct Defaults {
    pub format: String,
    pub time_range: String,
    pub limit: i32,
    pub page_size: i32,
    pub tag_filter: Option<String>,
}

/// Network settings.
#[derive(Debug, Clone, Copy, PartialEq, Eq, Structural)]
pub struct Network {
    pub timeout_secs: u64,
    pub max_retries: u32,
}

/// Values that replace configured ones where given (from the environment or
/// the command line).
#[derive(Debug, Clone)]
pub struct Overrides {
    pub api_key: Option<String>,
    pub app_key: Option<String>,
    pub site: Option<String>,
    pub tag_filter: Option<String>,
}

/// The characters of an optional string.
pub open spec fn opt_view(o: Option<String>) -> Option<Seq<char>> {
    match o {
        Some(s) => Some(s@),
        None => None,
    }
}

/// The mathematical content of `Defaults`.
pub struct DefaultsView {
    pub format: Seq<char>,
    pub time_range: Seq<char>,
    pub limit: i32,
    pub page_size: i32,
    pub tag_filter: Option<Seq<char>>,
}

/// The mathematical content of `Config`.
pub struct ConfigView {
    pub api_key: Option<Seq<char>>,
    pub app_key: Option<Seq<char>>,
    pub site: Seq<char>,
    pub defaults: DefaultsView,
    pub network: Network,
}

impl View for Defaults {
    type V = DefaultsView;

    open spec fn view(&self) -> DefaultsView {
        DefaultsView {
            format: self.format@,
            time_range: self.time_range@,
            limit: self.limit,
            page_size: self.page_size,
            tag_filter: opt_view(self.tag_filter),
        }
    }
}

impl View for Config {
    type V = ConfigView;

    open spec fn view(&self) -> ConfigView {
        ConfigView {
            api_key: opt_view(self.api_key),
            app_key: opt_view(self.app_key),
            site: self.site@,
            defaults: self.defaults@,
            network: self.network,
        }
    }
}

// ---------------------------------------------------------------------------
// Defaults

/// The built-in defaults.
pub open spec fn default_defaults() -> DefaultsView {
    DefaultsView {
        format: "json"@,
        time_range: "1 hour ago"@,
        limit: 10,
        page_size: 100,
        tag_filter: None,
    }
}

/// The built-in network settings.
pub open spec fn default_network() -> Network {
    Network { timeout_secs: 30, max_retries: 3 }
}

/// The built-in configuration: no keys, the main site, default settings.
pub open spec fn default_config() -> ConfigView {
    ConfigView {
        api_key: None,
        app_key: None,
        site: "datadoghq.com"@,
        defaults: default_defaults(),
        network: default_network(),
    }
}

impl Defaults {
    /// The site used when none is configured.
    pub fn default_site() -> (r: String)
        ensures
            r@ == "datadoghq.com"@,
    {
        String::from_str("datadoghq.com")
    }

    /// The output format used when none is configured.
    pub fn default_format() -> (r: String)
        ensures
            r@ == default_defaults().format,
    {
        String::from_str("json")
    }

    /// The start of the time range used when none is given.
    pub fn default_time_range() -> (r: String)
        ensures
            r@ == default_defaults().time_range,
    {
        String::from_str("1 hour ago")
    }

    /// The number of results asked for when none is given.
    pub fn default_limit() -> (r: i32)
        ensures
            r == default_defaults().limit,
    {
        10
    }

    /// The page size used when none is given.
    pub fn default_page_size() -> (r: i32)
        ensures
            r == default_defaults().page_size,
    {
        100
    }

    /// Merges `other` over `self`: each setting of `other` that differs from
    /// its built-in default wins, and a tag filter of `other` wins.
    pub fn merge(self, other: Self) -> (r: Self)
        ensures
            r@ == merged_defaults(self@, other@),
    {
        let mut merged = self;
        if !(other.format == Self::default_format()) {
            merged.format = other.format;
        }
        if !(other.time_range == Self::default_time_range()) {
            merged.time_range = other.time_range;
        }
        if other.limit != Self::default_limit() {
            merged.limit = other.limit;
        }
        if other.page_size != Self::default_page_size() {
            merged.page_size = other.page_size;
        }
        if other.tag_filter.is_some() {
            merged.tag_filter = other.tag_filter;
        }
        merged
    }
}

impl Default for Defaults {
    fn default() -> (r: Self)
        ensures
            r@ == default_defaults(),
    {
        Defaults {
            format: Self::default_format(),
            time_range: Self::default_time_range(),
            limit: Self::default_limit(),
            page_size: Self::default_page_size(),
            tag_filter: None,
        }
    }
}

impl Network {
    /// The request timeout used when none is configured.
    pub fn default_timeout_secs() -> (r: u64)
        ensures
            r == default_network().timeout_secs,
    {
        30
    }

    /// The retry bound used when none is configured.
    pub fn default_max_retries() -> (r: u32)
        ensures
            r == default_network().max_retries,
    {
        3
    }
}

impl Default for Network {
    fn default() -> (r: Self)
        ensures
            r == default_network(),
    {
        Network {
            timeout_secs: Self::default_timeout_secs(),
            max_retries: Self::default_max_retries(),
        }
    }
}

impl Default for Config {
    fn default() -> (r: Self)
        ensures
            r@ == default_config(),
    {
        Config {
            api_key: None,
            app_key: None,
            site: Defaults::default_site(),
            defaults: Defaults::default(),
            network: Network::default(),
        }
    }
}

// ---------------------------------------------------------------------------
// Merging and overriding

/// `b` over `a`, setting by setting: what differs from the built-in default wins.
pub open spec fn merged_defaults(a: DefaultsView, b: DefaultsView) -> DefaultsView {
    DefaultsView {
        format: if b.format != default_defaults().format {
            b.format
        } else {
            a.format
        },
        time_range: if b.time_range != default_defaults().time_range {
            b.time_range
        } else {
            a.time_range
        },
        limit: if b.limit != default_defaults().limit {
            b.limit
        } else {
            a.limit
        },
        page_size: if b.page_size != default_defaults().page_size {
            b.page_size
        } else {
            a.page_size
        },
        tag_filter: if b.tag_filter is Some {
            b.tag_filter
        } else {
            a.tag_filter
        },
    }
}

/// The given value, else the present one.
pub open spec fn either(given: Option<Seq<char>>, present: Option<Seq<char>>) -> Option<Seq<char>> {
    if given is Some {
        given
    } else {
        present
    }
}

/// `b` over `a`: keys and a non-empty site of `b` win, defaults merge, and
/// the network settings are those of `b`.
pub open spec fn merged_config(a: ConfigView, b: ConfigView) -> ConfigView {
    ConfigView {
        api_key: either(b.api_key, a.api_key),
        app_key: either(b.app_key, a.app_key),
        site: if b.site.len() > 0 {
            b.site
        } else {
            a.site
        },
        defaults: merged_defaults(a.defaults, b.defaults),
        network: b.network,
    }
}

/// A configuration with the given overrides applied.
pub open spec fn overridden(c: ConfigView, o: Overrides) -> ConfigView {
    ConfigView {
        api_key: either(opt_view(o.api_key), c.api_key),
        app_key: either(opt_view(o.app_key), c.app_key),
        site: match o.site {
            Some(s) => s@,
            None => c.site,
        },
        defaults: DefaultsView {
            tag_filter: either(opt_view(o.tag_filter), c.defaults.tag_filter),
            ..c.defaults
        },
        network: c.network,
    }
}

/// The configuration that loading builds: the defaults, the file merged over
/// them, then the environment's overrides, then the command line's.
pub open spec fn loaded_config(file: Option<Config>, env: Overrides, cli: Overrides) -> ConfigView {
    let base = match file {
        Some(f) => merged_config(default_config(), f@),
        None => default_config(),
    };
    overridden(overridden(base, env), cli)
}

impl Config {
    /// Merges `other` over `self`.
    pub fn merge(self, other: Self) -> (r: Self)
        ensures
            r@ == merged_config(self@, other@),
    {
        let mut merged = self;
        if other.api_key.is_some() {
            merged.api_key = other.api_key;
        }
        if other.app_key.is_some() {
            merged.app_key = other.app_key;
        }
        if chars_of(other.site.as_str()).len() > 0 {
            merged.site = other.site;
        }
        merged.defaults = merged.defaults.merge(other.defaults);
        merged.network = other.network;
        merged
    }

    /// Applies overrides: each value given replaces the configured one.
    pub fn apply(self, o: Overrides) -> (r: Self)
        ensures
            r@ == overridden(self@, o),
    {
        let mut c = self;
        if o.api_key.is_some() {
            c.api_key = o.api_key;
        }
        if o.app_key.is_some() {
            c.app_key = o.app_key;
        }
        match o.site {
            Some(s) => {
                c.site = s;
            },
            None => {},
        }
        if o.tag_filter.is_some() {
            c.defaults.tag_filter = o.tag_filter;
        }
        c
    }

    /// Builds the configuration in force: the defaults, the configuration
    /// file merged over them, the environment's overrides, then the command
    /// line's; and validates it.
    pub fn load(file: Option<Config>, env: Overrides, cli: Overrides) -> (r: Result<
        Self,
        DatadogError,
    >)
        ensures
            r matches Ok(c) ==> c@ == loaded_config(file, env, cli) && validation_error(c@) is None,
            r matches Err(e) ==> validation_error(loaded_config(file, env, cli)) == Some(e@),
    {
        let ghost spec_result = loaded_config(file, env, cli);
        let mut config = Config::default();
        match file {
            Some(f) => {
                config = config.merge(f);
            },
            None => {},
        }
        let config = config.apply(env).apply(cli);
        assert(config@ == spec_result);
        config.validate()?;
        Ok(config)
    }

    /// The configuration file's contents if it was read, else the defaults.
    pub fn load_defaults_only(file: Option<Config>) -> (r: Self)
        ensures
            r@ == match file {
                Some(f) => f@,
                None => default_config(),
            },
    {
        match file {
            Some(f) => f,
            None => Config::default(),
        }
    }

    /// Checks that both keys are present and non-empty and that the site is
    /// one of the platform's domains.
    pub fn validate(&self) -> (r: Result<(), DatadogError>)
        ensures
            r is Ok <==> validation_error(self@) is None,
            r matches Err(e) ==> validation_error(self@) == Some(e@),
    {
        if !has_text(&self.api_key) {
            return Err(
                DatadogError::AuthError(
                    String::from_str(
                        "api_key required. Use --api-key, DD_API_KEY env, or config file",
                    ),
                ),
            );
        }
        if !has_text(&self.app_key) {
            return Err(
                DatadogError::AuthError(
                    String::from_str(
                        "app_key required. Use --app-key, DD_APP_KEY env, or config file",
                    ),
                ),
            );
        }
        let site = chars_of(self.site.as_str());
        if !contains_chars(&site, &chars_of("datadoghq.")) && !contains_chars(
            &site,
            &chars_of("ddog-gov."),
        ) {
            let mut msg: Vec<char> = Vec::new();
            push_str(&mut msg, "Invalid site: ");
            push_str(&mut msg, self.site.as_str());
            return Err(DatadogError::InvalidInput(string_of(&msg)));
        }
        Ok(())
    }

    /// The API key.
    pub fn api_key(&self) -> (r: &str)
        requires
            self.api_key is Some,
        ensures
            r@ == self.api_key.unwrap()@,
    {
        self.api_key.as_ref().unwrap().as_str()
    }

    /// The application key.
    pub fn app_key(&self) -> (r: &str)
        requires
            self.app_key is Some,
        ensures
            r@ == self.app_key.unwrap()@,
    {
        self.app_key.as_ref().unwrap().as_str()
    }
}

// ---------------------------------------------------------------------------
// Validation

/// Whether an optional key is present and non-empty.
pub open spec fn present(k: Option<Seq<char>>) -> bool {
    k matches Some(s) && s.len() > 0
}

/// Whether a site names one of the platform's domains.
pub open spec fn known_site(site: Seq<char>) -> bool {
    occurs_in("datadoghq."@, site) || occurs_in("ddog-gov."@, site)
}

/// The first problem with a configuration, if any.
pub open spec fn validation_error(c: ConfigView) -> Option<ErrorView> {
    if !present(c.api_key) {
        Some(ErrorView::Auth("api_key required. Use --api-key, DD_API_KEY env, or config file"@))
    } else if !present(c.app_key) {
        Some(ErrorView::Auth("app_key required. Use --app-key, DD_APP_KEY env, or config file"@))
    } else if !known_site(c.site) {
        Some(ErrorView::InvalidInput("Invalid site: "@ + c.site))
    } else {
        None
    }
}

fn has_text(k: &Option<String>) -> (r: bool)
    ensures
        r == present(opt_view(*k)),
{
    match k {
        Some(s) => chars_of(s.as_str()).len() > 0,
        None => false,
    }
}

// ---------------------------------------------------------------------------
// Display

/// A secret shown by its first and last four characters, or hidden whole
/// if it has eight characters or fewer.
pub open spec fn masked(token: Seq<char>) -> Seq<char> {
    if token.len() > 8 {
        token.take(4) + "..."@ + token.skip(token.len() - 4)
    } else {
        "***"@
    }
}

/// Shows a secret by its first and last four characters only.
pub fn mask_token(token: &str) -> (r: String)
    ensures
        r@ == masked(token@),
{
    let v = chars_of(token);
    let n = v.len();
    if n <= 8 {
        return String::from_str("***");
    }
    let mut out: Vec<char> = Vec::new();
    out.push(v[0]);
    out.push(v[1]);
    out.push(v[2]);
    out.push(v[3]);
    push_str(&mut out, "...");
    out.push(v[n - 4]);
    out.push(v[n - 3]);
    out.push(v[n - 2]);
    out.push(v[n - 1]);
    proof {
        reveal_strlit("...");
        assert(out@ =~= v@.take(4) + "..."@ + v@.skip(n - 4));
    }
    string_of(&out)
}

/// The text that shows a valid configuration read from `path`, keys masked.
pub open spec fn shown_config(c: ConfigView, path: Seq<char>) -> Seq<char> {
    "Config: "@ + path + "\nAPI Key: "@ + masked(c.api_key.unwrap()) + "\nApp Key: "@ + masked(
        c.app_key.unwrap(),
    ) + "\nSite: "@ + c.site + "\n\n[defaults]\nformat: "@ + c.defaults.format
        + "\ntime_range: "@ + c.defaults.time_range + "\nlimit: "@ + signed_decimal(
        c.defaults.limit as int,
    ) + "\npage_size: "@ + signed_decimal(c.defaults.page_size as int) + "\ntag_filter: "@
        + match c.defaults.tag_filter {
        Some(f) => f,
        None => "(none)"@,
    } + "\n\n[network]\ntimeout_secs: "@ + decimal(c.network.timeout_secs as nat)
        + "\nmax_retries: "@ + decimal(c.network.max_retries as nat)
}

impl Config {
    /// The text that shows this configuration as read from `path`, keys
    /// masked; the validation error if it is not valid.
    pub fn show(&self, path: &str) -> (r: Result<String, DatadogError>)
        ensures
            r matches Ok(s) ==> validation_error(self@) is None && s@ == shown_config(
                self@,
                path@,
            ),
            r matches Err(e) ==> validation_error(self@) == Some(e@),
    {
        self.validate()?;
        let api = mask_token(self.api_key());
        let app = mask_token(self.app_key());
        let mut out: Vec<char> = Vec::new();
        push_str(&mut out, "Config: ");
        push_str(&mut out, path);
        push_str(&mut out, "\nAPI Key: ");
        push_str(&mut out, api.as_str());
        push_str(&mut out, "\nApp Key: ");
        push_str(&mut out, app.as_str());
        push_str(&mut out, "\nSite: ");
        push_str(&mut out, self.site.as_str());
        push_str(&mut out, "\n\n[defaults]\nformat: ");
        push_str(&mut out, self.defaults.format.as_str());
        push_str(&mut out, "\ntime_range: ");
        push_str(&mut out, self.defaults.time_range.as_str());
        push_str(&mut out, "\nlimit: ");
        push_all(&mut out, &signed_decimal_chars(self.defaults.limit as i64));
        push_str(&mut out, "\npage_size: ");
        push_all(&mut out, &signed_decimal_chars(self.defaults.page_size as i64));
        push_str(&mut out, "\ntag_filter: ");
        match &self.defaults.tag_filter {
            Some(f) => push_str(&mut out, f.as_str()),
            None => push_str(&mut out, "(none)"),
        }
        push_str(&mut out, "\n\n[network]\ntimeout_secs: ");
        push_all(&mut out, &decimal_chars(self.network.timeout_secs));
        push_str(&mut out, "\nmax_retries: ");
        push_all(&mut out, &decimal_chars(self.network.max_retries as u64));
        assert(out@ =~= shown_config(self@, path@));
        Ok(string_of(&out))
    }
}

} // verus!
