//! The adapter's settings, and the layers that they are merged from: defaults,
//! then the environment, then the options that the client sends.

use crate::json::{
    count_setting, flag_setting, get_member, member, read_count, read_flag, read_text,
    text_setting,
};
use crate::text::{
    clone_optional, eq_ignoring_ascii_case, is_blank, parse_u64, parsed_u64, str_eq,
    str_eq_ignore_ascii_case, str_is_blank,
};
use crate::uri::{normalize_url, normalized_url};
use serde_json::Value;
use vstd::prelude::*;
use vstd::string::StringExecFns;

verus! {

/// How much the analysis service is asked to report.
#[derive(Clone, Copy, Debug, PartialEq, Eq, Structural)]
pub enum DetailLevel {
    Minimal,
    Standard,
    Full,
}

impl Default for DetailLevel {
    fn default() -> (level: DetailLevel)
        ensures
            level == DetailLevel::Standard,
    {
        DetailLevel::Standard
    }
}

/// The settings of a server.
#[derive(Debug)]
pub struct Config {
    /// Where the analysis service is.
    pub api_url: String,
    /// The key that goes with each request, where the service asks for one.
    pub api_key: Option<String>,
    pub detail_level: DetailLevel,
    pub compact_mode: bool,
    pub enable_cache: bool,
    /// How long a workspace must stay quiet before it is analysed, in
    /// milliseconds.
    pub debounce_ms: u64,
    pub user_agent: String,
}

/// A `Config`, as a mathematical value.
pub struct ConfigView {
    pub api_url: Seq<char>,
    pub api_key: Option<Seq<char>>,
    pub detail_level: DetailLevel,
    pub compact_mode: bool,
    pub enable_cache: bool,
    pub debounce_ms: u64,
    pub user_agent: Seq<char>,
}

impl DeepView for Config {
    type V = ConfigView;

    open spec fn deep_view(&self) -> ConfigView {
        ConfigView {
            api_url: self.api_url@,
            api_key: self.api_key.deep_view(),
            detail_level: self.detail_level,
            compact_mode: self.compact_mode,
            enable_cache: self.enable_cache,
            debounce_ms: self.debounce_ms,
            user_agent: self.user_agent@,
        }
    }
}

impl Clone for Config {
    fn clone(&self) -> (copy: Config)
        ensures
            copy.deep_view() == self.deep_view(),
    {
        Config {
            api_url: self.api_url.clone(),
            api_key: clone_optional(&self.api_key),
            detail_level: self.detail_level,
            compact_mode: self.compact_mode,
            enable_cache: self.enable_cache,
            debounce_ms: self.debounce_ms,
            user_agent: self.user_agent.clone(),
        }
    }
}

/// What a client's options hold, each as far as it is there and of its type.
#[derive(Debug)]
pub struct ClientOptions {
    /// The service's address in its normal form, where the option is a URL.
    pub api_url: Option<String>,
    pub api_key: Option<String>,
    pub detail_level: Option<String>,
    pub compact_mode: Option<bool>,
    pub enable_cache: Option<bool>,
    pub debounce_ms: Option<u64>,
    pub user_agent: Option<String>,
}

/// A `ClientOptions`, as a mathematical value.
pub struct ClientOptionsView {
    pub api_url: Option<Seq<char>>,
    pub api_key: Option<Seq<char>>,
    pub detail_level: Option<Seq<char>>,
    pub compact_mode: Option<bool>,
    pub enable_cache: Option<bool>,
    pub debounce_ms: Option<u64>,
    pub user_agent: Option<Seq<char>>,
}

impl DeepView for ClientOptions {
    type V = ClientOptionsView;

    open spec fn deep_view(&self) -> ClientOptionsView {
        ClientOptionsView {
            api_url: self.api_url.deep_view(),
            api_key: self.api_key.deep_view(),
            detail_level: self.detail_level.deep_view(),
            compact_mode: self.compact_mode,
            enable_cache: self.enable_cache,
            debounce_ms: self.debounce_ms,
            user_agent: self.user_agent.deep_view(),
        }
    }
}

/// The settings of a server that was told nothing.
pub open spec fn default_config() -> ConfigView {
    ConfigView {
        api_url: "http://localhost:3000"@,
        api_key: None,
        detail_level: DetailLevel::Standard,
        compact_mode: false,
        enable_cache: true,
        debounce_ms: 500,
        user_agent: "vulnera-adapter-lsp/0.1.0"@,
    }
}

/// The level that a word stands for, whatever the case of its letters.
pub open spec fn detail_level_of(word: Seq<char>) -> Option<DetailLevel> {
    if eq_ignoring_ascii_case(word, "minimal"@) {
        Some(DetailLevel::Minimal)
    } else if eq_ignoring_ascii_case(word, "standard"@) {
        Some(DetailLevel::Standard)
    } else if eq_ignoring_ascii_case(word, "full"@) {
        Some(DetailLevel::Full)
    } else {
        None
    }
}

/// The value of the first variable named `name` from index `from` on.
pub open spec fn variable(
    env: Seq<(Seq<char>, Seq<char>)>,
    name: Seq<char>,
    from: int,
) -> Option<Seq<char>>
    decreases env.len() - from,
{
    if from < 0 || from >= env.len() {
        None
    } else if env[from].0 == name {
        Some(env[from].1)
    } else {
        variable(env, name, from + 1)
    }
}

/// The defaults, with what the environment sets laid over them. A variable
/// that is not set, a URL that is none and a delay that is no number leave the
/// default; a blank key counts as none; a detail level that is no known word
/// gives the standard one.
pub open spec fn config_from_env(env: Seq<(Seq<char>, Seq<char>)>) -> ConfigView {
    let base = default_config();
    ConfigView {
        api_url: match variable(env, "VULNERA_API_URL"@, 0) {
            Some(value) => match normalized_url(value) {
                Some(url) => url,
                None => base.api_url,
            },
            None => base.api_url,
        },
        api_key: match variable(env, "VULNERA_API_KEY"@, 0) {
            Some(value) => if is_blank(value) {
                base.api_key
            } else {
                Some(value)
            },
            None => base.api_key,
        },
        detail_level: match variable(env, "VULNERA_DETAIL_LEVEL"@, 0) {
            Some(value) => match detail_level_of(value) {
                Some(level) => level,
                None => DetailLevel::Standard,
            },
            None => base.detail_level,
        },
        compact_mode: match variable(env, "VULNERA_COMPACT_MODE"@, 0) {
            Some(value) => eq_ignoring_ascii_case(value, "true"@),
            None => base.compact_mode,
        },
        enable_cache: match variable(env, "VULNERA_ENABLE_CACHE"@, 0) {
            Some(value) => eq_ignoring_ascii_case(value, "true"@),
            None => base.enable_cache,
        },
        debounce_ms: match variable(env, "VULNERA_DEBOUNCE_MS"@, 0) {
            Some(value) => match parsed_u64(value) {
                Some(delay) => delay,
                None => base.debounce_ms,
            },
            None => base.debounce_ms,
        },
        user_agent: base.user_agent,
    }
}

/// Where the client's options are read from: the member `vulnera` of what it
/// sent, where there is one, and else what it sent.
pub open spec fn option_scope(options: Value) -> Value {
    match member(options, "vulnera"@) {
        Some(inner) => inner,
        None => options,
    }
}

/// What `scope` holds of each option: the member of the option's name, where
/// there is one of the option's type; for the address, its normal form, where
/// the member is a URL.
pub open spec fn options_in(scope: Value) -> ClientOptionsView {
    ClientOptionsView {
        api_url: match text_setting(scope, "apiUrl"@) {
            Some(value) => normalized_url(value),
            None => None,
        },
        api_key: text_setting(scope, "apiKey"@),
        detail_level: text_setting(scope, "detailLevel"@),
        compact_mode: flag_setting(scope, "compactMode"@),
        enable_cache: flag_setting(scope, "enableCache"@),
        debounce_ms: count_setting(scope, "debounceMs"@),
        user_agent: text_setting(scope, "userAgent"@),
    }
}

/// `base` with options laid over it. An option that is absent leaves what
/// `base` has, and so do a blank key, a blank user agent and a detail level
/// that is no known word.
pub open spec fn config_on(base: ConfigView, options: ClientOptionsView) -> ConfigView {
    ConfigView {
        api_url: match options.api_url {
            Some(url) => url,
            None => base.api_url,
        },
        api_key: match options.api_key {
            Some(value) => if is_blank(value) {
                base.api_key
            } else {
                Some(value)
            },
            None => base.api_key,
        },
        detail_level: match options.detail_level {
            Some(value) => match detail_level_of(value) {
                Some(level) => level,
                None => base.detail_level,
            },
            None => base.detail_level,
        },
        compact_mode: match options.compact_mode {
            Some(flag) => flag,
            None => base.compact_mode,
        },
        enable_cache: match options.enable_cache {
            Some(flag) => flag,
            None => base.enable_cache,
        },
        debounce_ms: match options.debounce_ms {
            Some(delay) => delay,
            None => base.debounce_ms,
        },
        user_agent: match options.user_agent {
            Some(value) => if is_blank(value) {
                base.user_agent
            } else {
                value
            },
            None => base.user_agent,
        },
    }
}

/// `base` with the client's options laid over it. An option that is absent or
/// of another type leaves what `base` has, and so do an address that is no
/// URL, a blank key, a blank user agent and a detail level that is no known
/// word.
pub open spec fn config_with_options(base: ConfigView, options: Value) -> ConfigView {
    config_on(base, options_in(option_scope(options)))
}

/// Reads the options out of `scope`.
pub fn read_options(scope: &Value) -> (options: ClientOptions)
    ensures
        options.deep_view() == options_in(*scope),
{
    ClientOptions {
        api_url: match read_text(scope, "apiUrl") {
            Some(value) => normalize_url(value.as_str()),
            None => None,
        },
        api_key: read_text(scope, "apiKey"),
        detail_level: read_text(scope, "detailLevel"),
        compact_mode: read_flag(scope, "compactMode"),
        enable_cache: read_flag(scope, "enableCache"),
        debounce_ms: read_count(scope, "debounceMs"),
        user_agent: read_text(scope, "userAgent"),
    }
}

/// The level that `value` stands for.
pub fn parse_detail_level(value: &str) -> (level: Option<DetailLevel>)
    ensures
        level == detail_level_of(value@),
{
    if str_eq_ignore_ascii_case(value, "minimal") {
        Some(DetailLevel::Minimal)
    } else if str_eq_ignore_ascii_case(value, "standard") {
        Some(DetailLevel::Standard)
    } else if str_eq_ignore_ascii_case(value, "full") {
        Some(DetailLevel::Full)
    } else {
        None
    }
}

/// The value of the variable `name` in `env`, a list of names and values.
pub fn env_var<'a>(env: &'a Vec<(String, String)>, name: &str) -> (value: Option<&'a String>)
    ensures
        value.deep_view() == variable(env.deep_view(), name@, 0),
{
    let ghost pairs = env.deep_view();
    let mut i: usize = 0;
    while i < env.len()
        invariant
            i <= env.len(),
            pairs == env.deep_view(),
            variable(pairs, name@, 0) == variable(pairs, name@, i as int),
        decreases env.len() - i,
    {
        assert(pairs[i as int] == env@[i as int].deep_view());
        if str_eq(env[i].0.as_str(), name) {
            return Some(&env[i].1);
        }
        i = i + 1;
    }
    None
}

impl Default for Config {
    fn default() -> (config: Config)
        ensures
            config.deep_view() == default_config(),
    {
        Config {
            api_url: String::from_str("http://localhost:3000"),
            api_key: None,
            detail_level: DetailLevel::Standard,
            compact_mode: false,
            enable_cache: true,
            debounce_ms: 500,
            user_agent: String::from_str("vulnera-adapter-lsp/0.1.0"),
        }
    }
}

impl Config {
    /// The settings that the environment `env` asks for: the process's
    /// variables as a list of names and values.
    pub fn from_env(env: &Vec<(String, String)>) -> (config: Config)
        ensures
            config.deep_view() == config_from_env(env.deep_view()),
    {
        let mut config = Config::default();
        if let Some(value) = env_var(env, "VULNERA_API_URL") {
            if let Some(url) = normalize_url(value.as_str()) {
                config.api_url = url;
            }
        }
        if let Some(value) = env_var(env, "VULNERA_API_KEY") {
            if !str_is_blank(value.as_str()) {
                config.api_key = Some(value.clone());
            }
        }
        if let Some(value) = env_var(env, "VULNERA_DETAIL_LEVEL") {
            config.detail_level = match parse_detail_level(value.as_str()) {
                Some(level) => level,
                None => DetailLevel::Standard,
            };
        }
        if let Some(value) = env_var(env, "VULNERA_COMPACT_MODE") {
            config.compact_mode = str_eq_ignore_ascii_case(value.as_str(), "true");
        }
        if let Some(value) = env_var(env, "VULNERA_ENABLE_CACHE") {
            config.enable_cache = str_eq_ignore_ascii_case(value.as_str(), "true");
        }
        if let Some(value) = env_var(env, "VULNERA_DEBOUNCE_MS") {
            if let Some(delay) = parse_u64(value.as_str()) {
                config.debounce_ms = delay;
            }
        }
        config
    }

    /// These settings with the client's initialization options laid over
    /// them; the settings themselves where the client sent none.
    pub fn apply_initialize_options(&self, options: Option<Value>) -> (config: Config)
        ensures
            config.deep_view() == match options {
                Some(sent) => config_with_options(self.deep_view(), sent),
                None => self.deep_view(),
            },
    {
        let mut config = self.clone();
        let options = match options {
            Some(sent) => sent,
            None => {
                return config;
            },
        };
        let scope = match get_member(&options, "vulnera") {
            Some(inner) => inner,
            None => options,
        };
        config.with_options(read_options(&scope))
    }

    /// These settings with `options` laid over them.
    pub fn with_options(self, options: ClientOptions) -> (config: Config)
        ensures
            config.deep_view() == config_on(self.deep_view(), options.deep_view()),
    {
        let mut config = self;
        if let Some(url) = options.api_url {
            config.api_url = url;
        }
        if let Some(value) = options.api_key {
            if !str_is_blank(value.as_str()) {
                config.api_key = Some(value);
            }
        }
        if let Some(value) = options.detail_level {
            if let Some(level) = parse_detail_level(value.as_str()) {
                config.detail_level = level;
            }
        }
        if let Some(flag) = options.compact_mode {
            config.compact_mode = flag;
        }
        if let Some(flag) = options.enable_cache {
            config.enable_cache = flag;
        }
        if let Some(delay) = options.debounce_ms {
            config.debounce_ms = delay;
        }
        if let Some(value) = options.user_agent {
            if !str_is_blank(value.as_str()) {
                config.user_agent = value;
            }
        }
        config
    }
}

} // verus!
