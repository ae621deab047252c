use serde_json::Value;
use vulnera_adapter::config::{env_var, parse_detail_level, read_options, ClientOptions};
use vulnera_adapter::json::{read_count, read_flag, read_text};
use vulnera_adapter::text::{decimal, parse_u64, str_eq, str_eq_ignore_ascii_case, str_is_blank};
use vulnera_adapter::{Config, DetailLevel};

fn env(pairs: &[(&str, &str)]) -> Vec<(String, String)> {
    pairs.iter().map(|(name, value)| (name.to_string(), value.to_string())).collect()
}

fn json(text: &str) -> Value {
    serde_json::from_str(text).expect("valid JSON")
}

#[test]
fn defaults() {
    let config = Config::default();
    assert_eq!(config.api_url, "http://localhost:3000");
    assert_eq!(config.api_key, None);
    assert_eq!(config.detail_level, DetailLevel::Standard);
    assert!(!config.compact_mode);
    assert!(config.enable_cache);
    assert_eq!(config.debounce_ms, 500);
    assert_eq!(config.user_agent, "vulnera-adapter-lsp/0.1.0");
    assert_eq!(DetailLevel::default(), DetailLevel::Standard);
}

#[test]
fn empty_environment_gives_defaults() {
    let config = Config::from_env(&env(&[("PATH", "/bin"), ("HOME", "/root")]));
    assert_eq!(config.api_url, "http://localhost:3000");
    assert_eq!(config.api_key, None);
    assert_eq!(config.detail_level, DetailLevel::Standard);
    assert!(!config.compact_mode);
    assert!(config.enable_cache);
    assert_eq!(config.debounce_ms, 500);
}

#[test]
fn environment_overrides_defaults() {
    let config = Config::from_env(&env(&[
        ("VULNERA_API_URL", "https://api.example.com/v2"),
        ("VULNERA_API_KEY", "s3cret"),
        ("VULNERA_DETAIL_LEVEL", "FULL"),
        ("VULNERA_COMPACT_MODE", "True"),
        ("VULNERA_ENABLE_CACHE", "no"),
        ("VULNERA_DEBOUNCE_MS", "1250"),
    ]));
    assert_eq!(config.api_url, "https://api.example.com/v2");
    assert_eq!(config.api_key.as_deref(), Some("s3cret"));
    assert_eq!(config.detail_level, DetailLevel::Full);
    assert!(config.compact_mode);
    assert!(!config.enable_cache);
    assert_eq!(config.debounce_ms, 1250);
    assert_eq!(config.user_agent, "vulnera-adapter-lsp/0.1.0");
}

#[test]
fn environment_url_is_stored_in_normal_form() {
    let config = Config::from_env(&env(&[("VULNERA_API_URL", "HTTP://Example.COM:80/a/../b")]));
    assert_eq!(config.api_url, "http://example.com/b");
}

#[test]
fn unusable_environment_values_leave_defaults() {
    let config = Config::from_env(&env(&[
        ("VULNERA_API_URL", "not a url"),
        ("VULNERA_API_KEY", "   "),
        ("VULNERA_DETAIL_LEVEL", "verbose"),
        ("VULNERA_COMPACT_MODE", "1"),
        ("VULNERA_DEBOUNCE_MS", "soon"),
    ]));
    assert_eq!(config.api_url, "http://localhost:3000");
    assert_eq!(config.api_key, None);
    assert_eq!(config.detail_level, DetailLevel::Standard);
    assert!(!config.compact_mode);
    assert_eq!(config.debounce_ms, 500);
}

#[test]
fn first_variable_of_a_name_counts() {
    let variables = env(&[("A", "1"), ("B", "2"), ("A", "3")]);
    assert_eq!(env_var(&variables, "A").map(|s| s.as_str()), Some("1"));
    assert_eq!(env_var(&variables, "B").map(|s| s.as_str()), Some("2"));
    assert_eq!(env_var(&variables, "C"), None);
    assert_eq!(env_var(&variables, "a"), None);
}

#[test]
fn no_options_leave_the_settings() {
    let base = Config::from_env(&env(&[("VULNERA_DEBOUNCE_MS", "7")]));
    let merged = base.apply_initialize_options(None);
    assert_eq!(merged.debounce_ms, 7);
    assert_eq!(merged.api_url, base.api_url);
    assert_eq!(merged.user_agent, base.user_agent);
}

#[test]
fn flat_options_override() {
    let base = Config::default();
    let merged = base.apply_initialize_options(Some(json(
        r#"{"apiUrl":"https://svc.example.org","apiKey":"k","detailLevel":"minimal",
            "compactMode":true,"enableCache":false,"debounceMs":42,"userAgent":"editor/1"}"#,
    )));
    assert_eq!(merged.api_url, "https://svc.example.org/");
    assert_eq!(merged.api_key.as_deref(), Some("k"));
    assert_eq!(merged.detail_level, DetailLevel::Minimal);
    assert!(merged.compact_mode);
    assert!(!merged.enable_cache);
    assert_eq!(merged.debounce_ms, 42);
    assert_eq!(merged.user_agent, "editor/1");
}

#[test]
fn nested_options_take_precedence_over_flat_ones() {
    let base = Config::default();
    let merged = base.apply_initialize_options(Some(json(
        r#"{"debounceMs":1,"vulnera":{"debounceMs":900,"detailLevel":"Full"}}"#,
    )));
    assert_eq!(merged.debounce_ms, 900);
    assert_eq!(merged.detail_level, DetailLevel::Full);
}

#[test]
fn options_lie_over_the_environment() {
    let base = Config::from_env(&env(&[
        ("VULNERA_DEBOUNCE_MS", "100"),
        ("VULNERA_API_KEY", "from-env"),
    ]));
    let merged = base.apply_initialize_options(Some(json(r#"{"debounceMs":200}"#)));
    assert_eq!(merged.debounce_ms, 200);
    assert_eq!(merged.api_key.as_deref(), Some("from-env"));
}

#[test]
fn unusable_options_leave_the_settings() {
    let base = Config::from_env(&env(&[("VULNERA_DETAIL_LEVEL", "full"), ("VULNERA_API_KEY", "k")]));
    let merged = base.apply_initialize_options(Some(json(
        r#"{"apiUrl":"::","apiKey":" ","detailLevel":"most","compactMode":"yes",
            "enableCache":0,"debounceMs":-5,"userAgent":""}"#,
    )));
    assert_eq!(merged.api_url, "http://localhost:3000");
    assert_eq!(merged.api_key.as_deref(), Some("k"));
    assert_eq!(merged.detail_level, DetailLevel::Full);
    assert!(!merged.compact_mode);
    assert!(merged.enable_cache);
    assert_eq!(merged.debounce_ms, 500);
    assert_eq!(merged.user_agent, "vulnera-adapter-lsp/0.1.0");
    let merged = base.apply_initialize_options(Some(json("[1, 2]")));
    assert_eq!(merged.debounce_ms, 500);
    let merged = base.apply_initialize_options(Some(json(r#"{"debounceMs":1.5}"#)));
    assert_eq!(merged.debounce_ms, 500);
}

#[test]
fn detail_level_words() {
    assert_eq!(parse_detail_level("minimal"), Some(DetailLevel::Minimal));
    assert_eq!(parse_detail_level("Standard"), Some(DetailLevel::Standard));
    assert_eq!(parse_detail_level("FULL"), Some(DetailLevel::Full));
    assert_eq!(parse_detail_level(""), None);
    assert_eq!(parse_detail_level("fuller"), None);
    assert_eq!(DetailLevel::Minimal.as_str(), "minimal");
    assert_eq!(DetailLevel::Standard.as_str(), "standard");
    assert_eq!(DetailLevel::Full.as_str(), "full");
}

#[test]
fn json_members_are_read_by_type() {
    let value = json(r#"{"s":"text","b":true,"n":18446744073709551615,"neg":-1,"o":{"s":"in"}}"#);
    assert_eq!(read_text(&value, "s").as_deref(), Some("text"));
    assert_eq!(read_text(&value, "b"), None);
    assert_eq!(read_text(&value, "missing"), None);
    assert_eq!(read_flag(&value, "b"), Some(true));
    assert_eq!(read_flag(&value, "s"), None);
    assert_eq!(read_count(&value, "n"), Some(u64::MAX));
    assert_eq!(read_count(&value, "neg"), None);
    assert_eq!(read_count(&value, "s"), None);
    assert_eq!(read_text(&json("\"s\""), "s"), None);
}

#[test]
fn numbers_are_parsed_like_the_standard_library_does() {
    for text in [
        "0", "7", "42", "007", "+5", "18446744073709551615", "18446744073709551616", "", "+", "-1",
        " 1", "1 ", "1_000", "12a", "٣", "99999999999999999999999", "+-1", "++1",
    ] {
        assert_eq!(parse_u64(text), text.parse::<u64>().ok(), "{:?}", text);
    }
}

#[test]
fn numbers_are_written_like_the_standard_library_does() {
    for n in [0u64, 1, 9, 10, 11, 99, 100, 101, 12345, 4294967296, u64::MAX] {
        assert_eq!(decimal(n), n.to_string());
    }
}

#[test]
fn string_helpers_agree_with_the_standard_library() {
    for text in ["", " ", "\t\n", "\u{00A0}", "\u{3000}\u{2003}", "a", " a ", "\u{200B}", "\u{0085}", "\u{1680}"] {
        assert_eq!(str_is_blank(text), text.trim().is_empty(), "{:?}", text);
    }
    for (a, b) in [("true", "TRUE"), ("tRuE", "true"), ("true", "tru"), ("", ""), ("é", "É"), ("k", "\u{212A}")] {
        assert_eq!(str_eq_ignore_ascii_case(a, b), a.eq_ignore_ascii_case(b), "{:?} {:?}", a, b);
    }
    assert!(str_eq("añ\u{1F600}", "añ\u{1F600}"));
    assert!(!str_eq("a", "b"));
    assert!(!str_eq("a", "ab"));
}

fn no_options() -> ClientOptions {
    ClientOptions {
        api_url: None,
        api_key: None,
        detail_level: None,
        compact_mode: None,
        enable_cache: None,
        debounce_ms: None,
        user_agent: None,
    }
}

#[test]
fn options_are_laid_over_settings_one_by_one() {
    let merged = Config::default().with_options(no_options());
    assert_eq!(merged.api_url, "http://localhost:3000");
    assert_eq!(merged.debounce_ms, 500);
    assert_eq!(merged.detail_level, DetailLevel::Standard);

    let merged = Config::default().with_options(ClientOptions {
        api_url: Some("https://svc/".to_string()),
        api_key: Some("k".to_string()),
        detail_level: Some("MINIMAL".to_string()),
        compact_mode: Some(true),
        enable_cache: Some(false),
        debounce_ms: Some(0),
        user_agent: Some("ua".to_string()),
    });
    assert_eq!(merged.api_url, "https://svc/");
    assert_eq!(merged.api_key.as_deref(), Some("k"));
    assert_eq!(merged.detail_level, DetailLevel::Minimal);
    assert!(merged.compact_mode);
    assert!(!merged.enable_cache);
    assert_eq!(merged.debounce_ms, 0);
    assert_eq!(merged.user_agent, "ua");

    let mut base = Config::default();
    base.api_key = Some("kept".to_string());
    let merged = base.with_options(ClientOptions {
        api_key: Some("\t".to_string()),
        detail_level: Some("all".to_string()),
        user_agent: Some(" ".to_string()),
        ..no_options()
    });
    assert_eq!(merged.api_key.as_deref(), Some("kept"));
    assert_eq!(merged.detail_level, DetailLevel::Standard);
    assert_eq!(merged.user_agent, "vulnera-adapter-lsp/0.1.0");
}

#[test]
fn options_are_read_by_name_and_type() {
    let options = read_options(&json(
        r#"{"apiUrl":"HTTP://svc.example.org","apiKey":7,"detailLevel":"x","compactMode":false,
            "debounceMs":"12","userAgent":"ua"}"#,
    ));
    assert_eq!(options.api_url.as_deref(), Some("http://svc.example.org/"));
    assert_eq!(options.api_key, None);
    assert_eq!(options.detail_level.as_deref(), Some("x"));
    assert_eq!(options.compact_mode, Some(false));
    assert_eq!(options.enable_cache, None);
    assert_eq!(options.debounce_ms, None);
    assert_eq!(options.user_agent.as_deref(), Some("ua"));
    let options = read_options(&json(r#"{"apiUrl":"no url"}"#));
    assert_eq!(options.api_url, None);
}
