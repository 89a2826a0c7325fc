use rss_gobbler::config::AppConfig;

fn mock_appconfig(has_some_regex: bool) -> AppConfig {
    let feed_url = "https://rss.example.com/podcast";
    let output_path = "/output/path";
    let include_pattern = r"^dog";
    let exclude_pattern = r"c.*t";

    AppConfig::new(
        feed_url,
        output_path,
        if has_some_regex {
            Some(include_pattern)
        } else {
            None
        },
        if has_some_regex {
            Some(exclude_pattern)
        } else {
            None
        },
    )
    .unwrap()
}

#[test]
fn test_appconfig_regex() {
    let config_none = mock_appconfig(false);
    assert_eq!(config_none.is_pattern_valid("dog episode"), true);
    assert_eq!(config_none.is_pattern_valid("episode"), true);
    assert_eq!(config_none.is_pattern_valid("dog casdat"), true);

    let config_some = mock_appconfig(true);
    assert_eq!(config_some.is_pattern_valid("dog episode"), true); // meets start with dog
    assert_eq!(config_some.is_pattern_valid("episode"), false); // doesn't start with dog
    assert_eq!(config_some.is_pattern_valid("dog casdat"), false); // starts with dog but contains c.*t
}

#[test]
fn test_appconfig_invalid_include_pattern() {
    let result = AppConfig::new("https://rss.example.com/podcast", "out", Some(r"foo(bar"), None);
    assert!(result.is_err());
}

#[test]
fn test_appconfig_invalid_exclude_pattern() {
    let result = AppConfig::new("https://rss.example.com/podcast", "out", None, Some(r"["));
    assert!(result.is_err());
}

#[test]
fn test_appconfig_getters() {
    let config = mock_appconfig(false);
    assert_eq!(config.get_feed_uri(), "https://rss.example.com/podcast");
    assert_eq!(config.get_output_directory(), "/output/path");
}

#[test]
fn test_exclude_only_rejects_matches() {
    let config = AppConfig::new("https://rss.example.com/podcast", "out", None, Some(r"c.*t"))
        .unwrap();
    assert_eq!(config.is_pattern_valid("dog episode"), true);
    assert_eq!(config.is_pattern_valid("dog casdat"), false);
}
