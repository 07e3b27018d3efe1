use frontend_rust::api_errors::{call_failed_text, connection_failed_text, ApiCall};
use frontend_rust::performance::{
    period_days, sample_dates, sample_step, MAX_TIMESTAMP, MIN_TIMESTAMP, SECONDS_PER_DAY,
};
use frontend_rust::series::price_series_ranges;
use frontend_rust::string_map::StrMap;
use frontend_rust::strategy::{fill_param_defaults, param_or_default, strategy_param_defaults};
use frontend_rust::text::same_text;
use frontend_rust::url_params::lookup_url_param;

#[test]
fn url_param_found() {
    let q = "?backend=https://example.test&theme=dark";
    assert_eq!(lookup_url_param(q, "backend").as_deref(), Some("https://example.test"));
    assert_eq!(lookup_url_param(q, "theme").as_deref(), Some("dark"));
    assert_eq!(lookup_url_param(q, "missing"), None);
}

#[test]
fn url_param_read_back() {
    assert_eq!(lookup_url_param("?theme=dark", "theme").as_deref(), Some("dark"));
    assert_eq!(lookup_url_param("?theme=dark&backend=x", "theme").as_deref(), Some("dark"));
    assert_eq!(lookup_url_param("?theme=", "theme").as_deref(), Some(""));
}

#[test]
fn url_param_edge_cases() {
    assert_eq!(lookup_url_param("", "a"), None);
    assert_eq!(lookup_url_param("?", "a"), None);
    // the value stops at a second '='
    assert_eq!(lookup_url_param("?a=b=c", "a").as_deref(), Some("b"));
    // a matching key without '=' ends the search
    assert_eq!(lookup_url_param("?a&a=2", "a"), None);
    // empty values and empty pairs
    assert_eq!(lookup_url_param("?x=&&a=1", "x").as_deref(), Some(""));
    assert_eq!(lookup_url_param("?x=&&a=1", "a").as_deref(), Some("1"));
    // the first matching pair wins
    assert_eq!(lookup_url_param("?a=1&a=2", "a").as_deref(), Some("1"));
    // values are not decoded here
    assert_eq!(lookup_url_param("?u=caf%C3%A9", "u").as_deref(), Some("caf%C3%A9"));
    assert_eq!(lookup_url_param("?n=ä&m=ö", "m").as_deref(), Some("ö"));
}

#[test]
fn text_equality() {
    assert!(same_text("abc", "abc"));
    assert!(!same_text("abc", "abd"));
    assert!(!same_text("ab", "abc"));
    assert!(same_text("", ""));
}

#[test]
fn period_lengths() {
    assert_eq!(period_days("1mo"), 30);
    assert_eq!(period_days("3mo"), 90);
    assert_eq!(period_days("6mo"), 180);
    assert_eq!(period_days("1y"), 365);
    assert_eq!(period_days("2y"), 730);
    assert_eq!(period_days("5y"), 365);
    assert_eq!(period_days(""), 365);
}

#[test]
fn sampling_step() {
    assert_eq!(sample_step(365, 100), 3);
    assert_eq!(sample_step(30, 100), 1);
    assert_eq!(sample_step(100, 100), 1);
    assert_eq!(sample_step(730, 10), 73);
    assert_eq!(sample_step(0, 0), 1);
}

#[test]
fn sample_dates_follow_calendar() {
    // 2024-01-31 00:00:00 UTC
    let end = 1_706_659_200;
    let d = sample_dates(end, "1mo", 3);
    assert_eq!(d, vec!["2024-01-01", "2024-01-11", "2024-01-21"]);
    let d = sample_dates(end + 3600, "1y", 2);
    assert_eq!(d, vec!["2023-01-31", "2023-08-01"]);
    // more points than days: one day apart, past the end date
    let d = sample_dates(end, "1mo", 32);
    assert_eq!(d.len(), 32);
    assert_eq!(d[31], "2024-02-01");
}

#[test]
fn sample_dates_at_calendar_limits() {
    let d = sample_dates(MIN_TIMESTAMP + 365 * SECONDS_PER_DAY, "1y", 1);
    assert_eq!(d[0], "-262143-01-01");
    let d = sample_dates(MAX_TIMESTAMP + 30 * SECONDS_PER_DAY - 86399, "1mo", 1);
    assert_eq!(d[0], "+262142-12-31");
}

#[test]
fn strategy_defaults() {
    let b = strategy_param_defaults("bollinger");
    assert_eq!(b, vec![("window".to_string(), "20".to_string()), ("std_dev".to_string(), "2.0".to_string())]);
    let m = strategy_param_defaults("ml");
    assert_eq!(m, vec![("lookback_days".to_string(), "60".to_string())]);
    let mo = strategy_param_defaults("momentum");
    assert_eq!(mo[1], ("momentum_threshold".to_string(), "0.02".to_string()));
    assert!(strategy_param_defaults("equal_weight").is_empty());
}

#[test]
fn params_with_defaults() {
    let mut p: StrMap<String> = StrMap::new();
    assert_eq!(param_or_default(&p, "window", "20"), "20");
    p.insert("window".to_string(), "50".to_string());
    assert_eq!(param_or_default(&p, "window", "20"), "50");
    fill_param_defaults(&mut p, "bollinger");
    assert_eq!(p.get("window").map(|s| s.as_str()), Some("50"));
    assert_eq!(p.get("std_dev").map(|s| s.as_str()), Some("2.0"));
    assert_eq!(p.len(), 2);
    fill_param_defaults(&mut p, "bollinger");
    assert_eq!(p.len(), 2);
}

#[test]
fn string_map_operations() {
    let mut m: StrMap<u32> = StrMap::new();
    assert!(m.is_empty());
    m.insert("a".to_string(), 1);
    m.insert("b".to_string(), 2);
    m.insert("a".to_string(), 3);
    assert_eq!(m.len(), 2);
    assert_eq!(m.get("a"), Some(&3));
    assert!(m.contains_key("b"));
    assert_eq!(m.remove("b"), Some(2));
    assert_eq!(m.remove("b"), None);
    assert_eq!(m.len(), 1);
    assert_eq!(m.key_at(0), "a");
    assert_eq!(*m.value_at(0), 3);
    let c = m.copied();
    m.clear();
    assert!(m.is_empty());
    assert_eq!(c.get("a"), Some(&3));
}

#[test]
fn price_series_split() {
    assert_eq!(price_series_ranges(3, 10), vec![(0, 3), (3, 6), (6, 9)]);
    assert_eq!(price_series_ranges(2, 8), vec![(0, 4), (4, 8)]);
    assert!(price_series_ranges(0, 8).is_empty());
    assert!(price_series_ranges(3, 0).is_empty());
    assert!(price_series_ranges(5, 4).is_empty());
}

#[test]
fn failure_texts() {
    assert_eq!(call_failed_text(ApiCall::ListPortfolios, "boom"), "Failed to load portfolios: boom");
    assert_eq!(call_failed_text(ApiCall::LoadPortfolio, "x"), "Failed to load portfolio: x");
    assert_eq!(call_failed_text(ApiCall::CreatePortfolio, "x"), "Failed to create portfolio: x");
    assert_eq!(call_failed_text(ApiCall::RunStrategy, "x"), "Failed to run strategy: x");
    assert_eq!(call_failed_text(ApiCall::GetPriceHistory, "x"), "Failed to get price history: x");
    assert_eq!(call_failed_text(ApiCall::RunBacktest, "x"), "Failed to run backtest: x");
    assert_eq!(connection_failed_text("refused"), "Connection failed: refused");
}
