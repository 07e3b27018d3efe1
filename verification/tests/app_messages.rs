use frontend_rust::app_state::{AppState, DataModel};
use frontend_rust::messages::{AppMessage, Command, PortfolioPayload};
use frontend_rust::string_map::StrMap;
use frontend_rust::theme::{ChartType, TerminalTheme};

struct Demo;

impl DataModel for Demo {
    type Shares = f64;
    type Portfolio = String;
    type StrategyResult = u32;
    type PriceHistory = Vec<f64>;
    type BacktestResult = i64;
    type DataSourceStatus = u64;
    type StrategyAnalysis = String;
}

fn payload(name: &str, mock: bool) -> PortfolioPayload<Demo> {
    let mut holdings = StrMap::new();
    holdings.insert("AAPL".to_string(), 10.0);
    holdings.insert("MSFT".to_string(), 2.5);
    PortfolioPayload { name: name.to_string(), holdings, is_using_mock_data: mock, portfolio: format!("record {}", name) }
}

#[test]
fn default_state() {
    let s: AppState<Demo> = AppState::default();
    assert_eq!(s.selected_strategy, "bollinger");
    assert_eq!(s.connection_status, "Connecting...");
    assert_eq!(s.selected_time_period, "1y");
    assert_eq!(s.refresh_interval_seconds, 30);
    assert!(s.auto_refresh_enabled);
    assert!(!s.loading);
    assert_eq!(s.selected_chart_type, ChartType::Line);
    assert_eq!(s.terminal_theme, TerminalTheme::Professional);
    assert_eq!(s.available_tickers, vec!["AAPL", "GOOGL", "MSFT", "NVDA", "AMZN", "TSLA"]);
    assert_eq!((s.ma_period, s.bb_period, s.rsi_period), (20, 20, 14));
    assert!(s.show_charts);
    assert!(s.keyboard_shortcuts_enabled && s.real_time_updates);
    assert!(s.holdings.is_empty());
    assert!(s.current_portfolio.is_none());
}

#[test]
fn connection_messages() {
    let mut s: AppState<Demo> = AppState::default();
    assert!(s.process_message(AppMessage::ConnectionFailed("Connection failed: refused".to_string())).is_none());
    assert_eq!(s.connection_status, "Disconnected");
    assert_eq!(s.error_msg.as_deref(), Some("Connection failed: refused"));
    assert!(s.process_message(AppMessage::Connected).is_none());
    assert_eq!(s.connection_status, "Connected");
    assert!(s.error_msg.is_none());
}

#[test]
fn loaded_portfolio_becomes_current() {
    let mut s: AppState<Demo> = AppState::default();
    s.loading = true;
    assert!(s.process_message(AppMessage::PortfolioLoaded(payload("growth", true))).is_none());
    assert_eq!(s.portfolio_name, "growth");
    assert_eq!(s.current_portfolio.as_ref().map(|c| c.name.as_str()), Some("growth"));
    assert_eq!(s.current_portfolio.as_ref().map(|c| c.portfolio.as_str()), Some("record growth"));
    assert_eq!(s.holdings.get("AAPL"), Some(&10.0));
    assert_eq!(s.holdings.len(), 2);
    assert!(s.data_source_is_mock);
    assert!(s.show_data_source_warning);
    assert!(!s.loading);
}

#[test]
fn created_portfolio_reloads_list() {
    let mut s: AppState<Demo> = AppState::default();
    let cmd = s.process_message(AppMessage::PortfolioCreated(payload("income", false)));
    assert!(matches!(cmd, Some(Command::ListPortfolios)));
    assert_eq!(s.success_msg.as_deref(), Some("Portfolio created successfully"));
    assert_eq!(s.portfolio_name, "income");
    assert!(!s.show_data_source_warning);
}

#[test]
fn results_are_stored() {
    let mut s: AppState<Demo> = AppState::default();
    s.loading = true;
    s.process_message(AppMessage::StrategyResult { strategy_result: 7, is_using_mock_data: false });
    assert_eq!(s.strategy_result, Some(7));
    assert!(!s.loading);
    assert!(!s.show_data_source_warning);
    s.loading = true;
    s.process_message(AppMessage::PriceHistory { history: vec![1.0, 2.0], is_using_mock_data: true });
    assert_eq!(s.price_history, Some(vec![1.0, 2.0]));
    assert!(s.show_data_source_warning);
    assert!(!s.loading);
    s.process_message(AppMessage::BacktestResult { backtest_result: -3, is_using_mock_data: false });
    assert_eq!(s.backtest_result, Some(-3));
    assert!(!s.data_source_is_mock);
    // the warning stays up until the user dismisses it
    assert!(s.show_data_source_warning);
}

#[test]
fn data_source_messages() {
    let mut s: AppState<Demo> = AppState::default();
    s.process_message(AppMessage::DataSourceUpdated(true));
    assert!(s.data_source_is_mock && s.show_data_source_warning);
    s.process_message(AppMessage::DataSourceUpdated(false));
    assert!(!s.data_source_is_mock && !s.show_data_source_warning);
    s.process_message(AppMessage::DataSourceStatus(250));
    assert_eq!(s.data_source_status, Some(250));
    s.process_message(AppMessage::PortfoliosList(vec!["a".to_string(), "b".to_string()]));
    assert_eq!(s.available_portfolios, vec!["a", "b"]);
}

#[test]
fn errors_end_loading() {
    let mut s: AppState<Demo> = AppState::default();
    s.loading = true;
    s.process_message(AppMessage::Error("Failed to run strategy: timeout".to_string()));
    assert!(!s.loading);
    assert_eq!(s.error_msg.as_deref(), Some("Failed to run strategy: timeout"));
    s.loading = true;
    s.process_message(AppMessage::LoadingComplete);
    assert!(!s.loading);
}

#[test]
fn refresh_reloads_current_portfolio() {
    let mut s: AppState<Demo> = AppState::default();
    assert!(s.process_message(AppMessage::RefreshData).is_none());
    assert!(!s.loading);
    s.process_message(AppMessage::PortfolioLoaded(payload("tech", false)));
    s.error_msg = Some("old".to_string());
    match s.process_message(AppMessage::RefreshData) {
        Some(Command::LoadPortfolio(name)) => assert_eq!(name, "tech"),
        _ => panic!("expected a reload"),
    }
    assert!(s.loading);
    assert!(s.error_msg.is_none());
}

#[test]
fn load_portfolio_starts_request() {
    let mut s: AppState<Demo> = AppState::default();
    s.error_msg = Some("x".to_string());
    match s.load_portfolio("value") {
        Command::LoadPortfolio(n) => assert_eq!(n, "value"),
        Command::ListPortfolios => panic!("wrong command"),
    }
    assert!(s.loading);
    assert!(s.error_msg.is_none());
}

#[test]
fn refresh_timer() {
    let mut s: AppState<Demo> = AppState::default();
    assert!(!s.refresh_due(29));
    assert!(s.refresh_due(30));
    assert!(s.refresh_due(31));
    s.auto_refresh_enabled = false;
    assert!(!s.refresh_due(1000));
}

#[test]
fn messages_leave_preferences() {
    let mut s: AppState<Demo> = AppState::default();
    s.show_settings = true;
    s.terminal_theme = TerminalTheme::Dark;
    s.process_message(AppMessage::PortfolioLoaded(payload("p", true)));
    s.process_message(AppMessage::Error("e".to_string()));
    assert!(s.show_settings);
    assert_eq!(s.terminal_theme, TerminalTheme::Dark);
}
