use frontend_rust::app_state::DataModel;
use frontend_rust::standalone::{AppMessage, ConnectionIndicator, Edition, PortfolioApp, Request, ShareInput};

struct Demo;

impl DataModel for Demo {
    type Shares = f64;
    type Portfolio = String;
    type StrategyResult = u32;
    type PriceHistory = Vec<f64>;
    type BacktestResult = i64;
    type DataSourceStatus = u64;
    type StrategyAnalysis = String;
}

#[test]
fn requests_need_a_portfolio_name() {
    let mut app: PortfolioApp<Demo> = PortfolioApp::default();
    assert!(app.load_portfolio().is_none());
    assert_eq!(app.error_msg.as_deref(), Some("Portfolio name required"));
    assert!(!app.loading);
    assert!(app.get_price_history().is_none());
    assert_eq!(app.error_msg.as_deref(), Some("Portfolio name required"));
    assert!(app.run_strategy().is_none());
    assert_eq!(app.error_msg.as_deref(), Some("Portfolio name and strategy required"));
    app.portfolio_name = "growth".to_string();
    assert!(app.create_portfolio().is_none());
    assert_eq!(app.error_msg.as_deref(), Some("Portfolio name and holdings required"));
    app.selected_strategy = String::new();
    assert!(app.run_strategy().is_none());
    assert_eq!(app.error_msg.as_deref(), Some("Portfolio name and strategy required"));
}

#[test]
fn requests_go_out() {
    let mut app: PortfolioApp<Demo> = PortfolioApp::default();
    app.portfolio_name = "growth".to_string();
    app.success_msg = Some("old".to_string());
    match app.load_portfolio() {
        Some(Request::LoadPortfolio { name }) => assert_eq!(name, "growth"),
        _ => panic!("expected a load request"),
    }
    assert!(app.loading);
    assert!(app.success_msg.is_none());
    app.strategy_params.insert("window".to_string(), "30".to_string());
    match app.run_strategy() {
        Some(Request::RunStrategy { portfolio_name, strategy_name, params }) => {
            assert_eq!(portfolio_name, "growth");
            assert_eq!(strategy_name, "bollinger");
            assert_eq!(params.get("window").map(|s| s.as_str()), Some("30"));
        },
        _ => panic!("expected a strategy request"),
    }
    match app.get_price_history() {
        Some(Request::PriceHistory { portfolio_name, period }) => {
            assert_eq!(portfolio_name, "growth");
            assert_eq!(period, "1y");
        },
        _ => panic!("expected a history request"),
    }
}

#[test]
fn holdings_form() {
    let mut app: PortfolioApp<Demo> = PortfolioApp::default();
    app.new_symbol = "AAPL".to_string();
    app.new_shares = "abc".to_string();
    app.add_holding(ShareInput::Invalid);
    assert_eq!(app.error_msg.as_deref(), Some("Invalid shares value"));
    app.new_shares = "-1".to_string();
    app.add_holding(ShareInput::NotPositive);
    assert_eq!(app.error_msg.as_deref(), Some("Shares must be positive"));
    app.new_shares = "10".to_string();
    app.add_holding(ShareInput::Positive(10.0));
    assert_eq!(app.holdings.get("AAPL"), Some(&10.0));
    assert_eq!(app.success_msg.as_deref(), Some("Holding added"));
    assert!(app.new_symbol.is_empty() && app.new_shares.is_empty());
    // empty fields: nothing happens
    app.add_holding(ShareInput::Positive(5.0));
    assert_eq!(app.holdings.len(), 1);
    app.portfolio_name = "mine".to_string();
    match app.create_portfolio() {
        Some(Request::CreatePortfolio { name, holdings }) => {
            assert_eq!(name, "mine");
            assert_eq!(holdings.get("AAPL"), Some(&10.0));
        },
        _ => panic!("expected a create request"),
    }
    app.remove_holding("AAPL");
    assert!(app.holdings.is_empty());
}


#[test]
fn replies_update_the_form() {
    let mut app: PortfolioApp<Demo> = PortfolioApp::default();
    app.holdings.insert("MSFT".to_string(), 3.0);
    app.loading = true;
    let r = app.process_message(AppMessage::PortfolioCreated { portfolio: "p".to_string(), is_using_mock_data: true }, None, Edition::Advanced);
    assert!(matches!(r, Some(Request::ListPortfolios)));
    assert!(app.holdings.is_empty());
    assert_eq!(app.current_portfolio.as_deref(), Some("p"));
    assert!(app.show_data_source_warning);
    assert!(!app.loading);
    assert_eq!(app.success_msg.as_deref(), Some("Portfolio created successfully"));
    app.process_message(AppMessage::PortfolioLoaded { portfolio: "q".to_string(), is_using_mock_data: false }, None, Edition::Advanced);
    assert_eq!(app.success_msg.as_deref(), Some("Portfolio loaded successfully"));
    assert!(!app.show_data_source_warning);
    app.process_message(AppMessage::StrategyResult { strategy_result: 4, is_using_mock_data: false }, Some("analysis".to_string()), Edition::Advanced);
    assert_eq!(app.strategy_analyses, vec!["analysis"]);
    assert_eq!(app.success_msg.as_deref(), Some("Strategy executed successfully"));
    app.process_message(AppMessage::PriceHistory { history: vec![1.5], is_using_mock_data: false }, None, Edition::Advanced);
    assert_eq!(app.success_msg.as_deref(), Some("Price history loaded successfully"));
    app.process_message(AppMessage::PortfoliosList(vec!["x".to_string()]), None, Edition::Advanced);
    assert_eq!(app.available_portfolios, vec!["x"]);
    app.clear_analyses();
    assert!(app.strategy_analyses.is_empty());
}

#[test]
fn enhanced_edition_does_not_refetch_the_list() {
    let mut app: PortfolioApp<Demo> = PortfolioApp::default();
    app.holdings.insert("MSFT".to_string(), 3.0);
    let r = app.process_message(
        AppMessage::PortfolioCreated { portfolio: "p".to_string(), is_using_mock_data: false },
        None,
        Edition::Enhanced,
    );
    assert!(r.is_none());
    assert!(app.holdings.is_empty());
    assert_eq!(app.current_portfolio.as_deref(), Some("p"));
}

#[test]
fn selected_analysis_stays_recorded() {
    let mut app: PortfolioApp<Demo> = PortfolioApp::default();
    app.current_portfolio = Some("p".to_string());
    app.process_message(AppMessage::StrategyResult { strategy_result: 1, is_using_mock_data: false }, Some("a".to_string()), Edition::Advanced);
    app.selected_analysis = Some(0);
    app.process_message(AppMessage::Error("bad".to_string()), None, Edition::Advanced);
    assert_eq!(app.selected_analysis, Some(0));
    assert_eq!(app.strategy_analyses.len(), 1);
    app.clear_analyses();
    assert_eq!(app.selected_analysis, None);
}

#[test]
fn analysis_needs_a_portfolio() {
    let mut app: PortfolioApp<Demo> = PortfolioApp::default();
    app.process_message(AppMessage::StrategyResult { strategy_result: 1, is_using_mock_data: false }, Some("a".to_string()), Edition::Advanced);
    assert!(app.strategy_analyses.is_empty());
    assert_eq!(app.strategy_result, Some(1));
}

#[test]
fn connection_status() {
    let mut app: PortfolioApp<Demo> = PortfolioApp::default();
    assert_eq!(app.connection_indicator(), ConnectionIndicator::Connecting);
    app.process_message(AppMessage::Connected, None, Edition::Advanced);
    assert_eq!(app.connection_indicator(), ConnectionIndicator::Connected);
    app.process_message(AppMessage::ConnectionFailed("down".to_string()), None, Edition::Advanced);
    assert_eq!(app.connection_indicator(), ConnectionIndicator::Disconnected);
    assert_eq!(app.error_msg.as_deref(), Some("down"));
    app.loading = true;
    app.process_message(AppMessage::Error("bad".to_string()), None, Edition::Advanced);
    assert!(!app.loading);
    app.process_message(AppMessage::DataSourceUpdated(true), None, Edition::Advanced);
    assert!(app.data_source_is_mock && app.show_data_source_warning);
    app.loading = true;
    app.process_message(AppMessage::LoadingComplete, None, Edition::Advanced);
    assert!(!app.loading);
}
