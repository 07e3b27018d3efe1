//! The application state of the terminal and its initial value.
//!
//! Market data that carries floating-point numbers (share counts, weights,
//! prices, backtest figures) is held through the associated types of a
//! [`DataModel`]; the state machine only stores and forwards it.

use vstd::prelude::*;
use crate::string_map::StrMap;
use crate::theme::{ChartType, TerminalTheme};

verus! {

/// The payload types the application carries without inspecting them.
pub trait DataModel {
    /// A number of shares of one symbol.
    type Shares: Copy;
    /// A portfolio as the server reports it.
    type Portfolio;
    /// The outcome of a strategy run.
    type StrategyResult;
    /// A price history.
    type PriceHistory;
    /// The outcome of a backtest.
    type BacktestResult;
    /// The status of the market data source.
    type DataSourceStatus;
    /// A recorded strategy analysis.
    type StrategyAnalysis;
}

/// The view of a list of strings.
pub open spec fn strings_view(v: Vec<String>) -> Seq<Seq<char>> {
    v@.map_values(|s: String| s@)
}

/// The view of an optional string.
pub open spec fn opt_string_view(o: Option<String>) -> Option<Seq<char>> {
    match o {
        Some(s) => Some(s@),
        None => None,
    }
}

/// The portfolio currently shown: its name and the data the server sent.
pub struct CurrentPortfolio<D: DataModel> {
    pub name: String,
    pub portfolio: D::Portfolio,
}

/// Main application state.
pub struct AppState<D: DataModel> {
    // UI state
    pub portfolio_name: String,
    pub available_portfolios: Vec<String>,
    pub holdings: StrMap<D::Shares>,
    pub new_symbol: String,
    pub new_shares: String,
    pub selected_strategy: String,
    pub strategy_params: StrMap<String>,
    pub error_msg: Option<String>,
    pub success_msg: Option<String>,
    pub loading: bool,
    pub connection_status: String,
    // Data
    pub current_portfolio: Option<CurrentPortfolio<D>>,
    pub strategy_result: Option<D::StrategyResult>,
    pub price_history: Option<D::PriceHistory>,
    pub backtest_result: Option<D::BacktestResult>,
    pub data_source_is_mock: bool,
    // Data source status
    pub data_source_status: Option<D::DataSourceStatus>,
    pub auto_refresh_enabled: bool,
    pub refresh_interval_seconds: u64,
    // Enhanced UI state
    pub show_advanced_options: bool,
    pub selected_chart_type: ChartType,
    pub selected_time_period: String,
    pub show_data_source_warning: bool,
    pub show_data_source_panel: bool,
    // Terminal features
    pub keyboard_shortcuts_enabled: bool,
    pub terminal_theme: TerminalTheme,
    pub real_time_updates: bool,
    // Window states
    pub show_strategy_analyzer: bool,
    pub show_risk_dashboard: bool,
    pub show_portfolio_comparison: bool,
    pub show_settings: bool,
    pub show_backtest_analyzer: bool,
    pub show_performance_dashboard: bool,
    pub show_technical_indicators: bool,
    // Strategy analysis
    pub strategy_analyses: Vec<D::StrategyAnalysis>,
    pub selected_analysis: Option<usize>,
    // Ticker visualization
    pub selected_tickers: StrMap<bool>,
    pub available_tickers: Vec<String>,
    pub show_charts: bool,
    pub refresh_charts_requested: bool,
    pub show_percentage: bool,
    // Technical indicators
    pub show_moving_averages: bool,
    pub show_bollinger_bands: bool,
    pub show_rsi: bool,
    pub ma_period: u32,
    pub bb_period: u32,
    pub rsi_period: u32,
    // Backtest analyzer
    pub backtest_selected_month: usize,
}

/// The part of the state that server replies and requests change.
pub struct SessionView<D: DataModel> {
    pub portfolio_name: Seq<char>,
    pub available_portfolios: Seq<Seq<char>>,
    pub holdings: Map<Seq<char>, D::Shares>,
    pub error_msg: Option<Seq<char>>,
    pub success_msg: Option<Seq<char>>,
    pub loading: bool,
    pub connection_status: Seq<char>,
    pub current_portfolio: Option<(Seq<char>, D::Portfolio)>,
    pub strategy_result: Option<D::StrategyResult>,
    pub price_history: Option<D::PriceHistory>,
    pub backtest_result: Option<D::BacktestResult>,
    pub data_source_is_mock: bool,
    pub data_source_status: Option<D::DataSourceStatus>,
    pub show_data_source_warning: bool,
}

/// The user's settings, window layout and view selections.
pub struct PreferencesView<D: DataModel> {
    pub new_symbol: Seq<char>,
    pub new_shares: Seq<char>,
    pub selected_strategy: Seq<char>,
    pub strategy_params: Map<Seq<char>, String>,
    pub auto_refresh_enabled: bool,
    pub refresh_interval_seconds: u64,
    pub show_advanced_options: bool,
    pub selected_chart_type: ChartType,
    pub selected_time_period: Seq<char>,
    pub show_data_source_panel: bool,
    pub keyboard_shortcuts_enabled: bool,
    pub terminal_theme: TerminalTheme,
    pub real_time_updates: bool,
    pub show_strategy_analyzer: bool,
    pub show_risk_dashboard: bool,
    pub show_portfolio_comparison: bool,
    pub show_settings: bool,
    pub show_backtest_analyzer: bool,
    pub show_performance_dashboard: bool,
    pub show_technical_indicators: bool,
    pub strategy_analyses: Seq<D::StrategyAnalysis>,
    pub selected_analysis: Option<usize>,
    pub selected_tickers: Map<Seq<char>, bool>,
    pub available_tickers: Seq<Seq<char>>,
    pub show_charts: bool,
    pub refresh_charts_requested: bool,
    pub show_percentage: bool,
    pub show_moving_averages: bool,
    pub show_bollinger_bands: bool,
    pub show_rsi: bool,
    pub ma_period: u32,
    pub bb_period: u32,
    pub rsi_period: u32,
    pub backtest_selected_month: usize,
}

/// The mathematical view of [`AppState`].
pub struct AppStateView<D: DataModel> {
    pub session: SessionView<D>,
    pub prefs: PreferencesView<D>,
}

impl<D: DataModel> View for AppState<D> {
    type V = AppStateView<D>;

    open spec fn view(&self) -> AppStateView<D> {
        AppStateView {
            session: SessionView {
                portfolio_name: self.portfolio_name@,
                available_portfolios: strings_view(self.available_portfolios),
                holdings: self.holdings@,
                error_msg: opt_string_view(self.error_msg),
                success_msg: opt_string_view(self.success_msg),
                loading: self.loading,
                connection_status: self.connection_status@,
                current_portfolio: match self.current_portfolio {
                    Some(c) => Some((c.name@, c.portfolio)),
                    None => None,
                },
                strategy_result: self.strategy_result,
                price_history: self.price_history,
                backtest_result: self.backtest_result,
                data_source_is_mock: self.data_source_is_mock,
                data_source_status: self.data_source_status,
                show_data_source_warning: self.show_data_source_warning,
            },
            prefs: PreferencesView {
                new_symbol: self.new_symbol@,
                new_shares: self.new_shares@,
                selected_strategy: self.selected_strategy@,
                strategy_params: self.strategy_params@,
                auto_refresh_enabled: self.auto_refresh_enabled,
                refresh_interval_seconds: self.refresh_interval_seconds,
                show_advanced_options: self.show_advanced_options,
                selected_chart_type: self.selected_chart_type,
                selected_time_period: self.selected_time_period@,
                show_data_source_panel: self.show_data_source_panel,
                keyboard_shortcuts_enabled: self.keyboard_shortcuts_enabled,
                terminal_theme: self.terminal_theme,
                real_time_updates: self.real_time_updates,
                show_strategy_analyzer: self.show_strategy_analyzer,
                show_risk_dashboard: self.show_risk_dashboard,
                show_portfolio_comparison: self.show_portfolio_comparison,
                show_settings: self.show_settings,
                show_backtest_analyzer: self.show_backtest_analyzer,
                show_performance_dashboard: self.show_performance_dashboard,
                show_technical_indicators: self.show_technical_indicators,
                strategy_analyses: self.strategy_analyses@,
                selected_analysis: self.selected_analysis,
                selected_tickers: self.selected_tickers@,
                available_tickers: strings_view(self.available_tickers),
                show_charts: self.show_charts,
                refresh_charts_requested: self.refresh_charts_requested,
                show_percentage: self.show_percentage,
                show_moving_averages: self.show_moving_averages,
                show_bollinger_bands: self.show_bollinger_bands,
                show_rsi: self.show_rsi,
                ma_period: self.ma_period,
                bb_period: self.bb_period,
                rsi_period: self.rsi_period,
                backtest_selected_month: self.backtest_selected_month,
            },
        }
    }
}

/// The tickers offered for charting before any portfolio is loaded.
pub open spec fn default_tickers() -> Seq<Seq<char>> {
    seq!["AAPL"@, "GOOGL"@, "MSFT"@, "NVDA"@, "AMZN"@, "TSLA"@]
}

impl<D: DataModel> AppStateView<D> {
    /// The state a freshly started terminal is in.
    pub open spec fn is_initial(self) -> bool {
        &&& self.session.portfolio_name == Seq::<char>::empty()
        &&& self.session.available_portfolios == Seq::<Seq<char>>::empty()
        &&& self.session.holdings == Map::<Seq<char>, D::Shares>::empty()
        &&& self.prefs.new_symbol == Seq::<char>::empty()
        &&& self.prefs.new_shares == Seq::<char>::empty()
        &&& self.prefs.selected_strategy == "bollinger"@
        &&& self.prefs.strategy_params == Map::<Seq<char>, String>::empty()
        &&& self.session.error_msg is None
        &&& self.session.success_msg is None
        &&& !self.session.loading
        &&& self.session.connection_status == "Connecting..."@
        &&& self.session.current_portfolio is None
        &&& self.session.strategy_result is None
        &&& self.session.price_history is None
        &&& self.session.backtest_result is None
        &&& !self.session.data_source_is_mock
        &&& self.session.data_source_status is None
        &&& self.prefs.auto_refresh_enabled
        &&& self.prefs.refresh_interval_seconds == 30
        &&& !self.prefs.show_advanced_options
        &&& self.prefs.selected_chart_type == ChartType::Line
        &&& self.prefs.selected_time_period == "1y"@
        &&& !self.session.show_data_source_warning
        &&& !self.prefs.show_data_source_panel
        &&& self.prefs.keyboard_shortcuts_enabled
        &&& self.prefs.terminal_theme == TerminalTheme::Professional
        &&& self.prefs.real_time_updates
        &&& !self.prefs.show_strategy_analyzer
        &&& !self.prefs.show_risk_dashboard
        &&& !self.prefs.show_portfolio_comparison
        &&& !self.prefs.show_settings
        &&& !self.prefs.show_backtest_analyzer
        &&& !self.prefs.show_performance_dashboard
        &&& !self.prefs.show_technical_indicators
        &&& self.prefs.strategy_analyses == Seq::<D::StrategyAnalysis>::empty()
        &&& self.prefs.selected_analysis is None
        &&& self.prefs.selected_tickers == Map::<Seq<char>, bool>::empty()
        &&& self.prefs.available_tickers == default_tickers()
        &&& self.prefs.show_charts
        &&& !self.prefs.refresh_charts_requested
        &&& !self.prefs.show_percentage
        &&& !self.prefs.show_moving_averages
        &&& !self.prefs.show_bollinger_bands
        &&& !self.prefs.show_rsi
        &&& self.prefs.ma_period == 20
        &&& self.prefs.bb_period == 20
        &&& self.prefs.rsi_period == 14
        &&& self.prefs.backtest_selected_month == 0
    }
}

impl<D: DataModel> Default for AppState<D> {
    fn default() -> (s: Self)
        ensures
            s@.is_initial(),
    {
        let available_tickers = vec![
            "AAPL".to_owned(),
            "GOOGL".to_owned(),
            "MSFT".to_owned(),
            "NVDA".to_owned(),
            "AMZN".to_owned(),
            "TSLA".to_owned(),
        ];
        let s = AppState {
            portfolio_name: String::new(),
            available_portfolios: Vec::new(),
            holdings: StrMap::new(),
            new_symbol: String::new(),
            new_shares: String::new(),
            selected_strategy: "bollinger".to_owned(),
            strategy_params: StrMap::new(),
            error_msg: None,
            success_msg: None,
            loading: false,
            connection_status: "Connecting...".to_owned(),
            current_portfolio: None,
            strategy_result: None,
            price_history: None,
            backtest_result: None,
            data_source_is_mock: false,
            data_source_status: None,
            auto_refresh_enabled: true,
            refresh_interval_seconds: 30,
            show_advanced_options: false,
            selected_chart_type: ChartType::Line,
            selected_time_period: "1y".to_owned(),
            show_data_source_warning: false,
            show_data_source_panel: false,
            keyboard_shortcuts_enabled: true,
            terminal_theme: TerminalTheme::Professional,
            real_time_updates: true,
            show_strategy_analyzer: false,
            show_risk_dashboard: false,
            show_portfolio_comparison: false,
            show_settings: false,
            show_backtest_analyzer: false,
            show_performance_dashboard: false,
            show_technical_indicators: false,
            strategy_analyses: Vec::new(),
            selected_analysis: None,
            selected_tickers: StrMap::new(),
            available_tickers,
            show_charts: true,
            refresh_charts_requested: false,
            show_percentage: false,
            show_moving_averages: false,
            show_bollinger_bands: false,
            show_rsi: false,
            ma_period: 20,
            bb_period: 20,
            rsi_period: 14,
            backtest_selected_month: 0,
        };
        proof {
            assert(strings_view(s.available_portfolios) =~= Seq::<Seq<char>>::empty());
            assert(strings_view(s.available_tickers) =~= default_tickers());
        }
        s
    }
}

} // verus!
