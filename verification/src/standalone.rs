//! The single-window desktop editions of the terminal: their state, the
//! checks they make before sending a request, how they take in the replies,
//! and the holdings editor of the portfolio form.
//!
//! The requests go out through the caller, which feeds the replies back as
//! [`AppMessage`]s.

use vstd::prelude::*;
use crate::app_state::{opt_string_view, strings_view, DataModel};
use crate::string_map::StrMap;
use crate::theme::ChartType;

verus! {

/// Messages for asynchronous communication.
pub enum AppMessage<D: DataModel> {
    Connected,
    ConnectionFailed(String),
    PortfolioCreated { portfolio: D::Portfolio, is_using_mock_data: bool },
    PortfolioLoaded { portfolio: D::Portfolio, is_using_mock_data: bool },
    PortfoliosList(Vec<String>),
    StrategyResult { strategy_result: D::StrategyResult, is_using_mock_data: bool },
    PriceHistory { history: D::PriceHistory, is_using_mock_data: bool },
    /// Whether the data source now serves mock data.
    DataSourceUpdated(bool),
    Error(String),
    LoadingComplete,
}

/// A request for the server.
pub enum Request<D: DataModel> {
    ListPortfolios,
    LoadPortfolio { name: String },
    CreatePortfolio { name: String, holdings: StrMap<D::Shares> },
    RunStrategy { portfolio_name: String, strategy_name: String, params: StrMap<String> },
    PriceHistory { portfolio_name: String, period: String },
}

/// A share count as typed into the holdings form, once the caller has read
/// it as a number.
pub enum ShareInput<S> {
    /// Not a number.
    Invalid,
    /// A number, but zero or negative.
    NotPositive,
    /// A positive number of shares.
    Positive(S),
}

/// The single-window terminal's state.
pub struct PortfolioApp<D: DataModel> {
    pub portfolio_name: String,
    pub available_portfolios: Vec<String>,
    pub holdings: StrMap<D::Shares>,
    pub new_symbol: String,
    pub new_shares: String,
    pub selected_strategy: String,
    pub strategy_params: StrMap<String>,
    pub error_msg: Option<String>,
    pub success_msg: Option<String>,
    pub loading: bool,
    pub connection_status: String,
    pub current_portfolio: Option<D::Portfolio>,
    pub strategy_result: Option<D::StrategyResult>,
    pub price_history: Option<D::PriceHistory>,
    pub data_source_is_mock: bool,
    pub show_advanced_options: bool,
    pub selected_chart_type: ChartType,
    pub selected_time_period: String,
    pub show_data_source_warning: bool,
    pub show_strategy_analyzer: bool,
    pub show_risk_dashboard: bool,
    pub show_portfolio_comparison: bool,
    pub show_settings: bool,
    pub strategy_analyses: Vec<D::StrategyAnalysis>,
    pub selected_analysis: Option<usize>,
}

/// The part of the state that requests and replies change.
pub struct WorkView<D: DataModel> {
    pub portfolio_name: Seq<char>,
    pub available_portfolios: Seq<Seq<char>>,
    pub holdings: Map<Seq<char>, D::Shares>,
    pub new_symbol: Seq<char>,
    pub new_shares: Seq<char>,
    pub error_msg: Option<Seq<char>>,
    pub success_msg: Option<Seq<char>>,
    pub loading: bool,
    pub connection_status: Seq<char>,
    pub current_portfolio: Option<D::Portfolio>,
    pub strategy_result: Option<D::StrategyResult>,
    pub price_history: Option<D::PriceHistory>,
    pub data_source_is_mock: bool,
    pub show_data_source_warning: bool,
    pub strategy_analyses: Seq<D::StrategyAnalysis>,
}

/// The user's choices and window layout.
pub struct ChoicesView {
    pub selected_strategy: Seq<char>,
    pub strategy_params: Map<Seq<char>, String>,
    pub show_advanced_options: bool,
    pub selected_chart_type: ChartType,
    pub selected_time_period: Seq<char>,
    pub show_strategy_analyzer: bool,
    pub show_risk_dashboard: bool,
    pub show_portfolio_comparison: bool,
    pub show_settings: bool,
    pub selected_analysis: Option<usize>,
}

/// The mathematical view of [`PortfolioApp`].
pub struct PortfolioAppView<D: DataModel> {
    pub work: WorkView<D>,
    pub choices: ChoicesView,
}

impl<D: DataModel> View for PortfolioApp<D> {
    type V = PortfolioAppView<D>;

    open spec fn view(&self) -> PortfolioAppView<D> {
        PortfolioAppView {
            work: WorkView {
                portfolio_name: self.portfolio_name@,
                available_portfolios: strings_view(self.available_portfolios),
                holdings: self.holdings@,
                new_symbol: self.new_symbol@,
                new_shares: self.new_shares@,
                error_msg: opt_string_view(self.error_msg),
                success_msg: opt_string_view(self.success_msg),
                loading: self.loading,
                connection_status: self.connection_status@,
                current_portfolio: self.current_portfolio,
                strategy_result: self.strategy_result,
                price_history: self.price_history,
                data_source_is_mock: self.data_source_is_mock,
                show_data_source_warning: self.show_data_source_warning,
                strategy_analyses: self.strategy_analyses@,
            },
            choices: ChoicesView {
                selected_strategy: self.selected_strategy@,
                strategy_params: self.strategy_params@,
                show_advanced_options: self.show_advanced_options,
                selected_chart_type: self.selected_chart_type,
                selected_time_period: self.selected_time_period@,
                show_strategy_analyzer: self.show_strategy_analyzer,
                show_risk_dashboard: self.show_risk_dashboard,
                show_portfolio_comparison: self.show_portfolio_comparison,
                show_settings: self.show_settings,
                selected_analysis: self.selected_analysis,
            },
        }
    }
}

/// The view of a request.
pub enum RequestView<D: DataModel> {
    ListPortfolios,
    LoadPortfolio { name: Seq<char> },
    CreatePortfolio { name: Seq<char>, holdings: Map<Seq<char>, D::Shares> },
    RunStrategy { portfolio_name: Seq<char>, strategy_name: Seq<char>, params: Map<Seq<char>, String> },
    PriceHistory { portfolio_name: Seq<char>, period: Seq<char> },
}

impl<D: DataModel> View for Request<D> {
    type V = RequestView<D>;

    open spec fn view(&self) -> RequestView<D> {
        match self {
            Request::ListPortfolios => RequestView::ListPortfolios,
            Request::LoadPortfolio { name } => RequestView::LoadPortfolio { name: name@ },
            Request::CreatePortfolio { name, holdings } => RequestView::CreatePortfolio {
                name: name@,
                holdings: holdings@,
            },
            Request::RunStrategy { portfolio_name, strategy_name, params } => RequestView::RunStrategy {
                portfolio_name: portfolio_name@,
                strategy_name: strategy_name@,
                params: params@,
            },
            Request::PriceHistory { portfolio_name, period } => RequestView::PriceHistory {
                portfolio_name: portfolio_name@,
                period: period@,
            },
        }
    }
}

/// The view of an optional request.
pub open spec fn opt_request_view<D: DataModel>(r: Option<Request<D>>) -> Option<RequestView<D>> {
    match r {
        Some(r) => Some(r@),
        None => None,
    }
}

/// The view of a message.
pub enum MessageView<D: DataModel> {
    Connected,
    ConnectionFailed(Seq<char>),
    PortfolioCreated { portfolio: D::Portfolio, is_using_mock_data: bool },
    PortfolioLoaded { portfolio: D::Portfolio, is_using_mock_data: bool },
    PortfoliosList(Seq<Seq<char>>),
    StrategyResult { strategy_result: D::StrategyResult, is_using_mock_data: bool },
    PriceHistory { history: D::PriceHistory, is_using_mock_data: bool },
    DataSourceUpdated(bool),
    Error(Seq<char>),
    LoadingComplete,
}

impl<D: DataModel> View for AppMessage<D> {
    type V = MessageView<D>;

    open spec fn view(&self) -> MessageView<D> {
        match self {
            AppMessage::Connected => MessageView::Connected,
            AppMessage::ConnectionFailed(e) => MessageView::ConnectionFailed(e@),
            AppMessage::PortfolioCreated { portfolio, is_using_mock_data } => MessageView::PortfolioCreated {
                portfolio: *portfolio,
                is_using_mock_data: *is_using_mock_data,
            },
            AppMessage::PortfolioLoaded { portfolio, is_using_mock_data } => MessageView::PortfolioLoaded {
                portfolio: *portfolio,
                is_using_mock_data: *is_using_mock_data,
            },
            AppMessage::PortfoliosList(v) => MessageView::PortfoliosList(strings_view(*v)),
            AppMessage::StrategyResult { strategy_result, is_using_mock_data } => MessageView::StrategyResult {
                strategy_result: *strategy_result,
                is_using_mock_data: *is_using_mock_data,
            },
            AppMessage::PriceHistory { history, is_using_mock_data } => MessageView::PriceHistory {
                history: *history,
                is_using_mock_data: *is_using_mock_data,
            },
            AppMessage::DataSourceUpdated(b) => MessageView::DataSourceUpdated(*b),
            AppMessage::Error(e) => MessageView::Error(e@),
            AppMessage::LoadingComplete => MessageView::LoadingComplete,
        }
    }
}

/// The work part after the status messages are cleared and a request
/// has gone out.
pub open spec fn started<D: DataModel>(w: WorkView<D>) -> WorkView<D> {
    WorkView { error_msg: None, success_msg: None, loading: true, ..w }
}

/// The work part after a request was refused with `e`.
pub open spec fn refused<D: DataModel>(w: WorkView<D>, e: Seq<char>) -> WorkView<D> {
    WorkView { error_msg: Some(e), ..w }
}

/// Data arrived: the mock flag and the warning follow its source, the
/// success text is set and loading ends.
pub open spec fn arrived<D: DataModel>(w: WorkView<D>, mock: bool, success: Seq<char>) -> WorkView<D> {
    WorkView {
        data_source_is_mock: mock,
        show_data_source_warning: mock,
        success_msg: Some(success),
        loading: false,
        ..w
    }
}

/// How the work part reacts to a message; `analysis` is the analysis the
/// caller made of a strategy result, recorded when a portfolio is on screen.
pub open spec fn work_after<D: DataModel>(
    w: WorkView<D>,
    m: MessageView<D>,
    analysis: Option<D::StrategyAnalysis>,
) -> WorkView<D> {
    match m {
        MessageView::Connected => WorkView { connection_status: "Connected"@, error_msg: None, ..w },
        MessageView::ConnectionFailed(e) => WorkView { connection_status: "Disconnected"@, error_msg: Some(e), ..w },
        MessageView::PortfolioCreated { portfolio, is_using_mock_data } => WorkView {
            current_portfolio: Some(portfolio),
            holdings: Map::empty(),
            ..arrived(w, is_using_mock_data, "Portfolio created successfully"@)
        },
        MessageView::PortfolioLoaded { portfolio, is_using_mock_data } => WorkView {
            current_portfolio: Some(portfolio),
            ..arrived(w, is_using_mock_data, "Portfolio loaded successfully"@)
        },
        MessageView::PortfoliosList(names) => WorkView { available_portfolios: names, ..w },
        MessageView::StrategyResult { strategy_result, is_using_mock_data } => WorkView {
            strategy_result: Some(strategy_result),
            strategy_analyses: match (w.current_portfolio, analysis) {
                (Some(_), Some(a)) => w.strategy_analyses.push(a),
                _ => w.strategy_analyses,
            },
            ..arrived(w, is_using_mock_data, "Strategy executed successfully"@)
        },
        MessageView::PriceHistory { history, is_using_mock_data } => WorkView {
            price_history: Some(history),
            ..arrived(w, is_using_mock_data, "Price history loaded successfully"@)
        },
        MessageView::DataSourceUpdated(b) => WorkView { data_source_is_mock: b, show_data_source_warning: b, ..w },
        MessageView::Error(e) => WorkView { error_msg: Some(e), loading: false, ..w },
        MessageView::LoadingComplete => WorkView { loading: false, ..w },
    }
}

/// The two single-window editions: the advanced one keeps a list of
/// portfolios to pick from, the enhanced one has the holdings form instead.
#[derive(Debug, Clone, Copy, PartialEq, Eq, Structural)]
pub enum Edition {
    Advanced,
    Enhanced,
}

/// In the advanced edition a newly created portfolio makes the list of
/// portfolios be fetched again; the enhanced edition keeps no such list.
pub open spec fn request_after<D: DataModel>(m: MessageView<D>, edition: Edition) -> Option<RequestView<D>> {
    match m {
        MessageView::PortfolioCreated { .. } => if edition == Edition::Advanced {
            Some(RequestView::ListPortfolios)
        } else {
            None
        },
        _ => None,
    }
}

/// The selected analysis, if any, is one of the recorded analyses.
pub open spec fn selection_valid<D: DataModel>(v: PortfolioAppView<D>) -> bool {
    match v.choices.selected_analysis {
        Some(i) => i < v.work.strategy_analyses.len(),
        None => true,
    }
}

/// The state a freshly started single-window terminal is in.
pub open spec fn is_initial<D: DataModel>(v: PortfolioAppView<D>) -> bool {
    &&& v.work.portfolio_name == Seq::<char>::empty()
    &&& v.work.available_portfolios == Seq::<Seq<char>>::empty()
    &&& v.work.holdings == Map::<Seq<char>, D::Shares>::empty()
    &&& v.work.new_symbol == Seq::<char>::empty()
    &&& v.work.new_shares == Seq::<char>::empty()
    &&& v.work.error_msg is None
    &&& v.work.success_msg is None
    &&& !v.work.loading
    &&& v.work.connection_status == "Connecting..."@
    &&& v.work.current_portfolio is None
    &&& v.work.strategy_result is None
    &&& v.work.price_history is None
    &&& !v.work.data_source_is_mock
    &&& !v.work.show_data_source_warning
    &&& v.work.strategy_analyses == Seq::<D::StrategyAnalysis>::empty()
    &&& v.choices.selected_strategy == "bollinger"@
    &&& v.choices.strategy_params == Map::<Seq<char>, String>::empty()
    &&& !v.choices.show_advanced_options
    &&& v.choices.selected_chart_type == ChartType::Line
    &&& v.choices.selected_time_period == "1y"@
    &&& !v.choices.show_strategy_analyzer
    &&& !v.choices.show_risk_dashboard
    &&& !v.choices.show_portfolio_comparison
    &&& !v.choices.show_settings
    &&& v.choices.selected_analysis is None
}

/// How the connection status is drawn.
#[derive(Debug, Clone, Copy, PartialEq, Eq, Structural)]
pub enum ConnectionIndicator {
    Connected,
    Connecting,
    Disconnected,
}

/// The indicator for a connection status text.
pub open spec fn indicator_for(status: Seq<char>) -> ConnectionIndicator {
    if status == "Connected"@ {
        ConnectionIndicator::Connected
    } else if status == "Connecting..."@ {
        ConnectionIndicator::Connecting
    } else {
        ConnectionIndicator::Disconnected
    }
}

impl<D: DataModel> Default for PortfolioApp<D> {
    fn default() -> (s: Self)
        ensures
            is_initial(s@),
            selection_valid(s@),
    {
        let s = PortfolioApp {
            portfolio_name: String::new(),
            available_portfolios: Vec::new(),
            holdings: StrMap::new(),
            new_symbol: String::new(),
            new_shares: String::new(),
            selected_strategy: "bollinger".to_owned(),
            strategy_params: StrMap::new(),
            error_msg: None,
            success_msg: None,
            loading: false,
            connection_status: "Connecting...".to_owned(),
            current_portfolio: None,
            strategy_result: None,
            price_history: None,
            data_source_is_mock: false,
            show_advanced_options: false,
            selected_chart_type: ChartType::Line,
            selected_time_period: "1y".to_owned(),
            show_data_source_warning: false,
            show_strategy_analyzer: false,
            show_risk_dashboard: false,
            show_portfolio_comparison: false,
            show_settings: false,
            strategy_analyses: Vec::new(),
            selected_analysis: None,
        };
        assert(strings_view(s.available_portfolios) =~= Seq::<Seq<char>>::empty());
        s
    }
}

impl<D: DataModel> PortfolioApp<D> {
    /// Drops the error and success texts.
    pub fn clear_messages(&mut self)
        ensures
            selection_valid(old(self)@) ==> selection_valid(final(self)@),
            final(self)@.work == (WorkView { error_msg: None, success_msg: None, ..old(self)@.work }),
            final(self)@.choices == old(self)@.choices,
    {
        self.error_msg = None;
        self.success_msg = None;
    }

    fn start(&mut self)
        ensures
            final(self)@.work == started(old(self)@.work),
            final(self)@.choices == old(self)@.choices,
    {
        self.clear_messages();
        self.loading = true;
    }

    fn refuse(&mut self, error: &str)
        ensures
            final(self)@.work == refused(old(self)@.work, error@),
            final(self)@.choices == old(self)@.choices,
    {
        self.error_msg = Some(error.to_owned());
    }

    /// Checks the form and starts loading the named portfolio.
    pub fn load_portfolio(&mut self) -> (r: Option<Request<D>>)
        ensures
            selection_valid(old(self)@) ==> selection_valid(final(self)@),
            final(self)@.choices == old(self)@.choices,
            if old(self)@.work.portfolio_name.len() == 0 {
                &&& final(self)@.work == refused(old(self)@.work, "Portfolio name required"@)
                &&& r is None
            } else {
                &&& final(self)@.work == started(old(self)@.work)
                &&& opt_request_view(r) == Some(RequestView::<D>::LoadPortfolio { name: old(self)@.work.portfolio_name })
            },
    {
        if self.portfolio_name.as_str().is_empty() {
            self.refuse("Portfolio name required");
            return None;
        }
        self.start();
        Some(Request::LoadPortfolio { name: self.portfolio_name.clone() })
    }

    /// Checks the form and starts running the selected strategy.
    pub fn run_strategy(&mut self) -> (r: Option<Request<D>>)
        ensures
            selection_valid(old(self)@) ==> selection_valid(final(self)@),
            final(self)@.choices == old(self)@.choices,
            if old(self)@.work.portfolio_name.len() == 0 || old(self)@.choices.selected_strategy.len() == 0 {
                &&& final(self)@.work == refused(old(self)@.work, "Portfolio name and strategy required"@)
                &&& r is None
            } else {
                &&& final(self)@.work == started(old(self)@.work)
                &&& opt_request_view(r) == Some(RequestView::<D>::RunStrategy {
                    portfolio_name: old(self)@.work.portfolio_name,
                    strategy_name: old(self)@.choices.selected_strategy,
                    params: old(self)@.choices.strategy_params,
                })
            },
    {
        if self.portfolio_name.as_str().is_empty() || self.selected_strategy.as_str().is_empty() {
            self.refuse("Portfolio name and strategy required");
            return None;
        }
        self.start();
        Some(Request::RunStrategy {
            portfolio_name: self.portfolio_name.clone(),
            strategy_name: self.selected_strategy.clone(),
            params: self.strategy_params.cloned(),
        })
    }

    /// Checks the form and starts fetching the price history.
    pub fn get_price_history(&mut self) -> (r: Option<Request<D>>)
        ensures
            selection_valid(old(self)@) ==> selection_valid(final(self)@),
            final(self)@.choices == old(self)@.choices,
            if old(self)@.work.portfolio_name.len() == 0 {
                &&& final(self)@.work == refused(old(self)@.work, "Portfolio name required"@)
                &&& r is None
            } else {
                &&& final(self)@.work == started(old(self)@.work)
                &&& opt_request_view(r) == Some(RequestView::<D>::PriceHistory {
                    portfolio_name: old(self)@.work.portfolio_name,
                    period: old(self)@.choices.selected_time_period,
                })
            },
    {
        if self.portfolio_name.as_str().is_empty() {
            self.refuse("Portfolio name required");
            return None;
        }
        self.start();
        Some(Request::PriceHistory {
            portfolio_name: self.portfolio_name.clone(),
            period: self.selected_time_period.clone(),
        })
    }

    /// Checks the form and starts creating a portfolio from the holdings.
    pub fn create_portfolio(&mut self) -> (r: Option<Request<D>>)
        ensures
            selection_valid(old(self)@) ==> selection_valid(final(self)@),
            final(self)@.choices == old(self)@.choices,
            if old(self)@.work.portfolio_name.len() == 0 || old(self)@.work.holdings.dom().len() == 0 {
                &&& final(self)@.work == refused(old(self)@.work, "Portfolio name and holdings required"@)
                &&& r is None
            } else {
                &&& final(self)@.work == started(old(self)@.work)
                &&& opt_request_view(r) == Some(RequestView::<D>::CreatePortfolio {
                    name: old(self)@.work.portfolio_name,
                    holdings: old(self)@.work.holdings,
                })
            },
    {
        let n = self.holdings.len();
        if self.portfolio_name.as_str().is_empty() || n == 0 {
            self.refuse("Portfolio name and holdings required");
            return None;
        }
        self.start();
        Some(Request::CreatePortfolio { name: self.portfolio_name.clone(), holdings: self.holdings.copied() })
    }

    /// Adds the holding typed into the form; `shares` is the form's share
    /// count as the caller read it. Nothing happens while either field is
    /// empty.
    pub fn add_holding(&mut self, shares: ShareInput<D::Shares>)
        ensures
            selection_valid(old(self)@) ==> selection_valid(final(self)@),
            final(self)@.choices == old(self)@.choices,
            if old(self)@.work.new_symbol.len() == 0 || old(self)@.work.new_shares.len() == 0 {
                final(self)@.work == old(self)@.work
            } else {
                match shares {
                    ShareInput::Positive(v) => final(self)@.work == (WorkView {
                        holdings: old(self)@.work.holdings.insert(old(self)@.work.new_symbol, v),
                        new_symbol: Seq::<char>::empty(),
                        new_shares: Seq::<char>::empty(),
                        success_msg: Some("Holding added"@),
                        ..old(self)@.work
                    }),
                    ShareInput::NotPositive => final(self)@.work == refused(old(self)@.work, "Shares must be positive"@),
                    ShareInput::Invalid => final(self)@.work == refused(old(self)@.work, "Invalid shares value"@),
                }
            },
    {
        if self.new_symbol.as_str().is_empty() || self.new_shares.as_str().is_empty() {
            return;
        }
        match shares {
            ShareInput::Positive(v) => {
                let symbol = self.new_symbol.clone();
                self.holdings.insert(symbol, v);
                self.new_symbol = String::new();
                self.new_shares = String::new();
                self.success_msg = Some("Holding added".to_owned());
            },
            ShareInput::NotPositive => self.refuse("Shares must be positive"),
            ShareInput::Invalid => self.refuse("Invalid shares value"),
        }
    }

    /// Removes a holding from the form.
    pub fn remove_holding(&mut self, symbol: &str)
        ensures
            selection_valid(old(self)@) ==> selection_valid(final(self)@),
            final(self)@.work == (WorkView { holdings: old(self)@.work.holdings.remove(symbol@), ..old(self)@.work }),
            final(self)@.choices == old(self)@.choices,
    {
        self.holdings.remove(symbol);
    }

    /// Forgets every recorded strategy analysis.
    pub fn clear_analyses(&mut self)
        ensures
            selection_valid(old(self)@) ==> selection_valid(final(self)@),
            final(self)@.work == (WorkView { strategy_analyses: Seq::empty(), ..old(self)@.work }),
            final(self)@.choices == (ChoicesView { selected_analysis: None, ..old(self)@.choices }),
    {
        self.strategy_analyses = Vec::new();
        self.selected_analysis = None;
    }

    fn take_arrival(&mut self, mock: bool, success: &str)
        ensures
            final(self)@.work == arrived(old(self)@.work, mock, success@),
            final(self)@.choices == old(self)@.choices,
    {
        self.data_source_is_mock = mock;
        self.show_data_source_warning = mock;
        self.success_msg = Some(success.to_owned());
        self.loading = false;
    }

    fn on_connected(&mut self)
        ensures
            final(self)@.work == work_after(old(self)@.work, MessageView::<D>::Connected, None),
            final(self)@.choices == old(self)@.choices,
    {
        self.connection_status = "Connected".to_owned();
        self.error_msg = None;
    }

    fn on_connection_failed(&mut self, error: String)
        ensures
            final(self)@.work == work_after(old(self)@.work, MessageView::<D>::ConnectionFailed(error@), None),
            final(self)@.choices == old(self)@.choices,
    {
        self.connection_status = "Disconnected".to_owned();
        self.error_msg = Some(error);
    }

    fn on_portfolio_created(&mut self, portfolio: D::Portfolio, mock: bool)
        ensures
            final(self)@.work == work_after(
                old(self)@.work,
                MessageView::<D>::PortfolioCreated { portfolio, is_using_mock_data: mock },
                None,
            ),
            final(self)@.choices == old(self)@.choices,
    {
        self.take_arrival(mock, "Portfolio created successfully");
        self.current_portfolio = Some(portfolio);
        self.holdings.clear();
    }

    fn on_portfolio_loaded(&mut self, portfolio: D::Portfolio, mock: bool)
        ensures
            final(self)@.work == work_after(
                old(self)@.work,
                MessageView::<D>::PortfolioLoaded { portfolio, is_using_mock_data: mock },
                None,
            ),
            final(self)@.choices == old(self)@.choices,
    {
        self.take_arrival(mock, "Portfolio loaded successfully");
        self.current_portfolio = Some(portfolio);
    }

    fn on_portfolios(&mut self, portfolios: Vec<String>)
        ensures
            final(self)@.work == work_after(old(self)@.work, MessageView::<D>::PortfoliosList(strings_view(portfolios)), None),
            final(self)@.choices == old(self)@.choices,
    {
        self.available_portfolios = portfolios;
    }

    fn on_strategy_result(&mut self, result: D::StrategyResult, mock: bool, analysis: Option<D::StrategyAnalysis>)
        ensures
            final(self)@.work == work_after(
                old(self)@.work,
                MessageView::<D>::StrategyResult { strategy_result: result, is_using_mock_data: mock },
                analysis,
            ),
            final(self)@.choices == old(self)@.choices,
    {
        let ghost w0 = self@.work;
        if self.current_portfolio.is_some() {
            if let Some(a) = analysis {
                self.strategy_analyses.push(a);
            }
        }
        let ghost w1 = self@.work;
        assert(w1.strategy_analyses == work_after(
            w0,
            MessageView::<D>::StrategyResult { strategy_result: result, is_using_mock_data: mock },
            analysis,
        ).strategy_analyses);
        self.take_arrival(mock, "Strategy executed successfully");
        self.strategy_result = Some(result);
    }

    fn on_price_history(&mut self, history: D::PriceHistory, mock: bool)
        ensures
            final(self)@.work == work_after(
                old(self)@.work,
                MessageView::<D>::PriceHistory { history, is_using_mock_data: mock },
                None,
            ),
            final(self)@.choices == old(self)@.choices,
    {
        self.take_arrival(mock, "Price history loaded successfully");
        self.price_history = Some(history);
    }

    fn on_source_updated(&mut self, is_mock: bool)
        ensures
            final(self)@.work == work_after(old(self)@.work, MessageView::<D>::DataSourceUpdated(is_mock), None),
            final(self)@.choices == old(self)@.choices,
    {
        self.data_source_is_mock = is_mock;
        self.show_data_source_warning = is_mock;
    }

    fn on_error(&mut self, error: String)
        ensures
            final(self)@.work == work_after(old(self)@.work, MessageView::<D>::Error(error@), None),
            final(self)@.choices == old(self)@.choices,
    {
        self.error_msg = Some(error);
        self.loading = false;
    }

    fn on_loading_complete(&mut self)
        ensures
            final(self)@.work == work_after(old(self)@.work, MessageView::<D>::LoadingComplete, None),
            final(self)@.choices == old(self)@.choices,
    {
        self.loading = false;
    }

    /// Applies one message; `analysis` is the caller's analysis of a
    /// strategy result (it is recorded only while a portfolio is on screen).
    /// Returns the request the message calls for, if any.
    pub fn process_message(
        &mut self,
        message: AppMessage<D>,
        analysis: Option<D::StrategyAnalysis>,
        edition: Edition,
    ) -> (r: Option<Request<D>>)
        ensures
            selection_valid(old(self)@) ==> selection_valid(final(self)@),
            final(self)@.work == work_after(old(self)@.work, message@, analysis),
            final(self)@.choices == old(self)@.choices,
            opt_request_view(r) == request_after(message@, edition),
    {
        match message {
            AppMessage::Connected => {
                self.on_connected();
                None
            },
            AppMessage::ConnectionFailed(e) => {
                self.on_connection_failed(e);
                None
            },
            AppMessage::PortfolioCreated { portfolio, is_using_mock_data } => {
                self.on_portfolio_created(portfolio, is_using_mock_data);
                match edition {
                    Edition::Advanced => Some(Request::ListPortfolios),
                    Edition::Enhanced => None,
                }
            },
            AppMessage::PortfolioLoaded { portfolio, is_using_mock_data } => {
                self.on_portfolio_loaded(portfolio, is_using_mock_data);
                None
            },
            AppMessage::PortfoliosList(v) => {
                self.on_portfolios(v);
                None
            },
            AppMessage::StrategyResult { strategy_result, is_using_mock_data } => {
                self.on_strategy_result(strategy_result, is_using_mock_data, analysis);
                None
            },
            AppMessage::PriceHistory { history, is_using_mock_data } => {
                self.on_price_history(history, is_using_mock_data);
                None
            },
            AppMessage::DataSourceUpdated(b) => {
                self.on_source_updated(b);
                None
            },
            AppMessage::Error(e) => {
                self.on_error(e);
                None
            },
            AppMessage::LoadingComplete => {
                self.on_loading_complete();
                None
            },
        }
    }

    /// How the connection status is drawn.
    pub fn connection_indicator(&self) -> (c: ConnectionIndicator)
        ensures
            c == indicator_for(self.connection_status@),
    {
        proof {
            reveal_strlit("Connected");
            reveal_strlit("Connecting...");
        }
        let connected = "Connected".to_owned();
        let connecting = "Connecting...".to_owned();
        if self.connection_status == connected {
            ConnectionIndicator::Connected
        } else if self.connection_status == connecting {
            ConnectionIndicator::Connecting
        } else {
            ConnectionIndicator::Disconnected
        }
    }
}

/// Every reply to a request, successful or not, ends the loading indicator.
pub proof fn law_replies_end_loading<D: DataModel>(w: WorkView<D>, m: MessageView<D>, a: Option<D::StrategyAnalysis>)
    requires
        m is PortfolioCreated || m is PortfolioLoaded || m is StrategyResult || m is PriceHistory || m is Error
            || m is LoadingComplete,
    ensures
        !work_after(w, m, a).loading,
{
}

/// The mock-data warning always follows the source of the latest data.
pub proof fn law_warning_follows_source<D: DataModel>(w: WorkView<D>, m: MessageView<D>, a: Option<D::StrategyAnalysis>)
    ensures
        match m {
            MessageView::PortfolioCreated { is_using_mock_data, .. } => work_after(w, m, a).show_data_source_warning == is_using_mock_data,
            MessageView::PortfolioLoaded { is_using_mock_data, .. } => work_after(w, m, a).show_data_source_warning == is_using_mock_data,
            MessageView::StrategyResult { is_using_mock_data, .. } => work_after(w, m, a).show_data_source_warning == is_using_mock_data,
            MessageView::PriceHistory { is_using_mock_data, .. } => work_after(w, m, a).show_data_source_warning == is_using_mock_data,
            MessageView::DataSourceUpdated(b) => work_after(w, m, a).show_data_source_warning == b,
            _ => work_after(w, m, a).show_data_source_warning == w.show_data_source_warning,
        },
{
}

/// Recorded analyses only ever grow, by the caller's analysis of a strategy
/// result while a portfolio is on screen.
pub proof fn law_analyses_only_grow<D: DataModel>(w: WorkView<D>, m: MessageView<D>, a: Option<D::StrategyAnalysis>)
    ensures
        work_after(w, m, a).strategy_analyses == w.strategy_analyses
            || (m is StrategyResult && w.current_portfolio is Some && a is Some
                && work_after(w, m, a).strategy_analyses == w.strategy_analyses.push(a->0)),
{
}

/// A created portfolio empties the holdings form, ready for the next one.
pub proof fn law_created_clears_form<D: DataModel>(w: WorkView<D>, p: D::Portfolio, mock: bool, a: Option<D::StrategyAnalysis>)
    ensures
        work_after(w, MessageView::PortfolioCreated { portfolio: p, is_using_mock_data: mock }, a).holdings
            == Map::<Seq<char>, D::Shares>::empty(),
        work_after(w, MessageView::PortfolioCreated { portfolio: p, is_using_mock_data: mock }, a).current_portfolio
            == Some(p),
{
}

/// Whatever a message brings, the selected analysis stays one of the
/// recorded analyses.
pub proof fn law_selection_stays_valid<D: DataModel>(
    v: PortfolioAppView<D>,
    m: MessageView<D>,
    a: Option<D::StrategyAnalysis>,
)
    requires
        selection_valid(v),
    ensures
        selection_valid(PortfolioAppView { work: work_after(v.work, m, a), choices: v.choices }),
{
}

/// Data that arrives replaces what was shown: a loaded portfolio becomes the
/// one on screen, and a strategy result or price history the one drawn,
/// whatever was shown before and whatever source it came from.
pub proof fn law_arrivals_replace_what_is_shown<D: DataModel>(
    w: WorkView<D>,
    p: D::Portfolio,
    r: D::StrategyResult,
    h: D::PriceHistory,
    mock: bool,
    a: Option<D::StrategyAnalysis>,
)
    ensures
        work_after(w, MessageView::PortfolioLoaded { portfolio: p, is_using_mock_data: mock }, a).current_portfolio
            == Some(p),
        work_after(w, MessageView::PortfolioCreated { portfolio: p, is_using_mock_data: mock }, a).current_portfolio
            == Some(p),
        work_after(w, MessageView::StrategyResult { strategy_result: r, is_using_mock_data: mock }, a).strategy_result
            == Some(r),
        work_after(w, MessageView::PriceHistory { history: h, is_using_mock_data: mock }, a).price_history
            == Some(h),
{
}

} // verus!
