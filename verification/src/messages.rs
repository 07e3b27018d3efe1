//! Messages that background requests deliver to the terminal, and how the
//! application state reacts to them.
//!
//! The network calls themselves run outside the library: each transition
//! returns the [`Command`] (if any) that the caller has to carry out, and the
//! caller later feeds the outcome back in as an [`AppMessage`].

use vstd::prelude::*;
use crate::app_state::{strings_view, AppState, AppStateView, CurrentPortfolio, DataModel, SessionView};
use crate::string_map::StrMap;

verus! {

/// A portfolio as delivered by the server: the fields the state reads, and
/// the full record.
pub struct PortfolioPayload<D: DataModel> {
    pub name: String,
    pub holdings: StrMap<D::Shares>,
    pub is_using_mock_data: bool,
    pub portfolio: D::Portfolio,
}

/// Messages for asynchronous communication.
pub enum AppMessage<D: DataModel> {
    Connected,
    ConnectionFailed(String),
    PortfolioCreated(PortfolioPayload<D>),
    PortfolioLoaded(PortfolioPayload<D>),
    PortfoliosList(Vec<String>),
    StrategyResult { strategy_result: D::StrategyResult, is_using_mock_data: bool },
    PriceHistory { history: D::PriceHistory, is_using_mock_data: bool },
    BacktestResult { backtest_result: D::BacktestResult, is_using_mock_data: bool },
    /// Whether the data source now serves mock data.
    DataSourceUpdated(bool),
    DataSourceStatus(D::DataSourceStatus),
    Error(String),
    LoadingComplete,
    RefreshData,
}

/// Background work the caller must start after a transition.
pub enum Command {
    /// Fetch the list of portfolio names.
    ListPortfolios,
    /// Fetch the named portfolio.
    LoadPortfolio(String),
}

/// The view of a delivered portfolio.
pub struct PortfolioPayloadView<D: DataModel> {
    pub name: Seq<char>,
    pub holdings: Map<Seq<char>, D::Shares>,
    pub is_using_mock_data: bool,
    pub portfolio: D::Portfolio,
}

/// The view of a message.
pub enum MessageView<D: DataModel> {
    Connected,
    ConnectionFailed(Seq<char>),
    PortfolioCreated(PortfolioPayloadView<D>),
    PortfolioLoaded(PortfolioPayloadView<D>),
    PortfoliosList(Seq<Seq<char>>),
    StrategyResult { strategy_result: D::StrategyResult, is_using_mock_data: bool },
    PriceHistory { history: D::PriceHistory, is_using_mock_data: bool },
    BacktestResult { backtest_result: D::BacktestResult, is_using_mock_data: bool },
    DataSourceUpdated(bool),
    DataSourceStatus(D::DataSourceStatus),
    Error(Seq<char>),
    LoadingComplete,
    RefreshData,
}

/// The view of a command.
pub enum CommandView {
    ListPortfolios,
    LoadPortfolio(Seq<char>),
}

impl<D: DataModel> View for PortfolioPayload<D> {
    type V = PortfolioPayloadView<D>;

    open spec fn view(&self) -> PortfolioPayloadView<D> {
        PortfolioPayloadView {
            name: self.name@,
            holdings: self.holdings@,
            is_using_mock_data: self.is_using_mock_data,
            portfolio: self.portfolio,
        }
    }
}

impl<D: DataModel> View for AppMessage<D> {
    type V = MessageView<D>;

    open spec fn view(&self) -> MessageView<D> {
        match self {
            AppMessage::Connected => MessageView::Connected,
            AppMessage::ConnectionFailed(e) => MessageView::ConnectionFailed(e@),
            AppMessage::PortfolioCreated(p) => MessageView::PortfolioCreated(p@),
            AppMessage::PortfolioLoaded(p) => MessageView::PortfolioLoaded(p@),
            AppMessage::PortfoliosList(v) => MessageView::PortfoliosList(strings_view(*v)),
            AppMessage::StrategyResult { strategy_result, is_using_mock_data } => MessageView::StrategyResult {
                strategy_result: *strategy_result,
                is_using_mock_data: *is_using_mock_data,
            },
            AppMessage::PriceHistory { history, is_using_mock_data } => MessageView::PriceHistory {
                history: *history,
                is_using_mock_data: *is_using_mock_data,
            },
            AppMessage::BacktestResult { backtest_result, is_using_mock_data } => MessageView::BacktestResult {
                backtest_result: *backtest_result,
                is_using_mock_data: *is_using_mock_data,
            },
            AppMessage::DataSourceUpdated(b) => MessageView::DataSourceUpdated(*b),
            AppMessage::DataSourceStatus(s) => MessageView::DataSourceStatus(*s),
            AppMessage::Error(e) => MessageView::Error(e@),
            AppMessage::LoadingComplete => MessageView::LoadingComplete,
            AppMessage::RefreshData => MessageView::RefreshData,
        }
    }
}

impl View for Command {
    type V = CommandView;

    open spec fn view(&self) -> CommandView {
        match self {
            Command::ListPortfolios => CommandView::ListPortfolios,
            Command::LoadPortfolio(n) => CommandView::LoadPortfolio(n@),
        }
    }
}

/// Starting to load a portfolio: the state shows progress and drops the last
/// error.
pub open spec fn start_load<D: DataModel>(s: SessionView<D>) -> SessionView<D> {
    SessionView { loading: true, error_msg: None, ..s }
}

/// The session after a portfolio arrived (shared by loading and creating).
pub open spec fn with_portfolio<D: DataModel>(s: SessionView<D>, p: PortfolioPayloadView<D>) -> SessionView<D> {
    SessionView {
        current_portfolio: Some((p.name, p.portfolio)),
        portfolio_name: p.name,
        holdings: p.holdings,
        data_source_is_mock: p.is_using_mock_data,
        loading: false,
        ..s
    }
}

/// Data that came from a mock source raises the data-source warning; real
/// data leaves it as it was.
pub open spec fn warn_if_mock<D: DataModel>(s: SessionView<D>) -> SessionView<D> {
    if s.data_source_is_mock {
        SessionView { show_data_source_warning: true, ..s }
    } else {
        s
    }
}

/// How the session reacts to a message.
pub open spec fn session_after<D: DataModel>(s: SessionView<D>, m: MessageView<D>) -> SessionView<D> {
    match m {
        MessageView::Connected => SessionView { connection_status: "Connected"@, error_msg: None, ..s },
        MessageView::ConnectionFailed(e) => SessionView { connection_status: "Disconnected"@, error_msg: Some(e), ..s },
        MessageView::PortfoliosList(names) => SessionView { available_portfolios: names, ..s },
        MessageView::PortfolioLoaded(p) => warn_if_mock(with_portfolio(s, p)),
        MessageView::PortfolioCreated(p) => SessionView {
            success_msg: Some("Portfolio created successfully"@),
            ..with_portfolio(s, p)
        },
        MessageView::StrategyResult { strategy_result, is_using_mock_data } => warn_if_mock(SessionView {
            strategy_result: Some(strategy_result),
            data_source_is_mock: is_using_mock_data,
            loading: false,
            ..s
        }),
        MessageView::PriceHistory { history, is_using_mock_data } => warn_if_mock(SessionView {
            price_history: Some(history),
            data_source_is_mock: is_using_mock_data,
            loading: false,
            ..s
        }),
        MessageView::BacktestResult { backtest_result, is_using_mock_data } => warn_if_mock(SessionView {
            backtest_result: Some(backtest_result),
            data_source_is_mock: is_using_mock_data,
            loading: false,
            ..s
        }),
        MessageView::DataSourceUpdated(is_mock) => SessionView {
            data_source_is_mock: is_mock,
            show_data_source_warning: is_mock,
            ..s
        },
        MessageView::DataSourceStatus(status) => SessionView { data_source_status: Some(status), ..s },
        MessageView::Error(e) => SessionView { error_msg: Some(e), loading: false, ..s },
        MessageView::LoadingComplete => SessionView { loading: false, ..s },
        MessageView::RefreshData => if s.current_portfolio is Some {
            start_load(s)
        } else {
            s
        },
    }
}

/// The work a message starts: a created portfolio refreshes the list of
/// portfolios, a refresh reloads the portfolio on screen.
pub open spec fn command_after<D: DataModel>(s: SessionView<D>, m: MessageView<D>) -> Option<CommandView> {
    match m {
        MessageView::PortfolioCreated(_) => Some(CommandView::ListPortfolios),
        MessageView::RefreshData => match s.current_portfolio {
            Some((name, _)) => Some(CommandView::LoadPortfolio(name)),
            None => None,
        },
        _ => None,
    }
}

/// How the whole state reacts to a message, and the work it starts.
pub open spec fn after_message<D: DataModel>(s: AppStateView<D>, m: MessageView<D>) -> (AppStateView<D>, Option<CommandView>) {
    (AppStateView { session: session_after(s.session, m), ..s }, command_after(s.session, m))
}

/// The view of an optional command.
pub open spec fn opt_command_view(c: Option<Command>) -> Option<CommandView> {
    match c {
        Some(c) => Some(c@),
        None => None,
    }
}

impl<D: DataModel> AppState<D> {
    /// Marks a portfolio load as under way and returns the request to send.
    pub fn load_portfolio(&mut self, name: &str) -> (cmd: Command)
        ensures
            final(self)@.session == start_load(old(self)@.session),
            final(self)@.prefs == old(self)@.prefs,
            cmd@ == CommandView::LoadPortfolio(name@),
    {
        self.loading = true;
        self.error_msg = None;
        Command::LoadPortfolio(name.to_owned())
    }

    fn take_portfolio(&mut self, p: PortfolioPayload<D>)
        ensures
            final(self)@.session == with_portfolio(old(self)@.session, p@),
            final(self)@.prefs == old(self)@.prefs,
    {
        self.current_portfolio = Some(CurrentPortfolio { name: p.name.clone(), portfolio: p.portfolio });
        self.portfolio_name = p.name;
        self.holdings = p.holdings;
        self.data_source_is_mock = p.is_using_mock_data;
        self.loading = false;
    }

    fn warn_on_mock(&mut self)
        ensures
            final(self)@.session == warn_if_mock(old(self)@.session),
            final(self)@.prefs == old(self)@.prefs,
    {
        if self.data_source_is_mock {
            self.show_data_source_warning = true;
        }
    }

    fn on_connected(&mut self) -> (cmd: Option<Command>)
        ensures
            final(self)@.session == session_after(old(self)@.session, MessageView::Connected),
            final(self)@.prefs == old(self)@.prefs,
            opt_command_view(cmd) == command_after(old(self)@.session, MessageView::Connected),
    {
        self.connection_status = "Connected".to_owned();
        self.error_msg = None;
        None
    }

    fn on_connection_failed(&mut self, error: String) -> (cmd: Option<Command>)
        ensures
            final(self)@.session == session_after(old(self)@.session, MessageView::ConnectionFailed(error@)),
            final(self)@.prefs == old(self)@.prefs,
            opt_command_view(cmd) == command_after(old(self)@.session, MessageView::ConnectionFailed(error@)),
    {
        self.connection_status = "Disconnected".to_owned();
        self.error_msg = Some(error);
        None
    }

    fn on_portfolios_list(&mut self, portfolios: Vec<String>) -> (cmd: Option<Command>)
        ensures
            final(self)@.session == session_after(old(self)@.session, MessageView::PortfoliosList(strings_view(portfolios))),
            final(self)@.prefs == old(self)@.prefs,
            opt_command_view(cmd) == command_after(old(self)@.session, MessageView::PortfoliosList(strings_view(portfolios))),
    {
        self.available_portfolios = portfolios;
        None
    }

    fn on_portfolio_loaded(&mut self, p: PortfolioPayload<D>) -> (cmd: Option<Command>)
        ensures
            final(self)@.session == session_after(old(self)@.session, MessageView::PortfolioLoaded(p@)),
            final(self)@.prefs == old(self)@.prefs,
            opt_command_view(cmd) == command_after(old(self)@.session, MessageView::PortfolioLoaded(p@)),
    {
        self.take_portfolio(p);
        self.warn_on_mock();
        None
    }

    fn on_portfolio_created(&mut self, p: PortfolioPayload<D>) -> (cmd: Option<Command>)
        ensures
            final(self)@.session == session_after(old(self)@.session, MessageView::PortfolioCreated(p@)),
            final(self)@.prefs == old(self)@.prefs,
            opt_command_view(cmd) == command_after(old(self)@.session, MessageView::PortfolioCreated(p@)),
    {
        self.take_portfolio(p);
        self.success_msg = Some("Portfolio created successfully".to_owned());
        Some(Command::ListPortfolios)
    }

    fn on_strategy_result(&mut self, strategy_result: D::StrategyResult, is_using_mock_data: bool) -> (cmd: Option<Command>)
        ensures
            final(self)@.session == session_after(old(self)@.session, MessageView::StrategyResult { strategy_result, is_using_mock_data }),
            final(self)@.prefs == old(self)@.prefs,
            opt_command_view(cmd) == command_after(old(self)@.session, MessageView::StrategyResult { strategy_result, is_using_mock_data }),
    {
        self.strategy_result = Some(strategy_result);
        self.data_source_is_mock = is_using_mock_data;
        self.loading = false;
        self.warn_on_mock();
        None
    }

    fn on_price_history(&mut self, history: D::PriceHistory, is_using_mock_data: bool) -> (cmd: Option<Command>)
        ensures
            final(self)@.session == session_after(old(self)@.session, MessageView::PriceHistory { history, is_using_mock_data }),
            final(self)@.prefs == old(self)@.prefs,
            opt_command_view(cmd) == command_after(old(self)@.session, MessageView::PriceHistory { history, is_using_mock_data }),
    {
        self.price_history = Some(history);
        self.data_source_is_mock = is_using_mock_data;
        self.loading = false;
        self.warn_on_mock();
        None
    }

    fn on_backtest_result(&mut self, backtest_result: D::BacktestResult, is_using_mock_data: bool) -> (cmd: Option<Command>)
        ensures
            final(self)@.session == session_after(old(self)@.session, MessageView::BacktestResult { backtest_result, is_using_mock_data }),
            final(self)@.prefs == old(self)@.prefs,
            opt_command_view(cmd) == command_after(old(self)@.session, MessageView::BacktestResult { backtest_result, is_using_mock_data }),
    {
        self.backtest_result = Some(backtest_result);
        self.data_source_is_mock = is_using_mock_data;
        self.loading = false;
        self.warn_on_mock();
        None
    }

    fn on_data_source_updated(&mut self, is_mock: bool) -> (cmd: Option<Command>)
        ensures
            final(self)@.session == session_after(old(self)@.session, MessageView::DataSourceUpdated(is_mock)),
            final(self)@.prefs == old(self)@.prefs,
            opt_command_view(cmd) == command_after(old(self)@.session, MessageView::DataSourceUpdated(is_mock)),
    {
        self.data_source_is_mock = is_mock;
        self.show_data_source_warning = is_mock;
        None
    }

    fn on_data_source_status(&mut self, status: D::DataSourceStatus) -> (cmd: Option<Command>)
        ensures
            final(self)@.session == session_after(old(self)@.session, MessageView::DataSourceStatus(status)),
            final(self)@.prefs == old(self)@.prefs,
            opt_command_view(cmd) == command_after(old(self)@.session, MessageView::DataSourceStatus(status)),
    {
        self.data_source_status = Some(status);
        None
    }

    fn on_error(&mut self, error: String) -> (cmd: Option<Command>)
        ensures
            final(self)@.session == session_after(old(self)@.session, MessageView::Error(error@)),
            final(self)@.prefs == old(self)@.prefs,
            opt_command_view(cmd) == command_after(old(self)@.session, MessageView::Error(error@)),
    {
        self.error_msg = Some(error);
        self.loading = false;
        None
    }

    fn on_loading_complete(&mut self) -> (cmd: Option<Command>)
        ensures
            final(self)@.session == session_after(old(self)@.session, MessageView::LoadingComplete),
            final(self)@.prefs == old(self)@.prefs,
            opt_command_view(cmd) == command_after(old(self)@.session, MessageView::LoadingComplete),
    {
        self.loading = false;
        None
    }

    fn on_refresh_data(&mut self) -> (cmd: Option<Command>)
        ensures
            final(self)@.session == session_after(old(self)@.session, MessageView::RefreshData),
            final(self)@.prefs == old(self)@.prefs,
            opt_command_view(cmd) == command_after(old(self)@.session, MessageView::RefreshData),
    {
        let name = match &self.current_portfolio {
            Some(portfolio) => Some(portfolio.name.clone()),
            None => None,
        };
        match name {
            Some(name) => Some(self.load_portfolio(name.as_str())),
            None => None,
        }
    }

    /// Applies one message to the state.
    pub fn process_message(&mut self, message: AppMessage<D>) -> (cmd: Option<Command>)
        ensures
            final(self)@.session == session_after(old(self)@.session, message@),
            final(self)@.prefs == old(self)@.prefs,
            opt_command_view(cmd) == command_after(old(self)@.session, message@),
    {
        match message {
            AppMessage::Connected => self.on_connected(),
            AppMessage::ConnectionFailed(error) => self.on_connection_failed(error),
            AppMessage::PortfoliosList(portfolios) => self.on_portfolios_list(portfolios),
            AppMessage::PortfolioLoaded(p) => self.on_portfolio_loaded(p),
            AppMessage::PortfolioCreated(p) => self.on_portfolio_created(p),
            AppMessage::StrategyResult { strategy_result, is_using_mock_data } => self.on_strategy_result(strategy_result, is_using_mock_data),
            AppMessage::PriceHistory { history, is_using_mock_data } => self.on_price_history(history, is_using_mock_data),
            AppMessage::BacktestResult { backtest_result, is_using_mock_data } => self.on_backtest_result(backtest_result, is_using_mock_data),
            AppMessage::DataSourceUpdated(is_mock) => self.on_data_source_updated(is_mock),
            AppMessage::DataSourceStatus(status) => self.on_data_source_status(status),
            AppMessage::Error(error) => self.on_error(error),
            AppMessage::LoadingComplete => self.on_loading_complete(),
            AppMessage::RefreshData => self.on_refresh_data(),
        }
    }

    /// Whether the periodic refresh is due after `elapsed_secs` seconds
    /// since the last one.
    pub fn refresh_due(&self, elapsed_secs: u64) -> (due: bool)
        ensures
            due == (self.auto_refresh_enabled && elapsed_secs >= self.refresh_interval_seconds),
    {
        self.auto_refresh_enabled && elapsed_secs >= self.refresh_interval_seconds
    }
}

/// Messages that end an outstanding request.
pub open spec fn ends_request<D: DataModel>(m: MessageView<D>) -> bool {
    ||| m is PortfolioLoaded
    ||| m is PortfolioCreated
    ||| m is StrategyResult
    ||| m is PriceHistory
    ||| m is BacktestResult
    ||| m is Error
    ||| m is LoadingComplete
}

/// No message changes the user's settings, view selections or which
/// windows are open.
pub proof fn law_messages_keep_preferences<D: DataModel>(s: AppStateView<D>, m: MessageView<D>)
    ensures
        after_message(s, m).0.prefs == s.prefs,
{
}

/// Every reply to a request, successful or not, ends the loading indicator.
pub proof fn law_replies_end_loading<D: DataModel>(s: AppStateView<D>, m: MessageView<D>)
    requires
        ends_request(m),
    ensures
        !after_message(s, m).0.session.loading,
{
}

/// A failure is shown to the user with the text it came with.
pub proof fn law_failures_are_reported<D: DataModel>(s: AppStateView<D>, e: Seq<char>)
    ensures
        after_message(s, MessageView::Error(e)).0.session.error_msg == Some(e),
        after_message(s, MessageView::ConnectionFailed(e)).0.session.error_msg == Some(e),
        after_message(s, MessageView::ConnectionFailed(e)).0.session.connection_status == "Disconnected"@,
{
}

/// Data that comes from a mock source always raises the data-source warning.
pub proof fn law_mock_data_raises_warning<D: DataModel>(s: AppStateView<D>, m: MessageView<D>)
    requires
        match m {
            MessageView::PortfolioLoaded(p) => p.is_using_mock_data,
            MessageView::StrategyResult { is_using_mock_data, .. } => is_using_mock_data,
            MessageView::PriceHistory { is_using_mock_data, .. } => is_using_mock_data,
            MessageView::BacktestResult { is_using_mock_data, .. } => is_using_mock_data,
            MessageView::DataSourceUpdated(b) => b,
            _ => false,
        },
    ensures
        after_message(s, m).0.session.data_source_is_mock,
        after_message(s, m).0.session.show_data_source_warning,
{
}

/// A refresh reloads exactly the portfolio on screen, and nothing when none is.
pub proof fn law_refresh_reloads_current<D: DataModel>(s: AppStateView<D>)
    ensures
        match s.session.current_portfolio {
            Some((name, _)) => {
                &&& after_message(s, MessageView::RefreshData).1 == Some(CommandView::LoadPortfolio(name))
                &&& after_message(s, MessageView::RefreshData).0.session.loading
                &&& after_message(s, MessageView::RefreshData).0.session.error_msg is None
            },
            None => after_message(s, MessageView::RefreshData) == (s, None::<CommandView>),
        },
{
}

/// Only a newly created portfolio makes the list of portfolios be fetched
/// again, and only a refresh loads a portfolio.
pub proof fn law_commands_come_from<D: DataModel>(s: AppStateView<D>, m: MessageView<D>)
    ensures
        after_message(s, m).1 == Some(CommandView::ListPortfolios) <==> m is PortfolioCreated,
        after_message(s, m).1 matches Some(CommandView::LoadPortfolio(_)) ==> m is RefreshData,
{
}

/// A loaded or created portfolio becomes the one on screen, with its name
/// and holdings.
pub proof fn law_portfolio_becomes_current<D: DataModel>(s: AppStateView<D>, p: PortfolioPayloadView<D>)
    ensures
        after_message(s, MessageView::PortfolioLoaded(p)).0.session.current_portfolio == Some((p.name, p.portfolio)),
        after_message(s, MessageView::PortfolioLoaded(p)).0.session.portfolio_name == p.name,
        after_message(s, MessageView::PortfolioLoaded(p)).0.session.holdings == p.holdings,
        after_message(s, MessageView::PortfolioCreated(p)).0.session.current_portfolio == Some((p.name, p.portfolio)),
        after_message(s, MessageView::PortfolioCreated(p)).0.session.portfolio_name == p.name,
        after_message(s, MessageView::PortfolioCreated(p)).0.session.holdings == p.holdings,
{
}

/// A delivered result is kept as the one on screen, whether it came from
/// real or from mock data.
pub proof fn law_results_are_stored<D: DataModel>(
    s: AppStateView<D>,
    r: D::StrategyResult,
    h: D::PriceHistory,
    b: D::BacktestResult,
    mock: bool,
)
    ensures
        after_message(s, MessageView::StrategyResult { strategy_result: r, is_using_mock_data: mock }).0.session.strategy_result
            == Some(r),
        after_message(s, MessageView::PriceHistory { history: h, is_using_mock_data: mock }).0.session.price_history
            == Some(h),
        after_message(s, MessageView::BacktestResult { backtest_result: b, is_using_mock_data: mock }).0.session.backtest_result
            == Some(b),
        after_message(s, MessageView::PriceHistory { history: h, is_using_mock_data: mock }).0.session.data_source_is_mock
            == mock,
{
}

} // verus!
