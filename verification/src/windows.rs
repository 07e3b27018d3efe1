//! Analysis windows of the terminal, their open/closed bookkeeping, month
//! navigation in the backtest view, and keyboard shortcuts.

use vstd::prelude::*;

verus! {

/// The common state of a window: its title, whether it is shown, and whether
/// the user may resize it.
pub struct WindowedComponent {
    pub title: String,
    pub is_open: bool,
    pub resizable: bool,
}

impl WindowedComponent {
    /// A closed, resizable window with the given title.
    pub fn new(title: &str) -> (w: Self)
        ensures
            w.title@ == title@,
            !w.is_open,
            w.resizable,
    {
        WindowedComponent { title: title.to_owned(), is_open: false, resizable: true }
    }

    /// The same window, resizable or not as asked.
    pub fn with_resizable(self, resizable: bool) -> (w: Self)
        ensures
            w.title == self.title,
            w.is_open == self.is_open,
            w.resizable == resizable,
    {
        WindowedComponent { resizable, ..self }
    }
}

/// Which month a backtest view shows after a frame: an index past the end
/// falls back to the first month, then "previous" and "next" move one
/// month each, never past either end.
pub open spec fn month_after(selected: int, num_months: int, previous: bool, next: bool) -> int {
    let m0 = if selected >= num_months { 0 } else { selected };
    let m1 = if previous && m0 > 0 { m0 - 1 } else { m0 };
    if next && m1 < num_months - 1 { m1 + 1 } else { m1 }
}

/// The backtest analysis window; it remembers which month of allocations is shown.
pub struct BacktestAnalyzer {
    window: WindowedComponent,
    selected_month: usize,
}

impl BacktestAnalyzer {
    /// The window's title.
    pub closed spec fn title(&self) -> Seq<char> {
        self.window.title@
    }

    /// Whether the window is shown.
    pub closed spec fn shown(&self) -> bool {
        self.window.is_open
    }

    /// Whether the user may resize the window.
    pub closed spec fn sizable(&self) -> bool {
        self.window.resizable
    }

    pub fn new() -> (c: Self)
        ensures
            c.title() == "📊 Backtest Analyzer"@,
            !c.shown(),
            c.sizable(),
            c.month() == 0,
    {
        BacktestAnalyzer { window: WindowedComponent::new("📊 Backtest Analyzer"), selected_month: 0 }
    }

    pub fn name(&self) -> (n: &str)
        ensures
            n@ == self.title(),
    {
        self.window.title.as_str()
    }

    pub fn is_open(&self) -> (b: bool)
        ensures
            b == self.shown(),
    {
        self.window.is_open
    }

    pub fn is_resizable(&self) -> (b: bool)
        ensures
            b == self.sizable(),
    {
        self.window.resizable
    }

    pub fn set_open(&mut self, open: bool)
        ensures
            final(self).shown() == open,
            final(self).title() == old(self).title(),
            final(self).sizable() == old(self).sizable(),
            final(self).month() == old(self).month(),
    {
        self.window.is_open = open;
    }

    /// The index of the month whose allocation is shown.
    pub closed spec fn month(&self) -> int {
        self.selected_month as int
    }

    pub fn selected_month(&self) -> (m: usize)
        ensures
            m == self.month(),
    {
        self.selected_month
    }

    /// Attaches a backtest result to the view; the view keeps no copy of it.
    pub fn with_backtest_result<T>(&mut self, result: Option<&T>) -> (r: &mut Self)
        ensures
            *r == *old(self),
            *final(self) == *final(r),
    {
        self
    }

    /// Applies one frame of month navigation over `num_months` months:
    /// an index past the end falls back to the first month, then the
    /// "previous" and "next" buttons move one month each, never past either end.
    pub fn navigate_month(&mut self, num_months: usize, previous: bool, next: bool)
        requires
            num_months > 0,
        ensures
            final(self).month() == month_after(old(self).month(), num_months as int, previous, next),
            final(self).title() == old(self).title(),
            final(self).shown() == old(self).shown(),
            final(self).sizable() == old(self).sizable(),
    {
        if self.selected_month >= num_months {
            self.selected_month = 0;
        }
        if previous && self.selected_month > 0 {
            self.selected_month = self.selected_month - 1;
        }
        if next && self.selected_month < num_months - 1 {
            self.selected_month = self.selected_month + 1;
        }
    }
}

/// The strategy analysis window.
pub struct StrategyAnalyzer {
    window: WindowedComponent,
}

impl StrategyAnalyzer {
    /// The window's title.
    pub closed spec fn title(&self) -> Seq<char> {
        self.window.title@
    }

    /// Whether the window is shown.
    pub closed spec fn shown(&self) -> bool {
        self.window.is_open
    }

    /// Whether the user may resize the window.
    pub closed spec fn sizable(&self) -> bool {
        self.window.resizable
    }

    pub fn new() -> (c: Self)
        ensures
            c.title() == "🧠 Strategy Analyzer"@,
            !c.shown(),
            c.sizable(),
    {
        StrategyAnalyzer { window: WindowedComponent::new("🧠 Strategy Analyzer") }
    }

    pub fn name(&self) -> (n: &str)
        ensures
            n@ == self.title(),
    {
        self.window.title.as_str()
    }

    pub fn is_open(&self) -> (b: bool)
        ensures
            b == self.shown(),
    {
        self.window.is_open
    }

    pub fn is_resizable(&self) -> (b: bool)
        ensures
            b == self.sizable(),
    {
        self.window.resizable
    }

    pub fn set_open(&mut self, open: bool)
        ensures
            final(self).shown() == open,
            final(self).title() == old(self).title(),
            final(self).sizable() == old(self).sizable(),
    {
        self.window.is_open = open;
    }
}

/// The risk metrics window.
pub struct RiskDashboard {
    window: WindowedComponent,
}

impl RiskDashboard {
    /// The window's title.
    pub closed spec fn title(&self) -> Seq<char> {
        self.window.title@
    }

    /// Whether the window is shown.
    pub closed spec fn shown(&self) -> bool {
        self.window.is_open
    }

    /// Whether the user may resize the window.
    pub closed spec fn sizable(&self) -> bool {
        self.window.resizable
    }

    pub fn new() -> (c: Self)
        ensures
            c.title() == "⚠️ Risk Dashboard"@,
            !c.shown(),
            c.sizable(),
    {
        RiskDashboard { window: WindowedComponent::new("⚠️ Risk Dashboard") }
    }

    pub fn name(&self) -> (n: &str)
        ensures
            n@ == self.title(),
    {
        self.window.title.as_str()
    }

    pub fn is_open(&self) -> (b: bool)
        ensures
            b == self.shown(),
    {
        self.window.is_open
    }

    pub fn is_resizable(&self) -> (b: bool)
        ensures
            b == self.sizable(),
    {
        self.window.resizable
    }

    pub fn set_open(&mut self, open: bool)
        ensures
            final(self).shown() == open,
            final(self).title() == old(self).title(),
            final(self).sizable() == old(self).sizable(),
    {
        self.window.is_open = open;
    }
}

/// The portfolio comparison window.
pub struct PortfolioComparison {
    window: WindowedComponent,
}

impl PortfolioComparison {
    /// The window's title.
    pub closed spec fn title(&self) -> Seq<char> {
        self.window.title@
    }

    /// Whether the window is shown.
    pub closed spec fn shown(&self) -> bool {
        self.window.is_open
    }

    /// Whether the user may resize the window.
    pub closed spec fn sizable(&self) -> bool {
        self.window.resizable
    }

    pub fn new() -> (c: Self)
        ensures
            c.title() == "📊 Portfolio Comparison"@,
            !c.shown(),
            c.sizable(),
    {
        PortfolioComparison { window: WindowedComponent::new("📊 Portfolio Comparison") }
    }

    pub fn name(&self) -> (n: &str)
        ensures
            n@ == self.title(),
    {
        self.window.title.as_str()
    }

    pub fn is_open(&self) -> (b: bool)
        ensures
            b == self.shown(),
    {
        self.window.is_open
    }

    pub fn is_resizable(&self) -> (b: bool)
        ensures
            b == self.sizable(),
    {
        self.window.resizable
    }

    pub fn set_open(&mut self, open: bool)
        ensures
            final(self).shown() == open,
            final(self).title() == old(self).title(),
            final(self).sizable() == old(self).sizable(),
    {
        self.window.is_open = open;
    }
}

/// The performance overview window.
pub struct PerformanceDashboard {
    window: WindowedComponent,
}

impl PerformanceDashboard {
    /// The window's title.
    pub closed spec fn title(&self) -> Seq<char> {
        self.window.title@
    }

    /// Whether the window is shown.
    pub closed spec fn shown(&self) -> bool {
        self.window.is_open
    }

    /// Whether the user may resize the window.
    pub closed spec fn sizable(&self) -> bool {
        self.window.resizable
    }

    pub fn new() -> (c: Self)
        ensures
            c.title() == "📈 Performance Dashboard"@,
            !c.shown(),
            c.sizable(),
    {
        PerformanceDashboard { window: WindowedComponent::new("📈 Performance Dashboard") }
    }

    pub fn name(&self) -> (n: &str)
        ensures
            n@ == self.title(),
    {
        self.window.title.as_str()
    }

    pub fn is_open(&self) -> (b: bool)
        ensures
            b == self.shown(),
    {
        self.window.is_open
    }

    pub fn is_resizable(&self) -> (b: bool)
        ensures
            b == self.sizable(),
    {
        self.window.resizable
    }

    pub fn set_open(&mut self, open: bool)
        ensures
            final(self).shown() == open,
            final(self).title() == old(self).title(),
            final(self).sizable() == old(self).sizable(),
    {
        self.window.is_open = open;
    }
}

/// The technical indicators window.
pub struct TechnicalIndicators {
    window: WindowedComponent,
}

impl TechnicalIndicators {
    /// The window's title.
    pub closed spec fn title(&self) -> Seq<char> {
        self.window.title@
    }

    /// Whether the window is shown.
    pub closed spec fn shown(&self) -> bool {
        self.window.is_open
    }

    /// Whether the user may resize the window.
    pub closed spec fn sizable(&self) -> bool {
        self.window.resizable
    }

    pub fn new() -> (c: Self)
        ensures
            c.title() == "📊 Technical Indicators"@,
            !c.shown(),
            c.sizable(),
    {
        TechnicalIndicators { window: WindowedComponent::new("📊 Technical Indicators") }
    }

    pub fn name(&self) -> (n: &str)
        ensures
            n@ == self.title(),
    {
        self.window.title.as_str()
    }

    pub fn is_open(&self) -> (b: bool)
        ensures
            b == self.shown(),
    {
        self.window.is_open
    }

    pub fn is_resizable(&self) -> (b: bool)
        ensures
            b == self.sizable(),
    {
        self.window.resizable
    }

    pub fn set_open(&mut self, open: bool)
        ensures
            final(self).shown() == open,
            final(self).title() == old(self).title(),
            final(self).sizable() == old(self).sizable(),
    {
        self.window.is_open = open;
    }
}

/// The settings window, with the switches it edits.
pub struct Settings {
    window: WindowedComponent,
    dark_mode: bool,
    auto_refresh: bool,
}

impl Settings {
    /// The window's title.
    pub closed spec fn title(&self) -> Seq<char> {
        self.window.title@
    }

    /// Whether the window is shown.
    pub closed spec fn shown(&self) -> bool {
        self.window.is_open
    }

    /// Whether the user may resize the window.
    pub closed spec fn sizable(&self) -> bool {
        self.window.resizable
    }

    pub fn new() -> (c: Self)
        ensures
            c.title() == "⚙️ Settings"@,
            !c.shown(),
            c.sizable(),
            !c.dark_mode_on(),
            c.auto_refresh_on(),
    {
        Settings { window: WindowedComponent::new("⚙️ Settings"), dark_mode: false, auto_refresh: true }
    }

    pub fn name(&self) -> (n: &str)
        ensures
            n@ == self.title(),
    {
        self.window.title.as_str()
    }

    pub fn is_open(&self) -> (b: bool)
        ensures
            b == self.shown(),
    {
        self.window.is_open
    }

    pub fn is_resizable(&self) -> (b: bool)
        ensures
            b == self.sizable(),
    {
        self.window.resizable
    }

    pub fn set_open(&mut self, open: bool)
        ensures
            final(self).shown() == open,
            final(self).title() == old(self).title(),
            final(self).sizable() == old(self).sizable(),
            final(self).dark_mode_on() == old(self).dark_mode_on(),
            final(self).auto_refresh_on() == old(self).auto_refresh_on(),
    {
        self.window.is_open = open;
    }

    /// Whether dark mode is switched on.
    pub closed spec fn dark_mode_on(&self) -> bool {
        self.dark_mode
    }

    /// Whether market data refreshes automatically.
    pub closed spec fn auto_refresh_on(&self) -> bool {
        self.auto_refresh
    }

    pub fn dark_mode(&self) -> (b: bool)
        ensures
            b == self.dark_mode_on(),
    {
        self.dark_mode
    }

    pub fn auto_refresh(&self) -> (b: bool)
        ensures
            b == self.auto_refresh_on(),
    {
        self.auto_refresh
    }

    pub fn set_dark_mode(&mut self, on: bool)
        ensures
            final(self).dark_mode_on() == on,
            final(self).auto_refresh_on() == old(self).auto_refresh_on(),
            final(self).title() == old(self).title(),
            final(self).shown() == old(self).shown(),
            final(self).sizable() == old(self).sizable(),
    {
        self.dark_mode = on;
    }

    pub fn set_auto_refresh(&mut self, on: bool)
        ensures
            final(self).auto_refresh_on() == on,
            final(self).dark_mode_on() == old(self).dark_mode_on(),
            final(self).title() == old(self).title(),
            final(self).shown() == old(self).shown(),
            final(self).sizable() == old(self).sizable(),
    {
        self.auto_refresh = on;
    }
}

/// Which windows are shown.
pub struct WindowFlags {
    pub backtest_analyzer: bool,
    pub strategy_analyzer: bool,
    pub risk_dashboard: bool,
    pub portfolio_comparison: bool,
    pub performance_dashboard: bool,
    pub technical_indicators: bool,
    pub settings: bool,
}

/// The shortcut keys pressed during one frame.
#[derive(Debug, Clone, Copy, PartialEq, Eq, Structural)]
pub struct ShortcutKeys {
    pub f1: bool,
    pub f2: bool,
    pub f3: bool,
    pub f4: bool,
    pub f5: bool,
    pub f6: bool,
    pub f12: bool,
    pub escape: bool,
}

/// Every window closed.
pub open spec fn all_closed() -> WindowFlags {
    WindowFlags {
        backtest_analyzer: false,
        strategy_analyzer: false,
        risk_dashboard: false,
        portfolio_comparison: false,
        performance_dashboard: false,
        technical_indicators: false,
        settings: false,
    }
}

/// The windows shown after one frame of shortcuts: F1 toggles the strategy
/// analyzer, F2 the risk dashboard, F3 the backtest analyzer, F4 the
/// performance dashboard, F5 the technical indicators, F6 the portfolio
/// comparison and F12 the settings; Escape then closes every window.
pub open spec fn flags_after_keys(f: WindowFlags, k: ShortcutKeys) -> WindowFlags {
    if k.escape {
        all_closed()
    } else {
        WindowFlags {
            strategy_analyzer: f.strategy_analyzer != k.f1,
            risk_dashboard: f.risk_dashboard != k.f2,
            backtest_analyzer: f.backtest_analyzer != k.f3,
            performance_dashboard: f.performance_dashboard != k.f4,
            technical_indicators: f.technical_indicators != k.f5,
            portfolio_comparison: f.portfolio_comparison != k.f6,
            settings: f.settings != k.f12,
        }
    }
}

/// Component manager that holds every analysis window.
pub struct ComponentManager {
    pub backtest_analyzer: BacktestAnalyzer,
    pub strategy_analyzer: StrategyAnalyzer,
    pub risk_dashboard: RiskDashboard,
    pub portfolio_comparison: PortfolioComparison,
    pub performance_dashboard: PerformanceDashboard,
    pub technical_indicators: TechnicalIndicators,
    pub settings: Settings,
}

impl ComponentManager {
    /// Which windows are shown.
    pub open spec fn flags(&self) -> WindowFlags {
        WindowFlags {
            backtest_analyzer: self.backtest_analyzer.shown(),
            strategy_analyzer: self.strategy_analyzer.shown(),
            risk_dashboard: self.risk_dashboard.shown(),
            portfolio_comparison: self.portfolio_comparison.shown(),
            performance_dashboard: self.performance_dashboard.shown(),
            technical_indicators: self.technical_indicators.shown(),
            settings: self.settings.shown(),
        }
    }

    /// Everything but which windows are shown is the same in both managers.
    pub open spec fn same_contents(&self, other: &ComponentManager) -> bool {
        &&& self.backtest_analyzer.title() == other.backtest_analyzer.title()
        &&& self.backtest_analyzer.sizable() == other.backtest_analyzer.sizable()
        &&& self.strategy_analyzer.title() == other.strategy_analyzer.title()
        &&& self.strategy_analyzer.sizable() == other.strategy_analyzer.sizable()
        &&& self.risk_dashboard.title() == other.risk_dashboard.title()
        &&& self.risk_dashboard.sizable() == other.risk_dashboard.sizable()
        &&& self.portfolio_comparison.title() == other.portfolio_comparison.title()
        &&& self.portfolio_comparison.sizable() == other.portfolio_comparison.sizable()
        &&& self.performance_dashboard.title() == other.performance_dashboard.title()
        &&& self.performance_dashboard.sizable() == other.performance_dashboard.sizable()
        &&& self.technical_indicators.title() == other.technical_indicators.title()
        &&& self.technical_indicators.sizable() == other.technical_indicators.sizable()
        &&& self.settings.title() == other.settings.title()
        &&& self.settings.sizable() == other.settings.sizable()
        &&& self.backtest_analyzer.month() == other.backtest_analyzer.month()
        &&& self.settings.dark_mode_on() == other.settings.dark_mode_on()
        &&& self.settings.auto_refresh_on() == other.settings.auto_refresh_on()
    }

    /// A manager with every window in its initial state.
    pub fn new() -> (m: Self)
        ensures
            m.flags() == all_closed(),
            m.backtest_analyzer.title() == "📊 Backtest Analyzer"@,
            m.backtest_analyzer.sizable(),
            m.strategy_analyzer.title() == "🧠 Strategy Analyzer"@,
            m.strategy_analyzer.sizable(),
            m.risk_dashboard.title() == "⚠️ Risk Dashboard"@,
            m.risk_dashboard.sizable(),
            m.portfolio_comparison.title() == "📊 Portfolio Comparison"@,
            m.portfolio_comparison.sizable(),
            m.performance_dashboard.title() == "📈 Performance Dashboard"@,
            m.performance_dashboard.sizable(),
            m.technical_indicators.title() == "📊 Technical Indicators"@,
            m.technical_indicators.sizable(),
            m.settings.title() == "⚙️ Settings"@,
            m.settings.sizable(),
            m.backtest_analyzer.month() == 0,
            !m.settings.dark_mode_on(),
            m.settings.auto_refresh_on(),
    {
        ComponentManager {
            backtest_analyzer: BacktestAnalyzer::new(),
            strategy_analyzer: StrategyAnalyzer::new(),
            risk_dashboard: RiskDashboard::new(),
            portfolio_comparison: PortfolioComparison::new(),
            performance_dashboard: PerformanceDashboard::new(),
            technical_indicators: TechnicalIndicators::new(),
            settings: Settings::new(),
        }
    }

    /// Closes every window.
    pub fn close_all(&mut self)
        ensures
            final(self).flags() == all_closed(),
            final(self).same_contents(old(self)),
    {
        self.backtest_analyzer.set_open(false);
        self.strategy_analyzer.set_open(false);
        self.risk_dashboard.set_open(false);
        self.portfolio_comparison.set_open(false);
        self.performance_dashboard.set_open(false);
        self.technical_indicators.set_open(false);
        self.settings.set_open(false);
    }

    /// Applies one frame of keyboard shortcuts.
    pub fn handle_keyboard_shortcuts(&mut self, keys: &ShortcutKeys)
        ensures
            final(self).flags() == flags_after_keys(old(self).flags(), *keys),
            final(self).same_contents(old(self)),
    {
        if keys.f1 {
            let open = self.strategy_analyzer.is_open();
            self.strategy_analyzer.set_open(!open);
        }
        if keys.f2 {
            let open = self.risk_dashboard.is_open();
            self.risk_dashboard.set_open(!open);
        }
        if keys.f3 {
            let open = self.backtest_analyzer.is_open();
            self.backtest_analyzer.set_open(!open);
        }
        if keys.f4 {
            let open = self.performance_dashboard.is_open();
            self.performance_dashboard.set_open(!open);
        }
        if keys.f5 {
            let open = self.technical_indicators.is_open();
            self.technical_indicators.set_open(!open);
        }
        if keys.f6 {
            let open = self.portfolio_comparison.is_open();
            self.portfolio_comparison.set_open(!open);
        }
        if keys.f12 {
            let open = self.settings.is_open();
            self.settings.set_open(!open);
        }
        if keys.escape {
            self.close_all();
        }
    }
}

/// Pressing the same shortcuts twice (without Escape) restores which
/// windows are shown.
pub proof fn law_shortcuts_toggle_back(f: WindowFlags, k: ShortcutKeys)
    requires
        !k.escape,
    ensures
        flags_after_keys(flags_after_keys(f, k), k) == f,
{
}

/// Escape closes every window, whatever else is pressed and whatever was
/// shown before.
pub proof fn law_escape_closes_all(f: WindowFlags, k: ShortcutKeys)
    requires
        k.escape,
    ensures
        flags_after_keys(f, k) == all_closed(),
{
}

/// A shortcut touches only its own window.
pub proof fn law_shortcut_touches_only_its_window(f: WindowFlags, k: ShortcutKeys)
    requires
        !k.escape,
    ensures
        !k.f1 ==> flags_after_keys(f, k).strategy_analyzer == f.strategy_analyzer,
        !k.f2 ==> flags_after_keys(f, k).risk_dashboard == f.risk_dashboard,
        !k.f3 ==> flags_after_keys(f, k).backtest_analyzer == f.backtest_analyzer,
        !k.f4 ==> flags_after_keys(f, k).performance_dashboard == f.performance_dashboard,
        !k.f5 ==> flags_after_keys(f, k).technical_indicators == f.technical_indicators,
        !k.f6 ==> flags_after_keys(f, k).portfolio_comparison == f.portfolio_comparison,
        !k.f12 ==> flags_after_keys(f, k).settings == f.settings,
{
}

/// Month navigation always lands on an existing month.
pub proof fn law_month_in_range(selected: int, num_months: int, previous: bool, next: bool)
    requires
        num_months > 0,
        selected >= 0,
    ensures
        0 <= month_after(selected, num_months, previous, next) < num_months,
{
}

} // verus!
