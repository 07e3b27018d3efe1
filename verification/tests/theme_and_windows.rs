use frontend_rust::theme::{ChartType, Rgb, TerminalTheme};
use frontend_rust::windows::{
    BacktestAnalyzer, ComponentManager, PortfolioComparison, Settings, ShortcutKeys, WindowedComponent,
};

fn no_keys() -> ShortcutKeys {
    ShortcutKeys { f1: false, f2: false, f3: false, f4: false, f5: false, f6: false, f12: false, escape: false }
}

#[test]
fn chart_type_labels() {
    assert_eq!(ChartType::Line.as_str(), "Line Chart");
    assert_eq!(ChartType::Bar.as_str(), "Bar Chart");
    assert_eq!(ChartType::Candlestick.as_str(), "Candlestick");
}

#[test]
fn theme_labels() {
    assert_eq!(TerminalTheme::Dark.as_str(), "Dark");
    assert_eq!(TerminalTheme::Light.as_str(), "Light");
    assert_eq!(TerminalTheme::Bloomberg.as_str(), "Bloomberg");
    assert_eq!(TerminalTheme::Professional.as_str(), "Professional");
}

#[test]
fn theme_colors() {
    let c = TerminalTheme::Bloomberg.get_colors();
    assert_eq!(c.text, Rgb { r: 255, g: 165, b: 0 });
    assert_eq!(c.accent, Rgb { r: 255, g: 165, b: 0 });
    assert_eq!(c.background, Rgb { r: 0, g: 0, b: 0 });
    let p = TerminalTheme::Professional.get_colors();
    assert_eq!(p.background, Rgb { r: 30, g: 30, b: 40 });
    assert_eq!(p.negative, Rgb { r: 255, g: 100, b: 100 });
    let l = TerminalTheme::Light.get_colors();
    assert_eq!(l.neutral, Rgb { r: 100, g: 100, b: 100 });
    let d = TerminalTheme::Dark.get_colors();
    assert_eq!(d.positive, Rgb { r: 0, g: 255, b: 0 });
}

#[test]
fn windowed_component_defaults() {
    let w = WindowedComponent::new("Chart");
    assert_eq!(w.title, "Chart");
    assert!(!w.is_open);
    assert!(w.resizable);
    let w = w.with_resizable(false);
    assert!(!w.resizable);
    assert_eq!(w.title, "Chart");
}

#[test]
fn components_start_closed_with_titles() {
    let m = ComponentManager::new();
    assert_eq!(m.backtest_analyzer.name(), "📊 Backtest Analyzer");
    assert_eq!(m.strategy_analyzer.name(), "🧠 Strategy Analyzer");
    assert_eq!(m.risk_dashboard.name(), "⚠️ Risk Dashboard");
    assert_eq!(m.portfolio_comparison.name(), "📊 Portfolio Comparison");
    assert_eq!(m.performance_dashboard.name(), "📈 Performance Dashboard");
    assert_eq!(m.technical_indicators.name(), "📊 Technical Indicators");
    assert_eq!(m.settings.name(), "⚙️ Settings");
    assert!(!m.settings.is_open());
    assert!(!m.settings.dark_mode());
    assert!(m.settings.auto_refresh());
    assert_eq!(m.backtest_analyzer.selected_month(), 0);
}

#[test]
fn shortcuts_toggle_their_windows() {
    let mut m = ComponentManager::new();
    let keys = ShortcutKeys { f1: true, f12: true, ..no_keys() };
    m.handle_keyboard_shortcuts(&keys);
    assert!(m.strategy_analyzer.is_open());
    assert!(m.settings.is_open());
    assert!(!m.risk_dashboard.is_open());
    assert!(!m.backtest_analyzer.is_open());
    m.handle_keyboard_shortcuts(&keys);
    assert!(!m.strategy_analyzer.is_open());
    assert!(!m.settings.is_open());
}

#[test]
fn each_function_key_has_its_window() {
    let mut m = ComponentManager::new();
    m.handle_keyboard_shortcuts(&ShortcutKeys { f2: true, ..no_keys() });
    assert!(m.risk_dashboard.is_open());
    m.handle_keyboard_shortcuts(&ShortcutKeys { f3: true, ..no_keys() });
    assert!(m.backtest_analyzer.is_open());
    m.handle_keyboard_shortcuts(&ShortcutKeys { f4: true, ..no_keys() });
    assert!(m.performance_dashboard.is_open());
    m.handle_keyboard_shortcuts(&ShortcutKeys { f5: true, ..no_keys() });
    assert!(m.technical_indicators.is_open());
    m.handle_keyboard_shortcuts(&ShortcutKeys { f6: true, ..no_keys() });
    assert!(m.portfolio_comparison.is_open());
    assert!(!m.strategy_analyzer.is_open());
    assert!(!m.settings.is_open());
}

#[test]
fn escape_closes_everything() {
    let mut m = ComponentManager::new();
    m.handle_keyboard_shortcuts(&ShortcutKeys { f1: true, f2: true, f6: true, ..no_keys() });
    assert!(m.portfolio_comparison.is_open());
    m.handle_keyboard_shortcuts(&ShortcutKeys { f3: true, escape: true, ..no_keys() });
    assert!(!m.strategy_analyzer.is_open());
    assert!(!m.risk_dashboard.is_open());
    assert!(!m.portfolio_comparison.is_open());
    assert!(!m.backtest_analyzer.is_open());
}

#[test]
fn close_all_closes_open_windows() {
    let mut m = ComponentManager::new();
    m.settings.set_open(true);
    m.performance_dashboard.set_open(true);
    m.close_all();
    assert!(!m.settings.is_open());
    assert!(!m.performance_dashboard.is_open());
    assert_eq!(m.settings.name(), "⚙️ Settings");
}

#[test]
fn month_navigation() {
    let mut b = BacktestAnalyzer::new();
    b.navigate_month(3, false, true);
    assert_eq!(b.selected_month(), 1);
    b.navigate_month(3, false, true);
    assert_eq!(b.selected_month(), 2);
    // already on the last month
    b.navigate_month(3, false, true);
    assert_eq!(b.selected_month(), 2);
    b.navigate_month(3, true, false);
    assert_eq!(b.selected_month(), 1);
    b.navigate_month(3, true, false);
    b.navigate_month(3, true, false);
    assert_eq!(b.selected_month(), 0);
    // fewer months than the selected index: back to the first
    b.navigate_month(5, false, true);
    b.navigate_month(5, false, true);
    b.navigate_month(5, false, true);
    assert_eq!(b.selected_month(), 3);
    b.navigate_month(2, false, false);
    assert_eq!(b.selected_month(), 0);
    // both buttons in one frame
    b.navigate_month(4, true, true);
    assert_eq!(b.selected_month(), 1);
}

#[test]
fn with_backtest_result_keeps_view() {
    let mut b = BacktestAnalyzer::new();
    b.navigate_month(4, false, true);
    let r = b.with_backtest_result::<u32>(None);
    assert_eq!(r.selected_month(), 1);
}

#[test]
fn settings_switches() {
    let mut s = Settings::new();
    s.set_dark_mode(true);
    s.set_auto_refresh(false);
    assert!(s.dark_mode());
    assert!(!s.auto_refresh());
    let mut c = PortfolioComparison::new();
    c.set_open(true);
    assert!(c.is_open());
    assert!(c.is_resizable());
}
