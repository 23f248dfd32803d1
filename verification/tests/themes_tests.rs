use ccometixline::config::{AnsiColor, ColorObject, OptionValue, SegmentConfig, SegmentId};
use ccometixline::engine::segments::threshold_utils::{
    bold_for_utilization, color_for_utilization, thresholds_from_options,
};
use ccometixline::ui::themes::{theme_default, theme_gruvbox, theme_powerline_dark};

fn c16(n: u8) -> Option<AnsiColor> {
    Some(AnsiColor::Color16 { c16: n })
}

fn c256(n: u8) -> Option<AnsiColor> {
    Some(AnsiColor::Color256 { c256: n })
}

fn rgb(r: u8, g: u8, b: u8) -> Option<AnsiColor> {
    Some(AnsiColor::Rgb { r, g, b })
}

fn check(
    s: &SegmentConfig,
    id: SegmentId,
    enabled: bool,
    plain: &str,
    nerd: &str,
    icon: Option<AnsiColor>,
    text: Option<AnsiColor>,
    background: Option<AnsiColor>,
    bold: bool,
    options: usize,
) {
    assert_eq!(s.id, id);
    assert_eq!(s.enabled, enabled);
    assert_eq!(s.icon.plain, plain);
    assert_eq!(s.icon.nerd_font, nerd);
    assert_eq!(s.colors.icon, icon);
    assert_eq!(s.colors.text, text);
    assert_eq!(s.colors.background, background);
    assert_eq!(s.styles.text_bold, bold);
    assert_eq!(s.options.len(), options);
}

fn check_thresholds(s: &SegmentConfig) {
    assert_eq!(thresholds_from_options(&s.options), (60, 80));
    assert_eq!(color_for_utilization(&s.options, 59), None);
    assert_eq!(color_for_utilization(&s.options, 60), c16(11));
    assert_eq!(color_for_utilization(&s.options, 80), c16(9));
    assert_eq!(bold_for_utilization(&s.options, 60), Some(false));
    assert_eq!(bold_for_utilization(&s.options, 80), Some(true));
    match s.options.get("warning_color") {
        Some(OptionValue::Object(o)) => assert_eq!(
            *o,
            ColorObject { c16: Some(11), c256: None, r: None, g: None, b: None }
        ),
        _ => panic!("warning colour"),
    }
}

fn check_git_options(s: &SegmentConfig) {
    assert!(matches!(s.options.get("show_sha"), Some(OptionValue::Flag(false))));
    assert!(matches!(s.options.get("show_dirty_count"), Some(OptionValue::Flag(true))));
}

fn check_usage_options(s: &SegmentConfig) {
    match s.options.get("api_base_url") {
        Some(OptionValue::Text(t)) => assert_eq!(t, "https://api.anthropic.com"),
        _ => panic!("api_base_url"),
    }
    assert!(matches!(s.options.get("cache_duration"), Some(OptionValue::Number(180))));
    assert!(matches!(s.options.get("timeout"), Some(OptionValue::Number(2))));
}

#[test]
fn default_theme_segments() {
    check(&theme_default::model_segment(), SegmentId::Model, true, "🤖", "\u{e26d}", c16(14), c16(14), None, false, 0);
    check(&theme_default::directory_segment(), SegmentId::Directory, true, "📁", "\u{f024b}", c16(11), c16(10), None, false, 0);
    check(&theme_default::git_segment(), SegmentId::Git, true, "🌿", "\u{f02a2}", c16(12), c16(12), None, false, 2);
    check(&theme_default::context_window_segment(), SegmentId::ContextWindow, true, "⚡️", "\u{f49b}", c16(13), c16(13), None, false, 6);
    check(&theme_default::usage_segment(), SegmentId::Usage, false, "📊", "\u{f0a9e}", c16(14), c16(14), None, false, 3);
    check(&theme_default::usage_5hour_segment(), SegmentId::Usage5Hour, false, "📊", "\u{f0a9e}", c16(14), c16(14), None, false, 6);
    check(&theme_default::usage_7day_segment(), SegmentId::Usage7Day, false, "📊", "\u{f0a9e}", c16(12), c16(12), None, false, 6);
    check(&theme_default::cost_segment(), SegmentId::Cost, false, "💰", "\u{eec1}", c16(3), c16(3), None, false, 0);
    check(&theme_default::session_segment(), SegmentId::Session, false, "⏱️", "\u{f19bb}", c16(2), c16(2), None, false, 0);
    check(&theme_default::output_style_segment(), SegmentId::OutputStyle, false, "🎯", "\u{f12f5}", c16(6), c16(6), None, false, 0);
}

#[test]
fn default_theme_options() {
    check_git_options(&theme_default::git_segment());
    check_thresholds(&theme_default::context_window_segment());
    check_thresholds(&theme_default::usage_5hour_segment());
    check_thresholds(&theme_default::usage_7day_segment());
    check_usage_options(&theme_default::usage_segment());
}

#[test]
fn gruvbox_theme_segments() {
    check(&theme_gruvbox::model_segment(), SegmentId::Model, true, "🤖", "\u{e26d}", c256(208), c256(208), None, true, 0);
    check(&theme_gruvbox::directory_segment(), SegmentId::Directory, true, "📁", "\u{f024b}", c256(142), c256(142), None, true, 0);
    check(&theme_gruvbox::git_segment(), SegmentId::Git, true, "🌿", "\u{f02a2}", c256(109), c256(109), None, true, 2);
    check(&theme_gruvbox::context_window_segment(), SegmentId::ContextWindow, true, "⚡️", "\u{f49b}", c16(5), c16(5), None, true, 6);
    check(&theme_gruvbox::cost_segment(), SegmentId::Cost, false, "💰", "\u{eec1}", c256(214), c256(214), None, true, 0);
    check(&theme_gruvbox::session_segment(), SegmentId::Session, false, "⏱️", "\u{f19bb}", c256(142), c256(142), None, true, 0);
    check(&theme_gruvbox::output_style_segment(), SegmentId::OutputStyle, false, "🎯", "\u{f12f5}", c256(109), c256(109), None, true, 0);
    check(&theme_gruvbox::usage_segment(), SegmentId::Usage, false, "📊", "\u{f0a9e}", c16(14), c16(14), None, false, 3);
    check(&theme_gruvbox::usage_5hour_segment(), SegmentId::Usage5Hour, false, "📊", "\u{f0a9e}", c16(14), c16(14), None, false, 6);
    check(&theme_gruvbox::usage_7day_segment(), SegmentId::Usage7Day, false, "📊", "\u{f0a9e}", c16(12), c16(12), None, false, 6);
}

#[test]
fn gruvbox_theme_options() {
    check_git_options(&theme_gruvbox::git_segment());
    check_thresholds(&theme_gruvbox::context_window_segment());
    check_thresholds(&theme_gruvbox::usage_5hour_segment());
    check_thresholds(&theme_gruvbox::usage_7day_segment());
    check_usage_options(&theme_gruvbox::usage_segment());
}

#[test]
fn powerline_dark_theme_segments() {
    let white = rgb(255, 255, 255);
    check(&theme_powerline_dark::model_segment(), SegmentId::Model, true, "🤖", "\u{e26d}", white, white, rgb(45, 45, 45), false, 0);
    check(&theme_powerline_dark::directory_segment(), SegmentId::Directory, true, "📁", "\u{f024b}", white, white, rgb(139, 69, 19), false, 0);
    check(&theme_powerline_dark::git_segment(), SegmentId::Git, true, "🌿", "\u{f02a2}", white, white, rgb(64, 64, 64), false, 2);
    check(&theme_powerline_dark::context_window_segment(), SegmentId::ContextWindow, true, "⚡️", "\u{f49b}", rgb(209, 213, 219), rgb(209, 213, 219), rgb(55, 65, 81), false, 6);
    check(&theme_powerline_dark::cost_segment(), SegmentId::Cost, false, "💰", "\u{eec1}", rgb(229, 192, 123), rgb(229, 192, 123), rgb(40, 44, 52), false, 0);
    check(&theme_powerline_dark::session_segment(), SegmentId::Session, false, "⏱️", "\u{f19bb}", rgb(163, 190, 140), rgb(163, 190, 140), rgb(45, 50, 59), false, 0);
    check(&theme_powerline_dark::output_style_segment(), SegmentId::OutputStyle, false, "🎯", "\u{f12f5}", rgb(129, 161, 193), rgb(129, 161, 193), rgb(50, 56, 66), false, 0);
    check(&theme_powerline_dark::usage_segment(), SegmentId::Usage, false, "📊", "\u{f0a9e}", c16(14), c16(14), None, false, 3);
    check(&theme_powerline_dark::usage_5hour_segment(), SegmentId::Usage5Hour, false, "📊", "\u{f0a9e}", c256(16), c256(16), c256(68), true, 6);
    check(&theme_powerline_dark::usage_7day_segment(), SegmentId::Usage7Day, false, "📊", "\u{f0a9e}", c256(16), c256(16), c256(144), true, 6);
}

#[test]
fn powerline_dark_theme_options() {
    check_git_options(&theme_powerline_dark::git_segment());
    check_thresholds(&theme_powerline_dark::context_window_segment());
    check_thresholds(&theme_powerline_dark::usage_5hour_segment());
    check_thresholds(&theme_powerline_dark::usage_7day_segment());
    check_usage_options(&theme_powerline_dark::usage_segment());
}
