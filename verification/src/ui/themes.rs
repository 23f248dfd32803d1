//! The built-in themes: for each, the configuration of every kind of
//! segment.

pub mod theme_default;
pub mod theme_gruvbox;
pub mod theme_powerline_dark;

use crate::config::{
    AnsiColor, ColorConfig, ColorObject, IconConfig, IconConfigView, OptionValue,
    OptionValueView, Options, SegmentConfig, SegmentConfigView, SegmentId, TextStyleConfig,
};
use crate::engine::segments::color_utils::color_object;
use crate::engine::segments::threshold_utils::{
    critical_threshold, threshold_bold, threshold_color, warning_threshold,
};
use crate::string_map::StringMap;
use crate::text::owned;
use vstd::prelude::*;

verus! {

/// A segment as a theme presets it.
pub open spec fn preset(
    id: SegmentId,
    enabled: bool,
    plain: Seq<char>,
    nerd_font: Seq<char>,
    colors: ColorConfig,
    text_bold: bool,
    options: Map<Seq<char>, OptionValueView>,
) -> SegmentConfigView {
    SegmentConfigView {
        id,
        enabled,
        icon: IconConfigView { plain, nerd_font },
        colors,
        styles: TextStyleConfig { text_bold },
        options,
    }
}

/// The palette slot `slot` as a colour.
pub open spec fn c16(slot: u8) -> Option<AnsiColor> {
    Some(AnsiColor::Color16 { c16: slot })
}

/// The indexed colour `index` as a colour.
pub open spec fn c256(index: u8) -> Option<AnsiColor> {
    Some(AnsiColor::Color256 { c256: index })
}

/// The colour with the given components.
pub open spec fn rgb(r: u8, g: u8, b: u8) -> Option<AnsiColor> {
    Some(AnsiColor::Rgb { r, g, b })
}

/// The options with which the git segment starts: the dirty count shown,
/// the commit hash not.
pub open spec fn git_options() -> Map<Seq<char>, OptionValueView> {
    Map::empty().insert("show_sha"@, OptionValueView::Flag(false)).insert(
        "show_dirty_count"@,
        OptionValueView::Flag(true),
    )
}

/// The options with which a segment with thresholds starts: warning from
/// 60 in light yellow, critical from 80 in light red and bold.
pub open spec fn threshold_options() -> Map<Seq<char>, OptionValueView> {
    Map::empty().insert("warning_threshold"@, OptionValueView::Number(60)).insert(
        "critical_threshold"@,
        OptionValueView::Number(80),
    ).insert(
        "warning_color"@,
        OptionValueView::Object(color_object(AnsiColor::Color16 { c16: 11 })),
    ).insert(
        "critical_color"@,
        OptionValueView::Object(color_object(AnsiColor::Color16 { c16: 9 })),
    ).insert("warning_bold"@, OptionValueView::Flag(false)).insert(
        "critical_bold"@,
        OptionValueView::Flag(true),
    )
}

/// A segment that starts with thresholds warns from 60 in light yellow,
/// not bold, and is critical from 80 in light red, bold.
pub proof fn preset_thresholds(utilization: u64)
    ensures
        warning_threshold(threshold_options()) == 60,
        critical_threshold(threshold_options()) == 80,
        threshold_color(threshold_options(), utilization) == if utilization >= 80 {
            c16(9)
        } else if utilization >= 60 {
            c16(11)
        } else {
            None
        },
        threshold_bold(threshold_options(), utilization) == if utilization >= 80 {
            Some(true)
        } else if utilization >= 60 {
            Some(false)
        } else {
            None
        },
{
    reveal_strlit("warning_threshold");
    reveal_strlit("critical_threshold");
    reveal_strlit("warning_color");
    reveal_strlit("critical_color");
    reveal_strlit("warning_bold");
    reveal_strlit("critical_bold");
    let wt = "warning_threshold"@;
    let ct = "critical_threshold"@;
    let wc = "warning_color"@;
    let cc = "critical_color"@;
    let wb = "warning_bold"@;
    let cb = "critical_bold"@;
    assert(wt.len() == 17 && ct.len() == 18 && wc.len() == 13 && cc.len() == 14 && wb.len() == 12
        && cb.len() == 13);
    assert(wc[0] == 'w' && cb[0] == 'c');
    assert(wc != cb);
    let m1 = Map::<Seq<char>, OptionValueView>::empty().insert(wt, OptionValueView::Number(60));
    let m2 = m1.insert(ct, OptionValueView::Number(80));
    let m3 = m2.insert(wc, OptionValueView::Object(color_object(AnsiColor::Color16 { c16: 11 })));
    let m4 = m3.insert(cc, OptionValueView::Object(color_object(AnsiColor::Color16 { c16: 9 })));
    let m5 = m4.insert(wb, OptionValueView::Flag(false));
    let m6 = m5.insert(cb, OptionValueView::Flag(true));
    assert(threshold_options() == m6);
    assert(m6[wt] == OptionValueView::Number(60));
    assert(m6[ct] == OptionValueView::Number(80));
    assert(m6[wc] == m3[wc]);
    assert(m6[cc] == m4[cc]);
    assert(m6[wb] == OptionValueView::Flag(false));
    assert(m6[cb] == OptionValueView::Flag(true));
}

/// The options with which the usage segment starts: where it asks, how
/// long an answer is kept, and how long it waits for one, in seconds.
pub open spec fn usage_options() -> Map<Seq<char>, OptionValueView> {
    Map::empty().insert(
        "api_base_url"@,
        OptionValueView::Text("https://api.anthropic.com"@),
    ).insert("cache_duration"@, OptionValueView::Number(180)).insert(
        "timeout"@,
        OptionValueView::Number(2),
    )
}

/// Builds a preset segment.
pub fn build(
    id: SegmentId,
    enabled: bool,
    plain: &str,
    nerd_font: &str,
    colors: ColorConfig,
    text_bold: bool,
    options: Options,
) -> (segment: SegmentConfig)
    ensures
        segment@ == preset(id, enabled, plain@, nerd_font@, colors, text_bold, options@),
{
    SegmentConfig {
        id,
        enabled,
        icon: IconConfig { plain: owned(plain), nerd_font: owned(nerd_font) },
        colors,
        styles: TextStyleConfig { text_bold },
        options,
    }
}

/// No options.
pub fn no_options() -> (options: Options)
    ensures
        options@ == Map::<Seq<char>, OptionValueView>::empty(),
{
    StringMap::new()
}

/// Builds the options of the git segment.
pub fn build_git_options() -> (options: Options)
    ensures
        options@ == git_options(),
{
    let mut options: Options = StringMap::new();
    options.insert(owned("show_sha"), OptionValue::Flag(false));
    options.insert(owned("show_dirty_count"), OptionValue::Flag(true));
    options
}

fn palette_object(slot: u8) -> (object: ColorObject)
    ensures
        object == color_object(AnsiColor::Color16 { c16: slot }),
{
    ColorObject { c16: Some(slot as u64), c256: None, r: None, g: None, b: None }
}

/// Builds the options of a segment with thresholds.
pub fn build_threshold_options() -> (options: Options)
    ensures
        options@ == threshold_options(),
{
    let mut options: Options = StringMap::new();
    options.insert(owned("warning_threshold"), OptionValue::Number(60));
    options.insert(owned("critical_threshold"), OptionValue::Number(80));
    options.insert(owned("warning_color"), OptionValue::Object(palette_object(11)));
    options.insert(owned("critical_color"), OptionValue::Object(palette_object(9)));
    options.insert(owned("warning_bold"), OptionValue::Flag(false));
    options.insert(owned("critical_bold"), OptionValue::Flag(true));
    options
}

/// Builds the options of the usage segment.
pub fn build_usage_options() -> (options: Options)
    ensures
        options@ == usage_options(),
{
    let mut options: Options = StringMap::new();
    options.insert(owned("api_base_url"), OptionValue::Text(owned("https://api.anthropic.com")));
    options.insert(owned("cache_duration"), OptionValue::Number(180));
    options.insert(owned("timeout"), OptionValue::Number(2));
    options
}

/// The same colour for icon and text, no background.
pub fn foreground(color: AnsiColor) -> (colors: ColorConfig)
    ensures
        colors == (ColorConfig { icon: Some(color), text: Some(color), background: None }),
{
    ColorConfig { icon: Some(color), text: Some(color), background: None }
}

/// The same colour for icon and text, on a background.
pub fn on_background(color: AnsiColor, background: AnsiColor) -> (colors: ColorConfig)
    ensures
        colors == (ColorConfig {
            icon: Some(color),
            text: Some(color),
            background: Some(background),
        }),
{
    ColorConfig { icon: Some(color), text: Some(color), background: Some(background) }
}

} // verus!
