//! The default theme: the sixteen-colour palette, no backgrounds, nothing bold.

use super::{
    build, build_git_options, build_threshold_options, build_usage_options, c16, foreground,
    git_options, no_options, preset, threshold_options, usage_options,
};
use crate::config::{AnsiColor, ColorConfig, SegmentConfig, SegmentId};
use vstd::prelude::*;

verus! {

/// The model segment: on, light cyan.
pub fn model_segment() -> (segment: SegmentConfig)
    ensures
        segment@ == preset(
            SegmentId::Model,
            true,
            "🤖"@,
            "\u{e26d}"@,
            ColorConfig { icon: c16(14), text: c16(14), background: None },
            false,
            Map::empty(),
        ),
{
    build(
        SegmentId::Model,
        true,
        "🤖",
        "\u{e26d}",
        foreground(AnsiColor::Color16 { c16: 14 }),
        false,
        no_options(),
    )
}

/// The directory segment: on, icon in light yellow, text in light green.
pub fn directory_segment() -> (segment: SegmentConfig)
    ensures
        segment@ == preset(
            SegmentId::Directory,
            true,
            "📁"@,
            "\u{f024b}"@,
            ColorConfig { icon: c16(11), text: c16(10), background: None },
            false,
            Map::empty(),
        ),
{
    build(
        SegmentId::Directory,
        true,
        "📁",
        "\u{f024b}",
        ColorConfig {
            icon: Some(AnsiColor::Color16 { c16: 11 }),
            text: Some(AnsiColor::Color16 { c16: 10 }),
            background: None,
        },
        false,
        no_options(),
    )
}

/// The git segment: on, light blue. The dirty count is shown, the commit hash
/// is not.
pub fn git_segment() -> (segment: SegmentConfig)
    ensures
        segment@ == preset(
            SegmentId::Git,
            true,
            "🌿"@,
            "\u{f02a2}"@,
            ColorConfig { icon: c16(12), text: c16(12), background: None },
            false,
            git_options(),
        ),
{
    build(
        SegmentId::Git,
        true,
        "🌿",
        "\u{f02a2}",
        foreground(AnsiColor::Color16 { c16: 12 }),
        false,
        build_git_options(),
    )
}

/// The context window segment: on, light magenta. Warning from 60, critical
/// from 80.
pub fn context_window_segment() -> (segment: SegmentConfig)
    ensures
        segment@ == preset(
            SegmentId::ContextWindow,
            true,
            "⚡️"@,
            "\u{f49b}"@,
            ColorConfig { icon: c16(13), text: c16(13), background: None },
            false,
            threshold_options(),
        ),
{
    build(
        SegmentId::ContextWindow,
        true,
        "⚡️",
        "\u{f49b}",
        foreground(AnsiColor::Color16 { c16: 13 }),
        false,
        build_threshold_options(),
    )
}

/// The usage segment: off, light cyan.
pub fn usage_segment() -> (segment: SegmentConfig)
    ensures
        segment@ == preset(
            SegmentId::Usage,
            false,
            "📊"@,
            "\u{f0a9e}"@,
            ColorConfig { icon: c16(14), text: c16(14), background: None },
            false,
            usage_options(),
        ),
{
    build(
        SegmentId::Usage,
        false,
        "📊",
        "\u{f0a9e}",
        foreground(AnsiColor::Color16 { c16: 14 }),
        false,
        build_usage_options(),
    )
}

/// The five-hour usage segment: off, light cyan. Warning from 60, critical
/// from 80.
pub fn usage_5hour_segment() -> (segment: SegmentConfig)
    ensures
        segment@ == preset(
            SegmentId::Usage5Hour,
            false,
            "📊"@,
            "\u{f0a9e}"@,
            ColorConfig { icon: c16(14), text: c16(14), background: None },
            false,
            threshold_options(),
        ),
{
    build(
        SegmentId::Usage5Hour,
        false,
        "📊",
        "\u{f0a9e}",
        foreground(AnsiColor::Color16 { c16: 14 }),
        false,
        build_threshold_options(),
    )
}

/// The seven-day usage segment: off, light blue. Warning from 60, critical
/// from 80.
pub fn usage_7day_segment() -> (segment: SegmentConfig)
    ensures
        segment@ == preset(
            SegmentId::Usage7Day,
            false,
            "📊"@,
            "\u{f0a9e}"@,
            ColorConfig { icon: c16(12), text: c16(12), background: None },
            false,
            threshold_options(),
        ),
{
    build(
        SegmentId::Usage7Day,
        false,
        "📊",
        "\u{f0a9e}",
        foreground(AnsiColor::Color16 { c16: 12 }),
        false,
        build_threshold_options(),
    )
}

/// The cost segment: off, yellow.
pub fn cost_segment() -> (segment: SegmentConfig)
    ensures
        segment@ == preset(
            SegmentId::Cost,
            false,
            "💰"@,
            "\u{eec1}"@,
            ColorConfig { icon: c16(3), text: c16(3), background: None },
            false,
            Map::empty(),
        ),
{
    build(
        SegmentId::Cost,
        false,
        "💰",
        "\u{eec1}",
        foreground(AnsiColor::Color16 { c16: 3 }),
        false,
        no_options(),
    )
}

/// The session segment: off, green.
pub fn session_segment() -> (segment: SegmentConfig)
    ensures
        segment@ == preset(
            SegmentId::Session,
            false,
            "⏱️"@,
            "\u{f19bb}"@,
            ColorConfig { icon: c16(2), text: c16(2), background: None },
            false,
            Map::empty(),
        ),
{
    build(
        SegmentId::Session,
        false,
        "⏱️",
        "\u{f19bb}",
        foreground(AnsiColor::Color16 { c16: 2 }),
        false,
        no_options(),
    )
}

/// The output style segment: off, cyan.
pub fn output_style_segment() -> (segment: SegmentConfig)
    ensures
        segment@ == preset(
            SegmentId::OutputStyle,
            false,
            "🎯"@,
            "\u{f12f5}"@,
            ColorConfig { icon: c16(6), text: c16(6), background: None },
            false,
            Map::empty(),
        ),
{
    build(
        SegmentId::OutputStyle,
        false,
        "🎯",
        "\u{f12f5}",
        foreground(AnsiColor::Color16 { c16: 6 }),
        false,
        no_options(),
    )
}

} // verus!
