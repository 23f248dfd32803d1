//! The gruvbox theme: warm indexed colours, no backgrounds, bold text.

use super::{
    build, build_git_options, build_threshold_options, build_usage_options, c16, c256, foreground,
    git_options, no_options, preset, threshold_options, usage_options,
};
use crate::config::{AnsiColor, ColorConfig, SegmentConfig, SegmentId};
use vstd::prelude::*;

verus! {

/// The model segment: on, indexed colour 208, bold.
pub fn model_segment() -> (segment: SegmentConfig)
    ensures
        segment@ == preset(
            SegmentId::Model,
            true,
            "🤖"@,
            "\u{e26d}"@,
            ColorConfig { icon: c256(208), text: c256(208), background: None },
            true,
            Map::empty(),
        ),
{
    build(
        SegmentId::Model,
        true,
        "🤖",
        "\u{e26d}",
        foreground(AnsiColor::Color256 { c256: 208 }),
        true,
        no_options(),
    )
}

/// The directory segment: on, indexed colour 142, bold.
pub fn directory_segment() -> (segment: SegmentConfig)
    ensures
        segment@ == preset(
            SegmentId::Directory,
            true,
            "📁"@,
            "\u{f024b}"@,
            ColorConfig { icon: c256(142), text: c256(142), background: None },
            true,
            Map::empty(),
        ),
{
    build(
        SegmentId::Directory,
        true,
        "📁",
        "\u{f024b}",
        foreground(AnsiColor::Color256 { c256: 142 }),
        true,
        no_options(),
    )
}

/// The git segment: on, indexed colour 109, bold. The dirty count is shown,
/// the commit hash is not.
pub fn git_segment() -> (segment: SegmentConfig)
    ensures
        segment@ == preset(
            SegmentId::Git,
            true,
            "🌿"@,
            "\u{f02a2}"@,
            ColorConfig { icon: c256(109), text: c256(109), background: None },
            true,
            git_options(),
        ),
{
    build(
        SegmentId::Git,
        true,
        "🌿",
        "\u{f02a2}",
        foreground(AnsiColor::Color256 { c256: 109 }),
        true,
        build_git_options(),
    )
}

/// The context window segment: on, magenta, bold. Warning from 60, critical
/// from 80.
pub fn context_window_segment() -> (segment: SegmentConfig)
    ensures
        segment@ == preset(
            SegmentId::ContextWindow,
            true,
            "⚡️"@,
            "\u{f49b}"@,
            ColorConfig { icon: c16(5), text: c16(5), background: None },
            true,
            threshold_options(),
        ),
{
    build(
        SegmentId::ContextWindow,
        true,
        "⚡️",
        "\u{f49b}",
        foreground(AnsiColor::Color16 { c16: 5 }),
        true,
        build_threshold_options(),
    )
}

/// The cost segment: off, indexed colour 214, bold.
pub fn cost_segment() -> (segment: SegmentConfig)
    ensures
        segment@ == preset(
            SegmentId::Cost,
            false,
            "💰"@,
            "\u{eec1}"@,
            ColorConfig { icon: c256(214), text: c256(214), background: None },
            true,
            Map::empty(),
        ),
{
    build(
        SegmentId::Cost,
        false,
        "💰",
        "\u{eec1}",
        foreground(AnsiColor::Color256 { c256: 214 }),
        true,
        no_options(),
    )
}

/// The session segment: off, indexed colour 142, bold.
pub fn session_segment() -> (segment: SegmentConfig)
    ensures
        segment@ == preset(
            SegmentId::Session,
            false,
            "⏱️"@,
            "\u{f19bb}"@,
            ColorConfig { icon: c256(142), text: c256(142), background: None },
            true,
            Map::empty(),
        ),
{
    build(
        SegmentId::Session,
        false,
        "⏱️",
        "\u{f19bb}",
        foreground(AnsiColor::Color256 { c256: 142 }),
        true,
        no_options(),
    )
}

/// The output style segment: off, indexed colour 109, bold.
pub fn output_style_segment() -> (segment: SegmentConfig)
    ensures
        segment@ == preset(
            SegmentId::OutputStyle,
            false,
            "🎯"@,
            "\u{f12f5}"@,
            ColorConfig { icon: c256(109), text: c256(109), background: None },
            true,
            Map::empty(),
        ),
{
    build(
        SegmentId::OutputStyle,
        false,
        "🎯",
        "\u{f12f5}",
        foreground(AnsiColor::Color256 { c256: 109 }),
        true,
        no_options(),
    )
}

/// The usage segment: off, light cyan.
pub fn usage_segment() -> (segment: SegmentConfig)
    ensures
        segment@ == preset(
            SegmentId::Usage,
            false,
            "📊"@,
            "\u{f0a9e}"@,
            ColorConfig { icon: c16(14), text: c16(14), background: None },
            false,
            usage_options(),
        ),
{
    build(
        SegmentId::Usage,
        false,
        "📊",
        "\u{f0a9e}",
        foreground(AnsiColor::Color16 { c16: 14 }),
        false,
        build_usage_options(),
    )
}

/// The five-hour usage segment: off, light cyan. Warning from 60, critical
/// from 80.
pub fn usage_5hour_segment() -> (segment: SegmentConfig)
    ensures
        segment@ == preset(
            SegmentId::Usage5Hour,
            false,
            "📊"@,
            "\u{f0a9e}"@,
            ColorConfig { icon: c16(14), text: c16(14), background: None },
            false,
            threshold_options(),
        ),
{
    build(
        SegmentId::Usage5Hour,
        false,
        "📊",
        "\u{f0a9e}",
        foreground(AnsiColor::Color16 { c16: 14 }),
        false,
        build_threshold_options(),
    )
}

/// The seven-day usage segment: off, light blue. Warning from 60, critical
/// from 80.
pub fn usage_7day_segment() -> (segment: SegmentConfig)
    ensures
        segment@ == preset(
            SegmentId::Usage7Day,
            false,
            "📊"@,
            "\u{f0a9e}"@,
            ColorConfig { icon: c16(12), text: c16(12), background: None },
            false,
            threshold_options(),
        ),
{
    build(
        SegmentId::Usage7Day,
        false,
        "📊",
        "\u{f0a9e}",
        foreground(AnsiColor::Color16 { c16: 12 }),
        false,
        build_threshold_options(),
    )
}

} // verus!
