//! The dark powerline theme: light text on a dark background of its own for each segment.

use super::{
    build, build_git_options, build_threshold_options, build_usage_options, c16, c256, foreground,
    git_options, no_options, on_background, preset, rgb, threshold_options, usage_options,
};
use crate::config::{AnsiColor, ColorConfig, SegmentConfig, SegmentId};
use vstd::prelude::*;

verus! {

/// The model segment: on, RGB 255, 255, 255 on RGB 45, 45, 45.
pub fn model_segment() -> (segment: SegmentConfig)
    ensures
        segment@ == preset(
            SegmentId::Model,
            true,
            "🤖"@,
            "\u{e26d}"@,
            ColorConfig {
                icon: rgb(255, 255, 255),
                text: rgb(255, 255, 255),
                background: rgb(45, 45, 45),
            },
            false,
            Map::empty(),
        ),
{
    build(
        SegmentId::Model,
        true,
        "🤖",
        "\u{e26d}",
        on_background(
            AnsiColor::Rgb { r: 255, g: 255, b: 255 },
            AnsiColor::Rgb { r: 45, g: 45, b: 45 },
        ),
        false,
        no_options(),
    )
}

/// The directory segment: on, RGB 255, 255, 255 on RGB 139, 69, 19.
pub fn directory_segment() -> (segment: SegmentConfig)
    ensures
        segment@ == preset(
            SegmentId::Directory,
            true,
            "📁"@,
            "\u{f024b}"@,
            ColorConfig {
                icon: rgb(255, 255, 255),
                text: rgb(255, 255, 255),
                background: rgb(139, 69, 19),
            },
            false,
            Map::empty(),
        ),
{
    build(
        SegmentId::Directory,
        true,
        "📁",
        "\u{f024b}",
        on_background(
            AnsiColor::Rgb { r: 255, g: 255, b: 255 },
            AnsiColor::Rgb { r: 139, g: 69, b: 19 },
        ),
        false,
        no_options(),
    )
}

/// The git segment: on, RGB 255, 255, 255 on RGB 64, 64, 64. The dirty count
/// is shown, the commit hash is not.
pub fn git_segment() -> (segment: SegmentConfig)
    ensures
        segment@ == preset(
            SegmentId::Git,
            true,
            "🌿"@,
            "\u{f02a2}"@,
            ColorConfig {
                icon: rgb(255, 255, 255),
                text: rgb(255, 255, 255),
                background: rgb(64, 64, 64),
            },
            false,
            git_options(),
        ),
{
    build(
        SegmentId::Git,
        true,
        "🌿",
        "\u{f02a2}",
        on_background(
            AnsiColor::Rgb { r: 255, g: 255, b: 255 },
            AnsiColor::Rgb { r: 64, g: 64, b: 64 },
        ),
        false,
        build_git_options(),
    )
}

/// The context window segment: on, RGB 209, 213, 219 on RGB 55, 65, 81.
/// Warning from 60, critical from 80.
pub fn context_window_segment() -> (segment: SegmentConfig)
    ensures
        segment@ == preset(
            SegmentId::ContextWindow,
            true,
            "⚡️"@,
            "\u{f49b}"@,
            ColorConfig {
                icon: rgb(209, 213, 219),
                text: rgb(209, 213, 219),
                background: rgb(55, 65, 81),
            },
            false,
            threshold_options(),
        ),
{
    build(
        SegmentId::ContextWindow,
        true,
        "⚡️",
        "\u{f49b}",
        on_background(
            AnsiColor::Rgb { r: 209, g: 213, b: 219 },
            AnsiColor::Rgb { r: 55, g: 65, b: 81 },
        ),
        false,
        build_threshold_options(),
    )
}

/// The cost segment: off, RGB 229, 192, 123 on RGB 40, 44, 52.
pub fn cost_segment() -> (segment: SegmentConfig)
    ensures
        segment@ == preset(
            SegmentId::Cost,
            false,
            "💰"@,
            "\u{eec1}"@,
            ColorConfig {
                icon: rgb(229, 192, 123),
                text: rgb(229, 192, 123),
                background: rgb(40, 44, 52),
            },
            false,
            Map::empty(),
        ),
{
    build(
        SegmentId::Cost,
        false,
        "💰",
        "\u{eec1}",
        on_background(
            AnsiColor::Rgb { r: 229, g: 192, b: 123 },
            AnsiColor::Rgb { r: 40, g: 44, b: 52 },
        ),
        false,
        no_options(),
    )
}

/// The session segment: off, RGB 163, 190, 140 on RGB 45, 50, 59.
pub fn session_segment() -> (segment: SegmentConfig)
    ensures
        segment@ == preset(
            SegmentId::Session,
            false,
            "⏱️"@,
            "\u{f19bb}"@,
            ColorConfig {
                icon: rgb(163, 190, 140),
                text: rgb(163, 190, 140),
                background: rgb(45, 50, 59),
            },
            false,
            Map::empty(),
        ),
{
    build(
        SegmentId::Session,
        false,
        "⏱️",
        "\u{f19bb}",
        on_background(
            AnsiColor::Rgb { r: 163, g: 190, b: 140 },
            AnsiColor::Rgb { r: 45, g: 50, b: 59 },
        ),
        false,
        no_options(),
    )
}

/// The output style segment: off, RGB 129, 161, 193 on RGB 50, 56, 66.
pub fn output_style_segment() -> (segment: SegmentConfig)
    ensures
        segment@ == preset(
            SegmentId::OutputStyle,
            false,
            "🎯"@,
            "\u{f12f5}"@,
            ColorConfig {
                icon: rgb(129, 161, 193),
                text: rgb(129, 161, 193),
                background: rgb(50, 56, 66),
            },
            false,
            Map::empty(),
        ),
{
    build(
        SegmentId::OutputStyle,
        false,
        "🎯",
        "\u{f12f5}",
        on_background(
            AnsiColor::Rgb { r: 129, g: 161, b: 193 },
            AnsiColor::Rgb { r: 50, g: 56, b: 66 },
        ),
        false,
        no_options(),
    )
}

/// The usage segment: off, light cyan.
pub fn usage_segment() -> (segment: SegmentConfig)
    ensures
        segment@ == preset(
            SegmentId::Usage,
            false,
            "📊"@,
            "\u{f0a9e}"@,
            ColorConfig { icon: c16(14), text: c16(14), background: None },
            false,
            usage_options(),
        ),
{
    build(
        SegmentId::Usage,
        false,
        "📊",
        "\u{f0a9e}",
        foreground(AnsiColor::Color16 { c16: 14 }),
        false,
        build_usage_options(),
    )
}

/// The five-hour usage segment: off, indexed colour 16 on indexed colour 68,
/// bold. Warning from 60, critical from 80.
pub fn usage_5hour_segment() -> (segment: SegmentConfig)
    ensures
        segment@ == preset(
            SegmentId::Usage5Hour,
            false,
            "📊"@,
            "\u{f0a9e}"@,
            ColorConfig { icon: c256(16), text: c256(16), background: c256(68) },
            true,
            threshold_options(),
        ),
{
    build(
        SegmentId::Usage5Hour,
        false,
        "📊",
        "\u{f0a9e}",
        on_background(
            AnsiColor::Color256 { c256: 16 },
            AnsiColor::Color256 { c256: 68 },
        ),
        true,
        build_threshold_options(),
    )
}

/// The seven-day usage segment: off, indexed colour 16 on indexed colour 144,
/// bold. Warning from 60, critical from 80.
pub fn usage_7day_segment() -> (segment: SegmentConfig)
    ensures
        segment@ == preset(
            SegmentId::Usage7Day,
            false,
            "📊"@,
            "\u{f0a9e}"@,
            ColorConfig { icon: c256(16), text: c256(16), background: c256(144) },
            true,
            threshold_options(),
        ),
{
    build(
        SegmentId::Usage7Day,
        false,
        "📊",
        "\u{f0a9e}",
        on_background(
            AnsiColor::Color256 { c256: 16 },
            AnsiColor::Color256 { c256: 144 },
        ),
        true,
        build_threshold_options(),
    )
}

} // verus!
