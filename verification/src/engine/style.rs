//! The effective style of a segment: the base style of its configuration,
//! overridden by thresholds and by what its content record hands over.

use super::segments::color_utils::{
    deserialize_ansi_color_from_json, object_color, parsed_color_object,
};
use super::segments::threshold_utils::{
    bold_for_utilization, color_for_utilization, threshold_bold, threshold_color,
};
use super::segments::{
    bold_override_key, color_override_key, Metadata, SegmentData, SegmentDataView,
};
use crate::config::{AnsiColor, SegmentConfig, SegmentConfigView, SegmentId};
use crate::text::{all_digits, digit_of, digits_value, is_digit, str_eq};
use vstd::prelude::*;

verus! {

/// The colours and boldness with which a segment is drawn.
#[derive(Clone, Copy, Debug, PartialEq, Eq, Structural)]
pub struct EffectiveStyle {
    pub icon_color: AnsiColor,
    pub text_color: AnsiColor,
    pub background_color: Option<AnsiColor>,
    pub bold: bool,
}

/// The colour of icons and text that configure none: white.
pub open spec fn default_color() -> AnsiColor {
    AnsiColor::Color16 { c16: 7 }
}

/// Tells whether `text` writes a percentage: one or more digits, then
/// nothing more, or a point and any number of digits. `whole` is the number
/// of digits before the point.
pub open spec fn is_percentage(text: Seq<char>, whole: int) -> bool {
    &&& 1 <= whole <= text.len()
    &&& all_digits(text.take(whole))
    &&& whole < text.len() ==> text[whole] == '.' && all_digits(text.skip(whole + 1))
}

/// The whole part of the percentage that `text` writes, held at the largest
/// `u64` where it is larger; none where `text` writes no percentage.
pub open spec fn whole_percent(text: Seq<char>) -> Option<u64> {
    if exists|whole: int| is_percentage(text, whole) {
        let whole = choose|whole: int| is_percentage(text, whole);
        let value = digits_value(text.take(whole));
        Some(
            if value > u64::MAX {
                u64::MAX
            } else {
                value as u64
            },
        )
    } else {
        None
    }
}

/// A text has at most one split into whole part and fraction.
pub proof fn percentage_split_is_unique(text: Seq<char>, a: int, b: int)
    requires
        is_percentage(text, a),
        is_percentage(text, b),
    ensures
        a == b,
{
    if a < b {
        assert(text.take(b)[a] == text[a]);
        assert(is_digit(text[a]));
    } else if b < a {
        assert(text.take(a)[b] == text[b]);
        assert(is_digit(text[b]));
    }
}

/// Reads the whole part of a percentage such as `65` or `78.2`.
pub fn parse_utilization(text: &str) -> (r: Option<u64>)
    ensures
        r == whole_percent(text@),
{
    let mut value: u64 = 0;
    let mut saturated = false;
    let mut whole: usize = 0;
    let mut in_fraction = false;
    let mut valid = true;
    let len = text.unicode_len();
    for c in it: text.chars()
        invariant
            it.seq() == text@,
            len == text@.len(),
            valid ==> whole <= it.index(),
            valid && !in_fraction ==> whole == it.index(),
            valid ==> all_digits(text@.take(whole as int)),
            valid && in_fraction ==> whole >= 1 && whole < it.index() && it.index() <= text@.len()
                && text@[whole as int] == '.'
                && forall|j: int| whole < j < it.index() ==> is_digit(#[trigger] text@[j]),
            valid && !saturated ==> value == digits_value(text@.take(whole as int)),
            valid && saturated ==> digits_value(text@.take(whole as int)) > u64::MAX,
            !valid ==> forall|w: int| !is_percentage(text@, w),
    {
        let ghost i = it.index() as int;
        if valid {
            match digit_of(c) {
                Some(d) => {
                    if !in_fraction {
                        proof {
                            assert(text@.take(i + 1).drop_last() =~= text@.take(i));
                            assert(text@.take(i + 1).last() == c);
                            assert forall|j: int| 0 <= j < i + 1 implies is_digit(
                                #[trigger] text@.take(i + 1)[j],
                            ) by {
                                if j < i {
                                    assert(text@.take(i)[j] == text@[j]);
                                }
                            }
                        }
                        if saturated || value > (u64::MAX - d) / 10 {
                            saturated = true;
                        } else {
                            value = value * 10 + d;
                        }
                        whole = whole + 1;
                    }
                },
                None => {
                    if !in_fraction && whole >= 1 && c == '.' {
                        in_fraction = true;
                    } else {
                        valid = false;
                        proof {
                            assert forall|w: int| !is_percentage(text@, w) by {
                                if is_percentage(text@, w) {
                                    if in_fraction {
                                        if w < whole {
                                            assert(text@.take(whole as int)[w] == text@[w]);
                                        } else if w > whole {
                                            assert(text@.take(w)[whole as int] == text@[
                                                whole as int
                                            ]);
                                        } else {
                                            assert(text@.skip(w + 1)[i - w - 1] == text@[i]);
                                        }
                                    } else {
                                        if w < i {
                                            assert(text@.take(i)[w] == text@[w]);
                                        } else if w > i {
                                            assert(text@.take(w)[i] == text@[i]);
                                        }
                                    }
                                }
                            }
                        }
                    }
                },
            }
        }
    }
    if !valid || whole == 0 {
        proof {
            if valid {
                assert forall|w: int| !is_percentage(text@, w) by {
                    if is_percentage(text@, w) {
                        assert(text@.take(w)[0] == text@[0]);
                        assert(whole == 0);
                        if in_fraction {
                        } else {
                            assert(text@.len() == 0);
                        }
                    }
                }
            }
        }
        return None;
    }
    proof {
        let w = whole as int;
        if in_fraction {
            assert forall|j: int| 0 <= j < text@.skip(w + 1).len() implies is_digit(
                #[trigger] text@.skip(w + 1)[j],
            ) by {
                assert(text@.skip(w + 1)[j] == text@[w + 1 + j]);
            }
        }
        assert(is_percentage(text@, w));
        let chosen = choose|x: int| is_percentage(text@, x);
        percentage_split_is_unique(text@, w, chosen);
    }
    if saturated {
        Some(u64::MAX)
    } else {
        Some(value)
    }
}

/// The boolean that `text` writes: `true` or `false`, and nothing else.
pub open spec fn written_bool(text: Seq<char>) -> Option<bool> {
    if text == "true"@ {
        Some(true)
    } else if text == "false"@ {
        Some(false)
    } else {
        None
    }
}

/// Reads `true` or `false`.
pub fn parse_bool(text: &str) -> (r: Option<bool>)
    ensures
        r == written_bool(text@),
{
    if str_eq(text, "true") {
        Some(true)
    } else if str_eq(text, "false") {
        Some(false)
    } else {
        None
    }
}

/// The metadata key under which content of the given kind carries its
/// utilization.
pub open spec fn utilization_key(id: SegmentId) -> Seq<char> {
    match id {
        SegmentId::Usage5Hour => "five_hour_utilization"@,
        SegmentId::Usage7Day => "seven_day_utilization"@,
        SegmentId::ContextWindow => "percentage"@,
        _ => "utilization"@,
    }
}

/// The text colour that the content record hands over ready-made.
pub open spec fn metadata_color(metadata: Map<Seq<char>, Seq<char>>) -> Option<AnsiColor> {
    if metadata.contains_key(color_override_key()) {
        object_color(parsed_color_object(metadata[color_override_key()]))
    } else {
        None
    }
}

/// The boldness that the content record hands over ready-made.
pub open spec fn metadata_bold(metadata: Map<Seq<char>, Seq<char>>) -> Option<bool> {
    if metadata.contains_key(bold_override_key()) {
        written_bool(metadata[bold_override_key()])
    } else {
        None
    }
}

/// The utilization that the content record of a segment of kind `id`
/// carries.
pub open spec fn metadata_utilization(
    id: SegmentId,
    metadata: Map<Seq<char>, Seq<char>>,
) -> Option<u64> {
    if metadata.contains_key(utilization_key(id)) {
        whole_percent(metadata[utilization_key(id)])
    } else {
        None
    }
}

/// The colour that the thresholds of `config` give the content.
pub open spec fn computed_color(
    config: SegmentConfigView,
    data: SegmentDataView,
) -> Option<AnsiColor> {
    match metadata_utilization(config.id, data.metadata) {
        Some(utilization) => threshold_color(config.options, utilization),
        None => None,
    }
}

/// The boldness that the thresholds of `config` give the content.
pub open spec fn computed_bold(config: SegmentConfigView, data: SegmentDataView) -> Option<bool> {
    match metadata_utilization(config.id, data.metadata) {
        Some(utilization) => threshold_bold(config.options, utilization),
        None => None,
    }
}

/// The first of the given choices that is there, else the fallback.
pub open spec fn first_of<T>(a: Option<T>, b: Option<T>, c: Option<T>, fallback: T) -> T {
    match a {
        Some(x) => x,
        None => match b {
            Some(x) => x,
            None => match c {
                Some(x) => x,
                None => fallback,
            },
        },
    }
}

/// The style with which a segment is drawn. For the text colour and the
/// boldness, highest first: what the content record hands over ready-made,
/// what the thresholds give for the utilization that the record carries, the
/// base style of the configuration, and white, not bold. Icon and background
/// take the base colours; an unset icon colour is white.
pub open spec fn effective_style(
    config: SegmentConfigView,
    data: SegmentDataView,
) -> EffectiveStyle {
    EffectiveStyle {
        icon_color: match config.colors.icon {
            Some(c) => c,
            None => default_color(),
        },
        text_color: first_of(
            metadata_color(data.metadata),
            computed_color(config, data),
            config.colors.text,
            default_color(),
        ),
        background_color: config.colors.background,
        bold: first_of(
            metadata_bold(data.metadata),
            computed_bold(config, data),
            Some(config.styles.text_bold),
            false,
        ),
    }
}

fn utilization_key_of(id: SegmentId) -> (key: &'static str)
    ensures
        key@ == utilization_key(id),
{
    match id {
        SegmentId::Usage5Hour => "five_hour_utilization",
        SegmentId::Usage7Day => "seven_day_utilization",
        SegmentId::ContextWindow => "percentage",
        _ => "utilization",
    }
}

fn utilization_in(id: SegmentId, metadata: &Metadata) -> (r: Option<u64>)
    ensures
        r == metadata_utilization(id, metadata@),
{
    match metadata.get(utilization_key_of(id)) {
        Some(text) => parse_utilization(text.as_str()),
        None => None,
    }
}

/// Resolves the style with which a segment is drawn.
pub fn resolve(config: &SegmentConfig, data: &SegmentData) -> (style: EffectiveStyle)
    ensures
        style == effective_style(config@, data@),
{
    let handed_color = match data.metadata.get("text_color_override") {
        Some(text) => deserialize_ansi_color_from_json(text.as_str()),
        None => None,
    };
    let handed_bold = match data.metadata.get("text_bold_override") {
        Some(text) => parse_bool(text.as_str()),
        None => None,
    };
    let utilization = utilization_in(config.id, &data.metadata);
    let text_color = match handed_color {
        Some(c) => c,
        None => {
            let computed = match utilization {
                Some(u) => color_for_utilization(&config.options, u),
                None => None,
            };
            match computed {
                Some(c) => c,
                None => match config.colors.text {
                    Some(c) => c,
                    None => AnsiColor::Color16 { c16: 7 },
                },
            }
        },
    };
    let bold = match handed_bold {
        Some(b) => b,
        None => {
            let computed = match utilization {
                Some(u) => bold_for_utilization(&config.options, u),
                None => None,
            };
            match computed {
                Some(b) => b,
                None => config.styles.text_bold,
            }
        },
    };
    EffectiveStyle {
        icon_color: match config.colors.icon {
            Some(c) => c,
            None => AnsiColor::Color16 { c16: 7 },
        },
        text_color,
        background_color: config.colors.background,
        bold,
    }
}

} // verus!
