//! Segment content records, and the helpers that colour them.

pub mod color_utils;
pub mod git;
pub mod threshold_utils;
pub mod usage_5hour;
pub mod usage_7day;

use self::color_utils::{color_members, json_object, serialize_ansi_color_to_json};
use crate::config::AnsiColor;
use crate::string_map::StringMap;
use crate::text::{decimal, decimal_digits, join2, owned};
use vstd::prelude::*;
use vstd::string::*;

verus! {

/// The side channel of a content record: text by name.
pub type Metadata = StringMap<String>;

/// The metadata key under which a collector hands over a text colour that it
/// has already decided, written as a JSON object.
pub open spec fn color_override_key() -> Seq<char> {
    "text_color_override"@
}

/// The metadata key under which a collector hands over a boldness that it
/// has already decided, written as `true` or `false`.
pub open spec fn bold_override_key() -> Seq<char> {
    "text_bold_override"@
}

/// The content of one segment in one render pass.
pub struct SegmentData {
    pub primary: String,
    pub secondary: String,
    pub metadata: Metadata,
}

/// What a [`SegmentData`] holds.
pub struct SegmentDataView {
    pub primary: Seq<char>,
    pub secondary: Seq<char>,
    pub metadata: Map<Seq<char>, Seq<char>>,
}

impl View for SegmentData {
    type V = SegmentDataView;

    open spec fn view(&self) -> SegmentDataView {
        SegmentDataView {
            primary: self.primary@,
            secondary: self.secondary@,
            metadata: self.metadata@,
        }
    }
}

impl Clone for SegmentData {
    fn clone(&self) -> (r: Self)
        ensures
            r@ == self@,
    {
        SegmentData {
            primary: self.primary.clone(),
            secondary: self.secondary.clone(),
            metadata: self.metadata.clone(),
        }
    }
}

/// One reading of a usage window.
pub struct UsageReading {
    /// The utilization in whole percent, rounded down.
    pub utilization: u64,
    /// The utilization as it is written into the metadata.
    pub utilization_text: String,
    /// The utilization in percent, rounded to the nearest.
    pub percent: u8,
    /// When the window resets, as it is shown.
    pub reset_time: String,
    /// The icon that shows how full the window is.
    pub dynamic_icon: String,
}

/// What a [`UsageReading`] holds.
pub struct UsageReadingView {
    pub utilization: u64,
    pub utilization_text: Seq<char>,
    pub percent: u8,
    pub reset_time: Seq<char>,
    pub dynamic_icon: Seq<char>,
}

impl View for UsageReading {
    type V = UsageReadingView;

    open spec fn view(&self) -> UsageReadingView {
        UsageReadingView {
            utilization: self.utilization,
            utilization_text: self.utilization_text@,
            percent: self.percent,
            reset_time: self.reset_time@,
            dynamic_icon: self.dynamic_icon@,
        }
    }
}

/// `metadata` with the colour that a collector has decided, where it has
/// decided one.
pub open spec fn with_decided_color(
    metadata: Map<Seq<char>, Seq<char>>,
    color: Option<AnsiColor>,
) -> Map<Seq<char>, Seq<char>> {
    match color {
        Some(c) => metadata.insert(color_override_key(), json_object(color_members(c))),
        None => metadata,
    }
}

/// `metadata` with the boldness that a collector has decided, where it has
/// decided one.
pub open spec fn with_decided_bold(
    metadata: Map<Seq<char>, Seq<char>>,
    bold: Option<bool>,
) -> Map<Seq<char>, Seq<char>> {
    match bold {
        Some(b) => metadata.insert(
            bold_override_key(),
            if b {
                "true"@
            } else {
                "false"@
            },
        ),
        None => metadata,
    }
}

/// The content of a usage segment: the percentage as primary text, the
/// reset time behind `arrow` as secondary text, and in the metadata the
/// icon, the utilization under `key`, and what the thresholds decided.
pub open spec fn usage_data(
    reading: UsageReadingView,
    key: Seq<char>,
    arrow: Seq<char>,
    color: Option<AnsiColor>,
    bold: Option<bool>,
) -> SegmentDataView {
    SegmentDataView {
        primary: decimal_digits(reading.percent as nat) + "%"@,
        secondary: arrow + reading.reset_time,
        metadata: with_decided_bold(
            with_decided_color(
                Map::empty().insert("dynamic_icon"@, reading.dynamic_icon).insert(
                    key,
                    reading.utilization_text,
                ),
                color,
            ),
            bold,
        ),
    }
}

/// Builds the content of a usage segment.
pub fn usage_segment_data(
    reading: &UsageReading,
    key: &str,
    arrow: &str,
    color: Option<AnsiColor>,
    bold: Option<bool>,
) -> (data: SegmentData)
    ensures
        data@ == usage_data(reading@, key@, arrow@, color, bold),
{
    let mut metadata: Metadata = StringMap::new();
    metadata.insert(owned("dynamic_icon"), reading.dynamic_icon.clone());
    metadata.insert(owned(key), reading.utilization_text.clone());
    match color {
        Some(c) => {
            metadata.insert(owned("text_color_override"), serialize_ansi_color_to_json(&c));
        },
        None => {},
    }
    match bold {
        Some(b) => {
            metadata.insert(
                owned("text_bold_override"),
                if b {
                    owned("true")
                } else {
                    owned("false")
                },
            );
        },
        None => {},
    }
    SegmentData {
        primary: join2(decimal(reading.percent as u64).as_str(), "%"),
        secondary: join2(arrow, reading.reset_time.as_str()),
        metadata,
    }
}

} // verus!
