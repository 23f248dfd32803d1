//! The segment of the five-hour usage window.

use super::threshold_utils::{
    get_color_for_utilization, segment_bold, segment_color, should_be_bold, ConfigCache,
};
use super::{usage_data, usage_segment_data, SegmentData, UsageReading, UsageReadingView};
use crate::config::SegmentId;
use vstd::prelude::*;

verus! {

/// The segment of the five-hour usage window.
#[derive(Clone, Copy, Debug, Default)]
pub struct Usage5HourSegment;

/// What an optional borrowed reading holds.
pub open spec fn optional_reading(reading: Option<&UsageReading>) -> Option<UsageReadingView> {
    match reading {
        Some(r) => Some(r@),
        None => None,
    }
}

impl Usage5HourSegment {
    /// The segment.
    pub fn new() -> (r: Self) {
        Usage5HourSegment
    }

    /// The kind of the segment.
    pub fn id(&self) -> (r: SegmentId)
        ensures
            r == SegmentId::Usage5Hour,
    {
        SegmentId::Usage5Hour
    }

    /// The content of the segment for a reading of the window; nothing
    /// without a reading. The thresholds of the cached configuration decide
    /// the colour and the boldness that the content hands over.
    pub fn collect(
        &self,
        cache: &ConfigCache,
        reading: Option<&UsageReading>,
    ) -> (r: Option<SegmentData>)
        ensures
            match r {
                Some(data) => match optional_reading(reading) {
                    Some(view) => data@ == usage_data(
                        view,
                        "five_hour_utilization"@,
                        "→ "@,
                        segment_color(cache@, SegmentId::Usage5Hour, view.utilization),
                        segment_bold(cache@, SegmentId::Usage5Hour, view.utilization),
                    ),
                    None => false,
                },
                None => reading is None,
            },
    {
        match reading {
            Some(reading) => {
                let color = get_color_for_utilization(
                    cache,
                    SegmentId::Usage5Hour,
                    reading.utilization,
                );
                let bold = should_be_bold(cache, SegmentId::Usage5Hour, reading.utilization);
                Some(usage_segment_data(reading, "five_hour_utilization", "→ ", color, bold))
            },
            None => None,
        }
    }
}

} // verus!
