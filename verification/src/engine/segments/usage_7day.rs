//! The segment of the seven-day usage window.

use super::threshold_utils::{
    bold_in_config, color_in_config, optional_ref_view, segment_bold, segment_color,
};
use super::usage_5hour::optional_reading;
use super::{usage_data, usage_segment_data, SegmentData, UsageReading};
use crate::config::{AnsiColor, Config, SegmentId};
use vstd::prelude::*;

verus! {

/// The segment of the seven-day usage window.
#[derive(Clone, Copy, Debug, Default)]
pub struct Usage7DaySegment;

impl Usage7DaySegment {
    /// The segment.
    pub fn new() -> (r: Self) {
        Usage7DaySegment
    }

    /// The kind of the segment.
    pub fn id(&self) -> (r: SegmentId)
        ensures
            r == SegmentId::Usage7Day,
    {
        SegmentId::Usage7Day
    }

    /// The colour override at `utilization` by `config`, the configuration
    /// as it was read for this pass; none where it could not be read.
    pub fn get_color_for_utilization(
        &self,
        config: Option<&Config>,
        utilization: u64,
    ) -> (r: Option<AnsiColor>)
        ensures
            r == segment_color(optional_ref_view(config), SegmentId::Usage7Day, utilization),
    {
        color_in_config(config, SegmentId::Usage7Day, utilization)
    }

    /// The boldness override at `utilization` by `config`, the
    /// configuration as it was read for this pass; none where it could not
    /// be read.
    pub fn should_be_bold(&self, config: Option<&Config>, utilization: u64) -> (r: Option<bool>)
        ensures
            r == segment_bold(optional_ref_view(config), SegmentId::Usage7Day, utilization),
    {
        bold_in_config(config, SegmentId::Usage7Day, utilization)
    }

    /// The content of the segment for a reading of the window; nothing
    /// without a reading. The thresholds of `config` decide the colour and
    /// the boldness that the content hands over.
    pub fn collect(
        &self,
        config: Option<&Config>,
        reading: Option<&UsageReading>,
    ) -> (r: Option<SegmentData>)
        ensures
            match r {
                Some(data) => match optional_reading(reading) {
                    Some(view) => data@ == usage_data(
                        view,
                        "seven_day_utilization"@,
                        "â†’ "@,
                        segment_color(
                            optional_ref_view(config),
                            SegmentId::Usage7Day,
                            view.utilization,
                        ),
                        segment_bold(
                            optional_ref_view(config),
                            SegmentId::Usage7Day,
                            view.utilization,
                        ),
                    ),
                    None => false,
                },
                None => reading is None,
            },
    {
        match reading {
            Some(reading) => {
                let color = self.get_color_for_utilization(config, reading.utilization);
                let bold = self.should_be_bold(config, reading.utilization);
                Some(usage_segment_data(reading, "seven_day_utilization", "â†’ ", color, bold))
            },
            None => None,
        }
    }
}

} // verus!
