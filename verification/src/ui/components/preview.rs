//! The preview panel: the statusline as it would look, rendered from sample
//! content and wrapped to the width of the panel.

use crate::config::{
    segments_view, Config, ConfigView, OptionValueView, SegmentConfig, SegmentConfigView,
    SegmentId,
};
use crate::engine::compose::{composed, segments_data_view};
use crate::engine::segments::color_utils::{option_value_text, option_value_to_json};
use crate::engine::segments::threshold_utils::{
    critical_threshold, thresholds_from_options, warning_threshold,
};
use crate::engine::segments::{Metadata, SegmentData, SegmentDataView};
use crate::engine::spans::{clone_lines, text_view, StyledLine, StyledSpanView};
use crate::engine::statusline::{flat_line, preview_text, StatusLineGenerator};
use crate::string_map::StringMap;
use crate::text::{join2, owned};
use vstd::prelude::*;

verus! {

/// The version that the sample content of the update segment shows.
pub const VERSION: &'static str = "0.1.0";

/// The width of the panel where none has been measured yet.
pub const DEFAULT_WIDTH: u16 = 80;

/// The JSON text of the option stored under `key`, whatever it holds.
pub open spec fn option_text(
    options: Map<Seq<char>, OptionValueView>,
    key: Seq<char>,
) -> Option<Seq<char>> {
    if options.contains_key(key) {
        Some(option_value_text(options[key]))
    } else {
        None
    }
}

/// The colour that sample content at `utilization` hands over, as JSON
/// text: what is configured as critical colour from the critical threshold
/// on, else what is configured as warning colour from the warning threshold
/// on, else nothing.
pub open spec fn threshold_color_text(
    options: Map<Seq<char>, OptionValueView>,
    utilization: u64,
) -> Option<Seq<char>> {
    if utilization >= critical_threshold(options) {
        option_text(options, "critical_color"@)
    } else if utilization >= warning_threshold(options) {
        option_text(options, "warning_color"@)
    } else {
        None
    }
}

/// `metadata` with the colour override added where there is one.
pub open spec fn with_color_override(
    metadata: Map<Seq<char>, Seq<char>>,
    color: Option<Seq<char>>,
) -> Map<Seq<char>, Seq<char>> {
    match color {
        Some(text) => metadata.insert("text_color_override"@, text),
        None => metadata,
    }
}

/// The sample content of a segment.
pub open spec fn mock_data(config: SegmentConfigView) -> SegmentDataView {
    match config.id {
        SegmentId::Model => SegmentDataView {
            primary: "Sonnet 4"@,
            secondary: ""@,
            metadata: Map::empty().insert("model"@, "sonnet-4-20250512"@),
        },
        SegmentId::Directory => SegmentDataView {
            primary: "CCometixLine"@,
            secondary: ""@,
            metadata: Map::empty().insert("current_dir"@, "~/CCometixLine"@),
        },
        SegmentId::Git => SegmentDataView {
            primary: "master"@,
            secondary: "✓"@,
            metadata: Map::empty().insert("branch"@, "master"@).insert("status"@, "Clean"@).insert(
                "ahead"@,
                "0"@,
            ).insert("behind"@, "0"@),
        },
        SegmentId::ContextWindow => SegmentDataView {
            primary: "78.2%"@,
            secondary: "· 156.4k"@,
            metadata: Map::empty().insert("total_tokens"@, "156400"@).insert(
                "percentage"@,
                "78.2"@,
            ).insert("session_tokens"@, "48200"@),
        },
        SegmentId::Usage => SegmentDataView {
            primary: "24%"@,
            secondary: "· 10-7-2"@,
            metadata: Map::empty(),
        },
        SegmentId::Usage5Hour => SegmentDataView {
            primary: "65%"@,
            secondary: "→ 11am"@,
            metadata: with_color_override(
                Map::empty().insert("dynamic_icon"@, "\u{f0aa3}"@).insert(
                    "five_hour_utilization"@,
                    "65"@,
                ),
                threshold_color_text(config.options, 65),
            ),
        },
        SegmentId::Usage7Day => SegmentDataView {
            primary: "85%"@,
            secondary: "→ Oct 9:5am"@,
            metadata: with_color_override(
                Map::empty().insert("dynamic_icon"@, "\u{f0aa4}"@).insert(
                    "seven_day_utilization"@,
                    "85"@,
                ),
                threshold_color_text(config.options, 85),
            ),
        },
        SegmentId::Cost => SegmentDataView {
            primary: "$0.02"@,
            secondary: ""@,
            metadata: Map::empty().insert("cost"@, "0.01234"@),
        },
        SegmentId::Session => SegmentDataView {
            primary: "3m45s"@,
            secondary: "+156 -23"@,
            metadata: Map::empty().insert("duration_ms"@, "225000"@).insert(
                "lines_added"@,
                "156"@,
            ).insert("lines_removed"@, "23"@),
        },
        SegmentId::OutputStyle => SegmentDataView {
            primary: "default"@,
            secondary: ""@,
            metadata: Map::empty().insert("style_name"@, "default"@),
        },
        SegmentId::Update => SegmentDataView {
            primary: "v"@ + VERSION@,
            secondary: ""@,
            metadata: Map::empty().insert("current_version"@, VERSION@).insert(
                "update_available"@,
                "false"@,
            ),
        },
    }
}

/// The sample pass of a configuration: each enabled segment with its sample
/// content, in the order of the configuration.
pub open spec fn mock_segments(
    segments: Seq<SegmentConfigView>,
) -> Seq<(SegmentConfigView, SegmentDataView)>
    decreases segments.len(),
{
    if segments.len() == 0 {
        Seq::empty()
    } else {
        let before = mock_segments(segments.drop_last());
        if segments.last().enabled {
            before.push((segments.last(), mock_data(segments.last())))
        } else {
            before
        }
    }
}

/// The rows that the panel needs for `line_count` lines of preview: the
/// lines, at least one, and the two borders; at least 3 and at most 8.
pub open spec fn preview_height(line_count: nat) -> nat {
    let rows = if line_count < 1 {
        3
    } else {
        line_count + 2
    };
    if rows > 8 {
        8
    } else {
        rows as nat
    }
}

/// The width inside the borders of a panel that is `width` columns wide.
pub open spec fn content_width(width: u16) -> nat {
    if width < 2 {
        0
    } else {
        (width - 2) as nat
    }
}

/// The preview panel.
pub struct PreviewComponent {
    preview_cache: String,
    preview_text: Vec<StyledLine>,
}

fn entry(metadata: &mut Metadata, key: &str, value: &str)
    ensures
        final(metadata)@ == old(metadata)@.insert(key@, value@),
{
    metadata.insert(owned(key), owned(value));
}

fn data_of(primary: &str, secondary: &str, metadata: Metadata) -> (r: SegmentData)
    ensures
        r@ == (SegmentDataView { primary: primary@, secondary: secondary@, metadata: metadata@ }),
{
    SegmentData { primary: owned(primary), secondary: owned(secondary), metadata }
}

fn override_color(metadata: &mut Metadata, color: Option<String>)
    ensures
        final(metadata)@ == with_color_override(
            old(metadata)@,
            match color {
                Some(text) => Some(text@),
                None => None,
            },
        ),
{
    match color {
        Some(text) => {
            metadata.insert(owned("text_color_override"), text);
        },
        None => {},
    }
}

impl PreviewComponent {
    /// The flat line of the last update.
    pub closed spec fn cache(&self) -> Seq<char> {
        self.preview_cache@
    }

    /// The wrapped lines of the last update.
    pub closed spec fn text(&self) -> Seq<Seq<StyledSpanView>> {
        text_view(self.preview_text@)
    }

    /// Tells whether the panel shows the preview of `config` at `width`.
    pub open spec fn shows(&self, config: ConfigView, width: u16) -> bool {
        let units = composed(config.style.mode, mock_segments(config.segments));
        &&& self.cache() == flat_line(config.style, units)
        &&& self.text() == preview_text(config.style, units, content_width(width))
    }

    /// A panel that shows nothing yet.
    pub fn new() -> (r: Self)
        ensures
            r.cache().len() == 0,
            r.text().len() == 0,
    {
        let r = PreviewComponent { preview_cache: String::new(), preview_text: Vec::new() };
        assert(r.text() =~= Seq::empty());
        r
    }

    /// Renders the preview of `config` at the default width.
    pub fn update_preview(&mut self, config: &Config)
        ensures
            final(self).shows(config@, DEFAULT_WIDTH),
    {
        self.update_preview_with_width(config, DEFAULT_WIDTH);
    }

    /// Renders the preview of `config` for a panel that is `width` columns
    /// wide, borders included: the flat line, and the lines wrapped to the
    /// width inside the borders.
    pub fn update_preview_with_width(&mut self, config: &Config, width: u16)
        ensures
            final(self).shows(config@, width),
    {
        let renderer = StatusLineGenerator::new(config.clone());
        self.preview_cache = renderer.generate(self.generate_mock_segments_data(config));
        let inner: u16 = if width < 2 {
            0
        } else {
            width - 2
        };
        let preview = renderer.generate_for_tui_preview(
            self.generate_mock_segments_data(config),
            inner,
        );
        self.preview_text = preview.lines;
    }

    /// The rows that the panel needs, borders included.
    pub fn calculate_height(&self) -> (rows: u16)
        ensures
            rows == preview_height(self.text().len()),
            3 <= rows <= 8,
    {
        let line_count = self.preview_text.len();
        if line_count < 1 {
            3
        } else if line_count >= 6 {
            8
        } else {
            (line_count + 2) as u16
        }
    }

    /// The lines to draw inside the panel.
    pub fn render(&self) -> (lines: Vec<StyledLine>)
        ensures
            text_view(lines@) == self.text(),
    {
        clone_lines(&self.preview_text)
    }

    /// The flat line of the last update.
    pub fn get_preview_cache(&self) -> (line: &str)
        ensures
            line@ == self.cache(),
    {
        self.preview_cache.as_str()
    }

    /// The colour override that sample content at `utilization` hands over.
    pub fn get_threshold_color(
        &self,
        segment_config: &SegmentConfig,
        utilization: u64,
    ) -> (r: Option<String>)
        ensures
            match r {
                Some(text) => threshold_color_text(segment_config@.options, utilization) == Some(
                    text@,
                ),
                None => threshold_color_text(segment_config@.options, utilization) is None,
            },
    {
        let (warning, critical) = thresholds_from_options(&segment_config.options);
        let key = if utilization >= critical {
            "critical_color"
        } else if utilization >= warning {
            "warning_color"
        } else {
            return None;
        };
        match segment_config.options.get(key) {
            Some(value) => Some(option_value_to_json(value)),
            None => None,
        }
    }

    /// The sample content of one segment.
    pub fn mock_segment_data(&self, segment_config: &SegmentConfig) -> (data: SegmentData)
        ensures
            data@ == mock_data(segment_config@),
    {
        let mut metadata: Metadata = StringMap::new();
        match segment_config.id {
            SegmentId::Model => {
                entry(&mut metadata, "model", "sonnet-4-20250512");
                data_of("Sonnet 4", "", metadata)
            },
            SegmentId::Directory => {
                entry(&mut metadata, "current_dir", "~/CCometixLine");
                data_of("CCometixLine", "", metadata)
            },
            SegmentId::Git => {
                entry(&mut metadata, "branch", "master");
                entry(&mut metadata, "status", "Clean");
                entry(&mut metadata, "ahead", "0");
                entry(&mut metadata, "behind", "0");
                data_of("master", "✓", metadata)
            },
            SegmentId::ContextWindow => {
                entry(&mut metadata, "total_tokens", "156400");
                entry(&mut metadata, "percentage", "78.2");
                entry(&mut metadata, "session_tokens", "48200");
                data_of("78.2%", "· 156.4k", metadata)
            },
            SegmentId::Usage => data_of("24%", "· 10-7-2", metadata),
            SegmentId::Usage5Hour => {
                entry(&mut metadata, "dynamic_icon", "\u{f0aa3}");
                entry(&mut metadata, "five_hour_utilization", "65");
                override_color(&mut metadata, self.get_threshold_color(segment_config, 65));
                data_of("65%", "→ 11am", metadata)
            },
            SegmentId::Usage7Day => {
                entry(&mut metadata, "dynamic_icon", "\u{f0aa4}");
                entry(&mut metadata, "seven_day_utilization", "85");
                override_color(&mut metadata, self.get_threshold_color(segment_config, 85));
                data_of("85%", "→ Oct 9:5am", metadata)
            },
            SegmentId::Cost => {
                entry(&mut metadata, "cost", "0.01234");
                data_of("$0.02", "", metadata)
            },
            SegmentId::Session => {
                entry(&mut metadata, "duration_ms", "225000");
                entry(&mut metadata, "lines_added", "156");
                entry(&mut metadata, "lines_removed", "23");
                data_of("3m45s", "+156 -23", metadata)
            },
            SegmentId::OutputStyle => {
                entry(&mut metadata, "style_name", "default");
                data_of("default", "", metadata)
            },
            SegmentId::Update => {
                entry(&mut metadata, "current_version", VERSION);
                entry(&mut metadata, "update_available", "false");
                SegmentData {
                    primary: join2("v", VERSION),
                    secondary: owned(""),
                    metadata,
                }
            },
        }
    }

    /// The sample pass of `config`: its enabled segments, each with its
    /// sample content.
    pub fn generate_mock_segments_data(
        &self,
        config: &Config,
    ) -> (segments: Vec<(SegmentConfig, SegmentData)>)
        ensures
            segments_data_view(segments@) == mock_segments(config@.segments),
    {
        let ghost all = segments_view(config.segments@);
        let mut segments: Vec<(SegmentConfig, SegmentData)> = Vec::new();
        let mut i: usize = 0;
        while i < config.segments.len()
            invariant
                i <= config.segments@.len(),
                all == segments_view(config.segments@),
                segments_data_view(segments@) == mock_segments(all.take(i as int)),
            decreases config.segments@.len() - i,
        {
            let segment_config = &config.segments[i];
            let ghost before = segments_data_view(segments@);
            proof {
                assert(all.take(i + 1).drop_last() =~= all.take(i as int));
                assert(all.take(i + 1).last() == segment_config@);
            }
            if segment_config.enabled {
                let data = self.mock_segment_data(segment_config);
                let copy = segment_config.clone();
                segments.push((copy, data));
                assert(segments_data_view(segments@) =~= before.push(
                    (segment_config@, mock_data(segment_config@)),
                ));
            }
            i += 1;
        }
        proof {
            assert(all.take(config.segments@.len() as int) =~= all);
        }
        segments
    }
}

impl Default for PreviewComponent {
    fn default() -> (r: Self)
        ensures
            r.cache().len() == 0,
            r.text().len() == 0,
    {
        PreviewComponent::new()
    }
}

} // verus!
