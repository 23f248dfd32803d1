//! The settings panel: the fields of the selected segment, one per line.

use super::segment_list::{FieldSelection, Panel};
use crate::config::{
    segments_view, AnsiColor, Config, ConfigView, OptionValueView, SegmentConfig,
    SegmentConfigView, SegmentId, StyleMode,
};
use crate::engine::compose::mode_icon;
use crate::engine::segments::color_utils::{ansi_color_to_ratatui, renderer_color, TerminalColor};
use crate::engine::segments::threshold_utils::{
    color_of, color_option, critical_threshold, flag_of, flag_option, thresholds_from_options,
    warning_threshold,
};
use crate::engine::spans::{
    colored, plain_style, text_view, SpanStyle, StyledLine, StyledSpan, StyledSpanView,
};
use crate::text::{decimal, decimal_digits, join2, owned};
use vstd::prelude::*;
use vstd::string::*;

verus! {

/// The name under which a kind of segment is shown.
pub open spec fn segment_name(id: SegmentId) -> Seq<char> {
    match id {
        SegmentId::Model => "Model"@,
        SegmentId::Directory => "Directory"@,
        SegmentId::Git => "Git"@,
        SegmentId::ContextWindow => "Context Window"@,
        SegmentId::Usage => "Usage"@,
        SegmentId::Usage5Hour => "Usage (5-hour)"@,
        SegmentId::Usage7Day => "Usage (7-day)"@,
        SegmentId::Cost => "Cost"@,
        SegmentId::Session => "Session"@,
        SegmentId::OutputStyle => "Output Style"@,
        SegmentId::Update => "Update"@,
    }
}

/// The name under which a kind of segment is shown.
pub fn segment_display_name(id: SegmentId) -> (name: &'static str)
    ensures
        name@ == segment_name(id),
{
    match id {
        SegmentId::Model => "Model",
        SegmentId::Directory => "Directory",
        SegmentId::Git => "Git",
        SegmentId::ContextWindow => "Context Window",
        SegmentId::Usage => "Usage",
        SegmentId::Usage5Hour => "Usage (5-hour)",
        SegmentId::Usage7Day => "Usage (7-day)",
        SegmentId::Cost => "Cost",
        SegmentId::Session => "Session",
        SegmentId::OutputStyle => "Output Style",
        SegmentId::Update => "Update",
    }
}

/// The name of a palette slot; a slot outside the palette is shown by its
/// number.
pub open spec fn palette_name(c16: u8) -> Seq<char> {
    if c16 == 0 {
        "Black"@
    } else if c16 == 1 {
        "Red"@
    } else if c16 == 2 {
        "Green"@
    } else if c16 == 3 {
        "Yellow"@
    } else if c16 == 4 {
        "Blue"@
    } else if c16 == 5 {
        "Magenta"@
    } else if c16 == 6 {
        "Cyan"@
    } else if c16 == 7 {
        "White"@
    } else if c16 == 8 {
        "Dark Gray"@
    } else if c16 == 9 {
        "Light Red"@
    } else if c16 == 10 {
        "Light Green"@
    } else if c16 == 11 {
        "Light Yellow"@
    } else if c16 == 12 {
        "Light Blue"@
    } else if c16 == 13 {
        "Light Magenta"@
    } else if c16 == 14 {
        "Light Cyan"@
    } else if c16 == 15 {
        "Gray"@
    } else {
        "ANSI "@ + decimal_digits(c16 as nat)
    }
}

/// How a base colour is described: a palette slot by its name, an indexed
/// colour by its number, an RGB colour by its components, and an unset
/// colour by `unset`.
pub open spec fn color_description(color: Option<AnsiColor>, unset: Seq<char>) -> Seq<char> {
    match color {
        Some(AnsiColor::Color16 { c16 }) => palette_name(c16),
        Some(AnsiColor::Color256 { c256 }) => "256:"@ + decimal_digits(c256 as nat),
        Some(AnsiColor::Rgb { r, g, b }) => "RGB("@ + decimal_digits(r as nat) + ","@
            + decimal_digits(g as nat) + ","@ + decimal_digits(b as nat) + ")"@,
        None => unset,
    }
}

/// How a threshold colour is described: by its depth and number, or by its
/// components.
pub open spec fn threshold_color_description(color: Option<AnsiColor>) -> Seq<char> {
    match color {
        Some(AnsiColor::Color16 { c16 }) => "16:"@ + decimal_digits(c16 as nat),
        Some(AnsiColor::Color256 { c256 }) => "256:"@ + decimal_digits(c256 as nat),
        Some(AnsiColor::Rgb { r, g, b }) => "RGB("@ + decimal_digits(r as nat) + ","@
            + decimal_digits(g as nat) + ","@ + decimal_digits(b as nat) + ")"@,
        None => "Not set"@,
    }
}

/// The mark of a setting that is on or off.
pub open spec fn check_mark(on: bool) -> Seq<char> {
    if on {
        "✓"@
    } else {
        "✗"@
    }
}

/// The box of a setting that is on or off.
pub open spec fn check_box(on: bool) -> Seq<char> {
    if on {
        "[✓]"@
    } else {
        "[ ]"@
    }
}

/// A span of text in the terminal's own look.
pub open spec fn raw(text: Seq<char>) -> StyledSpanView {
    StyledSpanView { content: text, style: plain_style() }
}

/// The sample of a colour: two blocks in the colour, or two dashes in dark
/// gray where there is none.
pub open spec fn swatch(color: Option<TerminalColor>) -> StyledSpanView {
    match color {
        Some(c) => StyledSpanView { content: "██"@, style: colored(c) },
        None => StyledSpanView { content: "--"@, style: colored(TerminalColor::DarkGray) },
    }
}

/// What stands before a field: an arrow in cyan before the selected one,
/// two spaces before the others.
pub open spec fn marker(selected: bool) -> StyledSpanView {
    if selected {
        StyledSpanView { content: "▶ "@, style: colored(TerminalColor::Cyan) }
    } else {
        raw("  "@)
    }
}

/// Tells whether `field` is the one that the cursor is on.
pub open spec fn is_selected(
    panel: Panel,
    selected: FieldSelection,
    field: FieldSelection,
) -> bool {
    panel == Panel::Settings && selected == field
}

/// The colour in which a base colour is sampled: white where it is unset.
pub open spec fn sample_color(color: Option<AnsiColor>) -> TerminalColor {
    match color {
        Some(c) => renderer_color(c),
        None => TerminalColor::White,
    }
}

/// Tells whether the panel shows the threshold fields for this kind.
pub open spec fn shows_thresholds(id: SegmentId) -> bool {
    id == SegmentId::Usage5Hour || id == SegmentId::Usage7Day
}

/// The heading and the six fields that every segment has.
pub open spec fn base_lines(
    mode: StyleMode,
    segment: SegmentConfigView,
    panel: Panel,
    field: FieldSelection,
) -> Seq<Seq<StyledSpanView>> {
    seq![
        seq![raw(segment_name(segment.id) + " Segment"@)],
        seq![
            marker(is_selected(panel, field, FieldSelection::Enabled)),
            raw("├─ Enabled: "@ + check_mark(segment.enabled)),
        ],
        seq![
            marker(is_selected(panel, field, FieldSelection::Icon)),
            raw("├─ Icon: "@),
            StyledSpanView {
                content: mode_icon(mode, segment),
                style: colored(sample_color(segment.colors.icon)),
            },
        ],
        seq![
            marker(is_selected(panel, field, FieldSelection::IconColor)),
            raw("├─ Icon Color: "@ + color_description(segment.colors.icon, "Default"@) + " "@),
            swatch(Some(sample_color(segment.colors.icon))),
        ],
        seq![
            marker(is_selected(panel, field, FieldSelection::TextColor)),
            raw("├─ Text Color: "@ + color_description(segment.colors.text, "Default"@) + " "@),
            swatch(Some(sample_color(segment.colors.text))),
        ],
        seq![
            marker(is_selected(panel, field, FieldSelection::BackgroundColor)),
            raw(
                "├─ Background Color: "@ + color_description(segment.colors.background, "None"@)
                    + " "@,
            ),
            swatch(
                match segment.colors.background {
                    Some(c) => Some(renderer_color(c)),
                    None => None,
                },
            ),
        ],
        seq![
            marker(is_selected(panel, field, FieldSelection::TextStyle)),
            raw("├─ Text Style: Bold "@ + check_box(segment.styles.text_bold)),
        ],
    ]
}

/// The boolean stored under `key`, or `default`.
pub open spec fn flag_or(
    options: Map<Seq<char>, OptionValueView>,
    key: Seq<char>,
    default: bool,
) -> bool {
    match flag_option(options, key) {
        Some(b) => b,
        None => default,
    }
}

/// The six threshold fields.
pub open spec fn threshold_lines(
    segment: SegmentConfigView,
    panel: Panel,
    field: FieldSelection,
) -> Seq<Seq<StyledSpanView>> {
    let warning_color = color_option(segment.options, "warning_color"@);
    let critical_color = color_option(segment.options, "critical_color"@);
    seq![
        seq![
            marker(is_selected(panel, field, FieldSelection::WarningThreshold)),
            raw(
                "├─ Warning Threshold: "@ + decimal_digits(
                    warning_threshold(segment.options) as nat,
                ) + "%"@,
            ),
        ],
        seq![
            marker(is_selected(panel, field, FieldSelection::CriticalThreshold)),
            raw(
                "├─ Critical Threshold: "@ + decimal_digits(
                    critical_threshold(segment.options) as nat,
                ) + "%"@,
            ),
        ],
        seq![
            marker(is_selected(panel, field, FieldSelection::WarningColor)),
            raw("├─ Warning Color: "@ + threshold_color_description(warning_color) + " "@),
            swatch(
                match warning_color {
                    Some(c) => Some(renderer_color(c)),
                    None => None,
                },
            ),
        ],
        seq![
            marker(is_selected(panel, field, FieldSelection::CriticalColor)),
            raw("├─ Critical Color: "@ + threshold_color_description(critical_color) + " "@),
            swatch(
                match critical_color {
                    Some(c) => Some(renderer_color(c)),
                    None => None,
                },
            ),
        ],
        seq![
            marker(is_selected(panel, field, FieldSelection::WarningBold)),
            raw(
                "├─ Warning Bold: "@ + check_box(
                    flag_or(segment.options, "warning_bold"@, false),
                ),
            ),
        ],
        seq![
            marker(is_selected(panel, field, FieldSelection::CriticalBold)),
            raw(
                "├─ Critical Bold: "@ + check_box(
                    flag_or(segment.options, "critical_bold"@, true),
                ),
            ),
        ],
    ]
}

/// The last field: the number of options.
pub open spec fn options_line(
    segment: SegmentConfigView,
    panel: Panel,
    field: FieldSelection,
) -> Seq<StyledSpanView> {
    seq![
        marker(is_selected(panel, field, FieldSelection::Options)),
        raw("└─ Options: "@ + decimal_digits(segment.options.dom().len()) + " items"@),
    ]
}

/// The lines of the panel for one segment: the heading, the six base fields,
/// the six threshold fields for the kinds that show them, and the options.
pub open spec fn segment_lines(
    mode: StyleMode,
    segment: SegmentConfigView,
    panel: Panel,
    field: FieldSelection,
) -> Seq<Seq<StyledSpanView>> {
    base_lines(mode, segment, panel, field) + (if shows_thresholds(segment.id) {
        threshold_lines(segment, panel, field)
    } else {
        Seq::empty()
    }).push(options_line(segment, panel, field))
}

/// The lines of the panel: those of the selected segment, or one line that
/// says that none is selected.
pub open spec fn settings_text(
    config: ConfigView,
    selected_segment: nat,
    panel: Panel,
    field: FieldSelection,
) -> Seq<Seq<StyledSpanView>> {
    if selected_segment < config.segments.len() {
        segment_lines(config.style.mode, config.segments[selected_segment as int], panel, field)
    } else {
        seq![seq![raw("No segment selected"@)]]
    }
}

/// The panel as it is drawn: its lines, and whether its border is
/// highlighted.
pub struct SettingsPanel {
    pub lines: Vec<StyledLine>,
    pub focused: bool,
}

/// The settings panel.
#[derive(Clone, Copy, Debug, Default)]
pub struct SettingsComponent;

fn raw_span(text: String) -> (r: StyledSpan)
    ensures
        r@ == raw(text@),
{
    StyledSpan { content: text, style: SpanStyle { fg: None, bg: None, bold: false } }
}

fn color_span(text: &str, color: TerminalColor) -> (r: StyledSpan)
    ensures
        r@ == (StyledSpanView { content: text@, style: colored(color) }),
{
    StyledSpan { content: owned(text), style: SpanStyle { fg: Some(color), bg: None, bold: false } }
}

fn swatch_span(color: Option<TerminalColor>) -> (r: StyledSpan)
    ensures
        r@ == swatch(color),
{
    match color {
        Some(c) => color_span("██", c),
        None => color_span("--", TerminalColor::DarkGray),
    }
}

fn marker_span(selected: bool) -> (r: StyledSpan)
    ensures
        r@ == marker(selected),
{
    if selected {
        color_span("▶ ", TerminalColor::Cyan)
    } else {
        raw_span(owned("  "))
    }
}

fn line_of_two(selected: bool, a: StyledSpan) -> (r: StyledLine)
    ensures
        r@ == seq![marker(selected), a@],
{
    let mut spans: Vec<StyledSpan> = Vec::new();
    spans.push(marker_span(selected));
    spans.push(a);
    let r = StyledLine { spans };
    assert(r@ =~= seq![marker(selected), a@]);
    r
}

fn line_of_three(selected: bool, a: StyledSpan, b: StyledSpan) -> (r: StyledLine)
    ensures
        r@ == seq![marker(selected), a@, b@],
{
    let mut spans: Vec<StyledSpan> = Vec::new();
    spans.push(marker_span(selected));
    spans.push(a);
    spans.push(b);
    let r = StyledLine { spans };
    assert(r@ =~= seq![marker(selected), a@, b@]);
    r
}

fn palette_name_of(c16: u8) -> (r: String)
    ensures
        r@ == palette_name(c16),
{
    match c16 {
        0 => owned("Black"),
        1 => owned("Red"),
        2 => owned("Green"),
        3 => owned("Yellow"),
        4 => owned("Blue"),
        5 => owned("Magenta"),
        6 => owned("Cyan"),
        7 => owned("White"),
        8 => owned("Dark Gray"),
        9 => owned("Light Red"),
        10 => owned("Light Green"),
        11 => owned("Light Yellow"),
        12 => owned("Light Blue"),
        13 => owned("Light Magenta"),
        14 => owned("Light Cyan"),
        15 => owned("Gray"),
        _ => join2("ANSI ", decimal(c16 as u64).as_str()),
    }
}

fn rgb_description(r: u8, g: u8, b: u8) -> (text: String)
    ensures
        text@ == "RGB("@ + decimal_digits(r as nat) + ","@ + decimal_digits(g as nat) + ","@
            + decimal_digits(b as nat) + ")"@,
{
    let mut text = owned("RGB(");
    text.append(decimal(r as u64).as_str());
    text.append(",");
    text.append(decimal(g as u64).as_str());
    text.append(",");
    text.append(decimal(b as u64).as_str());
    text.append(")");
    text
}

/// Describes a base colour.
pub fn describe_color(color: &Option<AnsiColor>, unset: &str) -> (r: String)
    ensures
        r@ == color_description(*color, unset@),
{
    match color {
        Some(AnsiColor::Color16 { c16 }) => palette_name_of(*c16),
        Some(AnsiColor::Color256 { c256 }) => join2("256:", decimal(*c256 as u64).as_str()),
        Some(AnsiColor::Rgb { r, g, b }) => rgb_description(*r, *g, *b),
        None => owned(unset),
    }
}

/// Describes a threshold colour.
pub fn describe_threshold_color(color: &Option<AnsiColor>) -> (r: String)
    ensures
        r@ == threshold_color_description(*color),
{
    match color {
        Some(AnsiColor::Color16 { c16 }) => join2("16:", decimal(*c16 as u64).as_str()),
        Some(AnsiColor::Color256 { c256 }) => join2("256:", decimal(*c256 as u64).as_str()),
        Some(AnsiColor::Rgb { r, g, b }) => rgb_description(*r, *g, *b),
        None => owned("Not set"),
    }
}

fn check_box_of(on: bool) -> (r: &'static str)
    ensures
        r@ == check_box(on),
{
    if on {
        "[✓]"
    } else {
        "[ ]"
    }
}

fn sample_of(color: &Option<AnsiColor>) -> (r: TerminalColor)
    ensures
        r == sample_color(*color),
{
    match color {
        Some(c) => ansi_color_to_ratatui(c),
        None => TerminalColor::White,
    }
}

fn renderer_of(color: &Option<AnsiColor>) -> (r: Option<TerminalColor>)
    ensures
        r == match *color {
            Some(c) => Some(renderer_color(c)),
            None => None,
        },
{
    match color {
        Some(c) => Some(ansi_color_to_ratatui(c)),
        None => None,
    }
}

fn labelled(label: &str, value: &str, tail: &str) -> (r: StyledSpan)
    ensures
        r@ == raw(label@ + value@ + tail@),
{
    let mut text = owned(label);
    text.append(value);
    text.append(tail);
    raw_span(text)
}

fn render_base(
    mode: StyleMode,
    segment: &SegmentConfig,
    panel: Panel,
    field: FieldSelection,
    lines: &mut Vec<StyledLine>,
)
    requires
        old(lines)@.len() == 0,
    ensures
        text_view(final(lines)@) == base_lines(mode, segment@, panel, field),
{
    let in_settings = panel == Panel::Settings;
    let mut heading: Vec<StyledSpan> = Vec::new();
    heading.push(raw_span(join2(segment_display_name(segment.id), " Segment")));
    let heading_line = StyledLine { spans: heading };
    assert(heading_line@ =~= seq![raw(segment_name(segment@.id) + " Segment"@)]);
    lines.push(heading_line);
    lines.push(
        line_of_two(
            in_settings && field == FieldSelection::Enabled,
            raw_span(
                join2(
                    "├─ Enabled: ",
                    if segment.enabled {
                        "✓"
                    } else {
                        "✗"
                    },
                ),
            ),
        ),
    );
    let icon = match mode {
        StyleMode::Plain => segment.icon.plain.as_str(),
        _ => segment.icon.nerd_font.as_str(),
    };
    lines.push(
        line_of_three(
            in_settings && field == FieldSelection::Icon,
            raw_span(owned("├─ Icon: ")),
            color_span(icon, sample_of(&segment.colors.icon)),
        ),
    );
    lines.push(
        line_of_three(
            in_settings && field == FieldSelection::IconColor,
            labelled(
                "├─ Icon Color: ",
                describe_color(&segment.colors.icon, "Default").as_str(),
                " ",
            ),
            swatch_span(Some(sample_of(&segment.colors.icon))),
        ),
    );
    lines.push(
        line_of_three(
            in_settings && field == FieldSelection::TextColor,
            labelled(
                "├─ Text Color: ",
                describe_color(&segment.colors.text, "Default").as_str(),
                " ",
            ),
            swatch_span(Some(sample_of(&segment.colors.text))),
        ),
    );
    lines.push(
        line_of_three(
            in_settings && field == FieldSelection::BackgroundColor,
            labelled(
                "├─ Background Color: ",
                describe_color(&segment.colors.background, "None").as_str(),
                " ",
            ),
            swatch_span(renderer_of(&segment.colors.background)),
        ),
    );
    lines.push(
        line_of_two(
            in_settings && field == FieldSelection::TextStyle,
            raw_span(join2("├─ Text Style: Bold ", check_box_of(segment.styles.text_bold))),
        ),
    );
    proof {
        let want = base_lines(mode, segment@, panel, field);
        assert(lines@.len() == 7);
        assert(want.len() == 7);
        assert(lines@[0]@ == want[0]);
        assert(lines@[1]@ == want[1]);
        assert(lines@[2]@ == want[2]);
        assert(lines@[3]@ == want[3]);
        assert(lines@[4]@ == want[4]);
        assert(lines@[5]@ == want[5]);
        assert(lines@[6]@ == want[6]);
    }
    assert(text_view(lines@) =~= base_lines(mode, segment@, panel, field));
}

fn render_thresholds(
    segment: &SegmentConfig,
    panel: Panel,
    field: FieldSelection,
) -> (lines: Vec<StyledLine>)
    ensures
        text_view(lines@) == threshold_lines(segment@, panel, field),
{
    let in_settings = panel == Panel::Settings;
    let (warning, critical) = thresholds_from_options(&segment.options);
    let warning_color = color_of(&segment.options, "warning_color");
    let critical_color = color_of(&segment.options, "critical_color");
    let warning_bold = match flag_of(&segment.options, "warning_bold") {
        Some(b) => b,
        None => false,
    };
    let critical_bold = match flag_of(&segment.options, "critical_bold") {
        Some(b) => b,
        None => true,
    };
    let mut lines: Vec<StyledLine> = Vec::new();
    lines.push(
        line_of_two(
            in_settings && field == FieldSelection::WarningThreshold,
            labelled("├─ Warning Threshold: ", decimal(warning).as_str(), "%"),
        ),
    );
    lines.push(
        line_of_two(
            in_settings && field == FieldSelection::CriticalThreshold,
            labelled("├─ Critical Threshold: ", decimal(critical).as_str(), "%"),
        ),
    );
    lines.push(
        line_of_three(
            in_settings && field == FieldSelection::WarningColor,
            labelled(
                "├─ Warning Color: ",
                describe_threshold_color(&warning_color).as_str(),
                " ",
            ),
            swatch_span(renderer_of(&warning_color)),
        ),
    );
    lines.push(
        line_of_three(
            in_settings && field == FieldSelection::CriticalColor,
            labelled(
                "├─ Critical Color: ",
                describe_threshold_color(&critical_color).as_str(),
                " ",
            ),
            swatch_span(renderer_of(&critical_color)),
        ),
    );
    lines.push(
        line_of_two(
            in_settings && field == FieldSelection::WarningBold,
            raw_span(join2("├─ Warning Bold: ", check_box_of(warning_bold))),
        ),
    );
    lines.push(
        line_of_two(
            in_settings && field == FieldSelection::CriticalBold,
            raw_span(join2("├─ Critical Bold: ", check_box_of(critical_bold))),
        ),
    );
    proof {
        let want = threshold_lines(segment@, panel, field);
        assert(lines@.len() == 6);
        assert(want.len() == 6);
        assert(lines@[0]@ == want[0]);
        assert(lines@[1]@ == want[1]);
        assert(lines@[2]@ == want[2]);
        assert(lines@[3]@ == want[3]);
        assert(lines@[4]@ == want[4]);
        assert(lines@[5]@ == want[5]);
    }
    assert(text_view(lines@) =~= threshold_lines(segment@, panel, field));
    lines
}

impl SettingsComponent {
    /// The settings panel.
    pub fn new() -> (r: Self) {
        SettingsComponent
    }

    /// The panel for the segment at `selected_segment`: its fields line by
    /// line, the one under the cursor marked, and the border highlighted
    /// while the panel has the focus.
    pub fn render(
        &self,
        config: &Config,
        selected_segment: usize,
        selected_panel: &Panel,
        selected_field: &FieldSelection,
    ) -> (panel: SettingsPanel)
        ensures
            text_view(panel.lines@) == settings_text(
                config@,
                selected_segment as nat,
                *selected_panel,
                *selected_field,
            ),
            panel.focused == (*selected_panel == Panel::Settings),
    {
        let focused = *selected_panel == Panel::Settings;
        let mut lines: Vec<StyledLine> = Vec::new();
        if selected_segment < config.segments.len() {
            let segment = &config.segments[selected_segment];
            assert(segments_view(config.segments@)[selected_segment as int] == segment@);
            render_base(config.style.mode, segment, *selected_panel, *selected_field, &mut lines);
            let ghost base = text_view(lines@);
            let ghost mut middle = Seq::<Seq<StyledSpanView>>::empty();
            if segment.id == SegmentId::Usage5Hour || segment.id == SegmentId::Usage7Day {
                let mut extra = render_thresholds(segment, *selected_panel, *selected_field);
                proof {
                    middle = text_view(extra@);
                }
                lines.append(&mut extra);
                assert(text_view(lines@) =~= base + middle);
            } else {
                assert(text_view(lines@) =~= base + middle);
            }
            let count = segment.options.len();
            let last = line_of_two(
                focused && *selected_field == FieldSelection::Options,
                labelled("└─ Options: ", decimal(count as u64).as_str(), " items"),
            );
            lines.push(last);
            assert(text_view(lines@) =~= base + middle.push(last@));
        } else {
            let mut only: Vec<StyledSpan> = Vec::new();
            only.push(raw_span(owned("No segment selected")));
            let line = StyledLine { spans: only };
            assert(line@ =~= seq![raw("No segment selected"@)]);
            lines.push(line);
            assert(text_view(lines@) =~= seq![seq![raw("No segment selected"@)]]);
        }
        SettingsPanel { lines, focused }
    }
}

} // verus!
