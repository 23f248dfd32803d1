//! The two renderings of a pass: the flat line that goes to the host prompt,
//! with terminal escape sequences inline, and the wrapped preview, as lines
//! of styled spans. Both are built from the same units.

use super::compose::{compose, composed, segments_data_view, units_view, RenderUnit, RenderUnitView};
use super::segments::color_utils::{ansi_color_to_ratatui, renderer_color};
use super::segments::SegmentData;
use super::spans::{
    spans_view, text_view, SpanStyle, StyledLine, StyledSpan, StyledSpanView,
};
use super::wrap::{lines_view, unit_width, wrap, wrapped};
use crate::config::{
    AnsiColor, Config, ConfigView, SegmentConfig, StyleConfig, StyleConfigView, StyleMode,
};
use crate::text::{char_count, decimal, decimal_digits, join2, owned};
use vstd::prelude::*;
use vstd::string::*;

verus! {

/// The escape sequence that sets graphic attributes.
pub open spec fn sgr(params: Seq<char>) -> Seq<char> {
    "\x1b["@ + params + "m"@
}

/// The palette slot that is drawn for `c16`: itself within the palette,
/// white outside it.
pub open spec fn palette_slot(c16: u8) -> nat {
    if c16 < 16 {
        c16 as nat
    } else {
        7
    }
}

/// The attribute parameters that select `color`, counted from `base` for
/// the standard colours and from `base + 60` for the bright ones, and behind
/// `extended` for the other two depths.
pub open spec fn color_params(color: AnsiColor, base: nat, extended: Seq<char>) -> Seq<char> {
    match color {
        AnsiColor::Color16 { c16 } => decimal_digits(
            if palette_slot(c16) < 8 {
                base + palette_slot(c16)
            } else {
                (base + 52 + palette_slot(c16)) as nat
            },
        ),
        AnsiColor::Color256 { c256 } => extended + ";5;"@ + decimal_digits(c256 as nat),
        AnsiColor::Rgb { r, g, b } => extended + ";2;"@ + decimal_digits(r as nat) + ";"@
            + decimal_digits(g as nat) + ";"@ + decimal_digits(b as nat),
    }
}

/// The escape sequence that sets the foreground colour, or nothing.
pub open spec fn foreground_code(color: Option<AnsiColor>) -> Seq<char> {
    match color {
        Some(c) => sgr(color_params(c, 30, "38"@)),
        None => Seq::empty(),
    }
}

/// The escape sequence that sets the background colour, or nothing.
pub open spec fn background_code(color: Option<AnsiColor>) -> Seq<char> {
    match color {
        Some(c) => sgr(color_params(c, 40, "48"@)),
        None => Seq::empty(),
    }
}

/// The escape sequence that switches bold on, or nothing.
pub open spec fn bold_code(bold: bool) -> Seq<char> {
    if bold {
        sgr("1"@)
    } else {
        Seq::empty()
    }
}

/// `text` with its attributes: the codes that set them, the text, and the
/// code that resets them. Text without attributes stands as it is.
pub open spec fn painted(
    text: Seq<char>,
    foreground: Option<AnsiColor>,
    background: Option<AnsiColor>,
    bold: bool,
) -> Seq<char> {
    if !bold && foreground is None && background is None {
        text
    } else {
        bold_code(bold) + foreground_code(foreground) + background_code(background) + text + sgr(
            "0"@,
        )
    }
}

/// One unit as it stands in the flat line: the icon in the icon colour, then
/// a space and the text in the text colour, bold where the style says so,
/// both on the unit's own background.
pub open spec fn painted_unit(unit: RenderUnitView) -> Seq<char> {
    painted(unit.icon, Some(unit.style.icon_color), unit.style.background_color, false) + painted(
        " "@ + unit.text,
        Some(unit.style.text_color),
        unit.style.background_color,
        unit.style.bold,
    )
}

/// The triangle that joins two segments in powerline style.
pub open spec fn triangle() -> Seq<char> {
    "\u{e0b0}"@
}

/// The triangle between a segment with background `left` and one with
/// background `right`: drawn in the left background on the right one.
pub open spec fn painted_triangle(left: Option<AnsiColor>, right: Option<AnsiColor>) -> Seq<char> {
    painted(triangle(), left, right, false)
}

/// The flat line in plain style: the units with the separator between each
/// two neighbours.
pub open spec fn plain_line(units: Seq<RenderUnitView>, separator: Seq<char>) -> Seq<char>
    decreases units.len(),
{
    if units.len() == 0 {
        Seq::empty()
    } else if units.len() == 1 {
        painted_unit(units[0])
    } else {
        plain_line(units.drop_last(), separator) + separator + painted_unit(units.last())
    }
}

/// The units in powerline style with a triangle between each two
/// neighbours, without the closing triangle.
pub open spec fn powerline_body(units: Seq<RenderUnitView>) -> Seq<char>
    decreases units.len(),
{
    if units.len() == 0 {
        Seq::empty()
    } else if units.len() == 1 {
        painted_unit(units[0])
    } else {
        powerline_body(units.drop_last()) + painted_triangle(
            units[units.len() - 2].style.background_color,
            units.last().style.background_color,
        ) + painted_unit(units.last())
    }
}

/// The flat line in powerline style: no triangle before the first unit, one
/// between neighbours, and one behind the last unit that leads over to the
/// terminal's own background.
pub open spec fn powerline_line(units: Seq<RenderUnitView>) -> Seq<char> {
    if units.len() == 0 {
        Seq::empty()
    } else {
        powerline_body(units) + painted_triangle(units.last().style.background_color, None)
    }
}

/// The flat line of the units in the given style.
pub open spec fn flat_line(style: StyleConfigView, units: Seq<RenderUnitView>) -> Seq<char> {
    if style.mode == StyleMode::Powerline {
        powerline_line(units)
    } else {
        plain_line(units, style.separator)
    }
}

/// The display width of what stands between two neighbours on a line: one
/// column for the triangle in powerline style, else one for each character
/// of the separator.
pub open spec fn separator_width(style: StyleConfigView) -> nat {
    if style.mode == StyleMode::Powerline {
        1
    } else {
        style.separator.len()
    }
}

fn sgr_code(params: &str) -> (r: String)
    ensures
        r@ == sgr(params@),
{
    let mut r = owned("\x1b[");
    r.append(params);
    r.append("m");
    r
}

fn color_code(color: &AnsiColor, base: u64, extended: &str) -> (r: String)
    requires
        base <= 100,
    ensures
        r@ == sgr(color_params(*color, base as nat, extended@)),
{
    let params = match color {
        AnsiColor::Color16 { c16 } => {
            let slot: u64 = if *c16 < 16 {
                *c16 as u64
            } else {
                7
            };
            if slot < 8 {
                decimal(base + slot)
            } else {
                decimal(base + 52 + slot)
            }
        },
        AnsiColor::Color256 { c256 } => {
            let mut p = owned(extended);
            p.append(";5;");
            p.append(decimal(*c256 as u64).as_str());
            p
        },
        AnsiColor::Rgb { r, g, b } => {
            let mut p = owned(extended);
            p.append(";2;");
            p.append(decimal(*r as u64).as_str());
            p.append(";");
            p.append(decimal(*g as u64).as_str());
            p.append(";");
            p.append(decimal(*b as u64).as_str());
            p
        },
    };
    sgr_code(params.as_str())
}

/// Writes `text` with its attributes.
pub fn paint(
    text: &str,
    foreground: Option<AnsiColor>,
    background: Option<AnsiColor>,
    bold: bool,
) -> (r: String)
    ensures
        r@ == painted(text@, foreground, background, bold),
{
    if !bold && foreground.is_none() && background.is_none() {
        return owned(text);
    }
    let mut r = if bold {
        sgr_code("1")
    } else {
        String::new()
    };
    match foreground {
        Some(c) => {
            r.append(color_code(&c, 30, "38").as_str());
        },
        None => {
            assert(r@ + Seq::<char>::empty() =~= r@);
        },
    }
    match background {
        Some(c) => {
            r.append(color_code(&c, 40, "48").as_str());
        },
        None => {
            assert(r@ + Seq::<char>::empty() =~= r@);
        },
    }
    r.append(text);
    r.append(sgr_code("0").as_str());
    r
}

/// Writes one unit as it stands in the flat line.
pub fn paint_unit(unit: &RenderUnit) -> (r: String)
    ensures
        r@ == painted_unit(unit@),
{
    let mut r = paint(
        unit.icon.as_str(),
        Some(unit.style.icon_color),
        unit.style.background_color,
        false,
    );
    let spaced = join2(" ", unit.text.as_str());
    r.append(
        paint(
            spaced.as_str(),
            Some(unit.style.text_color),
            unit.style.background_color,
            unit.style.bold,
        ).as_str(),
    );
    r
}

/// Writes the flat line of the units in the given style.
pub fn render_flat_line(style: &StyleConfig, units: &Vec<RenderUnit>) -> (line: String)
    ensures
        line@ == flat_line(style@, units_view(units@)),
{
    let ghost all = units_view(units@);
    let powerline = match style.mode {
        StyleMode::Powerline => true,
        _ => false,
    };
    let mut line = String::new();
    let mut i: usize = 0;
    while i < units.len()
        invariant
            i <= units@.len(),
            all == units_view(units@),
            powerline == (style@.mode == StyleMode::Powerline),
            line@ == if powerline {
                powerline_body(all.take(i as int))
            } else {
                plain_line(all.take(i as int), style@.separator)
            },
        decreases units@.len() - i,
    {
        proof {
            assert(all.take(i + 1).drop_last() =~= all.take(i as int));
            assert(all.take(i + 1).last() == units@[i as int]@);
            assert(all.take(i + 1)[0] == units@[0]@);
            if i > 0 {
                assert(all.take(i + 1)[i - 1] == units@[i - 1]@);
            }
        }
        let painted_text = paint_unit(&units[i]);
        if i == 0 {
            line = painted_text;
        } else {
            if powerline {
                let arrow = paint(
                    "\u{e0b0}",
                    units[i - 1].style.background_color,
                    units[i].style.background_color,
                    false,
                );
                line.append(arrow.as_str());
            } else {
                line.append(style.separator.as_str());
            }
            line.append(painted_text.as_str());
        }
        i += 1;
    }
    proof {
        assert(all.take(units@.len() as int) =~= all);
    }
    if powerline && units.len() > 0 {
        let last = units.len() - 1;
        assert(all.last() == units@[last as int]@);
        let arrow = paint("\u{e0b0}", units[last].style.background_color, None, false);
        line.append(arrow.as_str());
    }
    line
}

/// The look of a span that is drawn in the given colours.
pub open spec fn span_style(
    foreground: Option<AnsiColor>,
    background: Option<AnsiColor>,
    bold: bool,
) -> SpanStyle {
    SpanStyle {
        fg: match foreground {
            Some(c) => Some(renderer_color(c)),
            None => None,
        },
        bg: match background {
            Some(c) => Some(renderer_color(c)),
            None => None,
        },
        bold,
    }
}

/// The two spans of one unit: the icon, and a space and the text.
pub open spec fn unit_spans(unit: RenderUnitView) -> Seq<StyledSpanView> {
    seq![
        StyledSpanView {
            content: unit.icon,
            style: span_style(Some(unit.style.icon_color), unit.style.background_color, false),
        },
        StyledSpanView {
            content: " "@ + unit.text,
            style: span_style(
                Some(unit.style.text_color),
                unit.style.background_color,
                unit.style.bold,
            ),
        },
    ]
}

/// The span that stands between the unit `left` and its neighbour `right`
/// on one line.
pub open spec fn joint_span(
    style: StyleConfigView,
    left: RenderUnitView,
    right: RenderUnitView,
) -> StyledSpanView {
    if style.mode == StyleMode::Powerline {
        StyledSpanView {
            content: triangle(),
            style: span_style(left.style.background_color, right.style.background_color, false),
        }
    } else {
        StyledSpanView { content: style.separator, style: span_style(None, None, false) }
    }
}

/// The spans of the units of one line with the joints between them, without
/// the closing triangle of powerline style.
pub open spec fn line_body_spans(
    style: StyleConfigView,
    line: Seq<RenderUnitView>,
) -> Seq<StyledSpanView>
    decreases line.len(),
{
    if line.len() == 0 {
        Seq::empty()
    } else if line.len() == 1 {
        unit_spans(line[0])
    } else {
        line_body_spans(style, line.drop_last()).push(
            joint_span(style, line[line.len() - 2], line.last()),
        ) + unit_spans(line.last())
    }
}

/// The spans of one preview line. In powerline style a closing triangle
/// follows the last unit of the line.
pub open spec fn line_spans(
    style: StyleConfigView,
    line: Seq<RenderUnitView>,
) -> Seq<StyledSpanView> {
    if style.mode == StyleMode::Powerline && line.len() > 0 {
        line_body_spans(style, line).push(
            StyledSpanView {
                content: triangle(),
                style: span_style(line.last().style.background_color, None, false),
            },
        )
    } else {
        line_body_spans(style, line)
    }
}

/// The preview of the units at the given width: the units wrapped into
/// lines, each line as its spans.
pub open spec fn preview_text(
    style: StyleConfigView,
    units: Seq<RenderUnitView>,
    width: nat,
) -> Seq<Seq<StyledSpanView>> {
    let lines = wrapped(units, unit_width(), separator_width(style), width);
    Seq::new(lines.len(), |i: int| line_spans(style, lines[i]))
}

fn style_of(
    foreground: Option<AnsiColor>,
    background: Option<AnsiColor>,
    bold: bool,
) -> (r: SpanStyle)
    ensures
        r == span_style(foreground, background, bold),
{
    SpanStyle {
        fg: match foreground {
            Some(c) => Some(ansi_color_to_ratatui(&c)),
            None => None,
        },
        bg: match background {
            Some(c) => Some(ansi_color_to_ratatui(&c)),
            None => None,
        },
        bold,
    }
}

/// Builds the spans of one preview line.
pub fn render_line_spans(style: &StyleConfig, line: &Vec<RenderUnit>) -> (r: StyledLine)
    ensures
        r@ == line_spans(style@, units_view(line@)),
{
    let ghost all = units_view(line@);
    let powerline = match style.mode {
        StyleMode::Powerline => true,
        _ => false,
    };
    let mut spans: Vec<StyledSpan> = Vec::new();
    let mut i: usize = 0;
    while i < line.len()
        invariant
            i <= line@.len(),
            all == units_view(line@),
            powerline == (style@.mode == StyleMode::Powerline),
            spans_view(spans@) == line_body_spans(style@, all.take(i as int)),
        decreases line@.len() - i,
    {
        let ghost before = spans_view(spans@);
        proof {
            assert(all.take(i + 1).drop_last() =~= all.take(i as int));
            assert(all.take(i + 1).last() == line@[i as int]@);
            assert(all.take(i + 1)[0] == line@[0]@);
            if i > 0 {
                assert(all.take(i + 1)[i - 1] == line@[i - 1]@);
            }
        }
        let unit = &line[i];
        if i > 0 {
            if powerline {
                spans.push(
                    StyledSpan {
                        content: owned("\u{e0b0}"),
                        style: style_of(
                            line[i - 1].style.background_color,
                            unit.style.background_color,
                            false,
                        ),
                    },
                );
            } else {
                spans.push(
                    StyledSpan {
                        content: style.separator.clone(),
                        style: style_of(None, None, false),
                    },
                );
            }
        }
        let ghost joined = spans_view(spans@);
        spans.push(
            StyledSpan {
                content: unit.icon.clone(),
                style: style_of(Some(unit.style.icon_color), unit.style.background_color, false),
            },
        );
        spans.push(
            StyledSpan {
                content: join2(" ", unit.text.as_str()),
                style: style_of(
                    Some(unit.style.text_color),
                    unit.style.background_color,
                    unit.style.bold,
                ),
            },
        );
        proof {
            assert(spans_view(spans@) =~= joined + unit_spans(unit@));
            if i > 0 {
                assert(joined =~= before.push(
                    joint_span(style@, line@[i - 1]@, unit@),
                ));
            } else {
                assert(joined =~= before);
                assert(before + unit_spans(unit@) =~= unit_spans(unit@));
            }
        }
        i += 1;
    }
    proof {
        assert(all.take(line@.len() as int) =~= all);
    }
    if powerline && line.len() > 0 {
        let last = line.len() - 1;
        let ghost before = spans_view(spans@);
        assert(all.last() == line@[last as int]@);
        spans.push(
            StyledSpan {
                content: owned("\u{e0b0}"),
                style: style_of(line[last].style.background_color, None, false),
            },
        );
        assert(spans_view(spans@) =~= before.push(
            StyledSpanView {
                content: triangle(),
                style: span_style(all.last().style.background_color, None, false),
            },
        ));
    }
    StyledLine { spans }
}

/// The wrapped preview of one render pass.
pub struct PreviewResult {
    /// The lines, top to bottom.
    pub lines: Vec<StyledLine>,
}

/// Renders one pass: composes the segments of the pass by a configuration
/// and writes them as a flat line or as a wrapped preview.
pub struct StatusLineGenerator {
    config: Config,
}

impl View for StatusLineGenerator {
    type V = ConfigView;

    closed spec fn view(&self) -> ConfigView {
        self.config@
    }
}

impl StatusLineGenerator {
    /// A generator that renders by `config`.
    pub fn new(config: Config) -> (r: Self)
        ensures
            r@ == config@,
    {
        StatusLineGenerator { config }
    }

    /// The number of columns between two neighbours on a line.
    pub fn separator_width(&self) -> (r: usize)
        ensures
            r == separator_width(self@.style),
    {
        match self.config.style.mode {
            StyleMode::Powerline => 1,
            _ => char_count(self.config.style.separator.as_str()),
        }
    }

    /// The units of the pass: one for each enabled segment, in order.
    pub fn compose(&self, segments: &Vec<(SegmentConfig, SegmentData)>) -> (units: Vec<RenderUnit>)
        ensures
            units_view(units@) == composed(self@.style.mode, segments_data_view(segments@)),
    {
        compose(self.config.style.mode, segments)
    }

    /// The flat line of the pass, with escape sequences inline. It is empty
    /// where no segment is enabled.
    pub fn generate(&self, segments: Vec<(SegmentConfig, SegmentData)>) -> (line: String)
        ensures
            line@ == flat_line(
                self@.style,
                composed(self@.style.mode, segments_data_view(segments@)),
            ),
    {
        let units = compose(self.config.style.mode, &segments);
        render_flat_line(&self.config.style, &units)
    }

    /// The preview of the pass, wrapped to `width` columns: the same units
    /// as in the flat line, never split, each line as its spans.
    pub fn generate_for_tui_preview(
        &self,
        segments: Vec<(SegmentConfig, SegmentData)>,
        width: u16,
    ) -> (preview: PreviewResult)
        ensures
            text_view(preview.lines@) == preview_text(
                self@.style,
                composed(self@.style.mode, segments_data_view(segments@)),
                width as nat,
            ),
    {
        let units = compose(self.config.style.mode, &segments);
        let wrapped_lines = wrap(&units, self.separator_width(), width as usize);
        let ghost expected = wrapped(
            units_view(units@),
            unit_width(),
            separator_width(self@.style),
            width as nat,
        );
        let mut lines: Vec<StyledLine> = Vec::new();
        let mut i: usize = 0;
        while i < wrapped_lines.len()
            invariant
                i <= wrapped_lines@.len(),
                lines@.len() == i,
                lines_view(wrapped_lines@) == expected,
                forall|j: int|
                    0 <= j < i ==> (#[trigger] lines@[j])@ == line_spans(
                        self.config.style@,
                        expected[j],
                    ),
            decreases wrapped_lines@.len() - i,
        {
            assert(lines_view(wrapped_lines@)[i as int] == units_view(wrapped_lines@[i as int]@));
            lines.push(render_line_spans(&self.config.style, &wrapped_lines[i]));
            i += 1;
        }
        assert(text_view(lines@) =~= preview_text(
            self@.style,
            units_view(units@),
            width as nat,
        ));
        PreviewResult { lines }
    }
}

/// Rendering depends on the configuration and the segments alone: two passes
/// over the same segments under the same configuration write the same flat
/// line and wrap into the same lines.
pub proof fn rendering_is_repeatable(
    config: ConfigView,
    segments: Seq<(SegmentConfig, SegmentData)>,
    again: Seq<(SegmentConfig, SegmentData)>,
    width: nat,
)
    requires
        segments_data_view(segments) == segments_data_view(again),
    ensures
        flat_line(config.style, composed(config.style.mode, segments_data_view(segments)))
            == flat_line(config.style, composed(config.style.mode, segments_data_view(again))),
        preview_text(
            config.style,
            composed(config.style.mode, segments_data_view(segments)),
            width,
        ) == preview_text(
            config.style,
            composed(config.style.mode, segments_data_view(again)),
            width,
        ),
{
}

} // verus!
