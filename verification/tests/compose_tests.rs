use ccometixline::config::{
    AnsiColor, ColorConfig, Config, IconConfig, SegmentConfig, SegmentId, StyleConfig, StyleMode,
    TextStyleConfig,
};
use ccometixline::engine::compose::{compose, compose_unit, RenderUnit};
use ccometixline::engine::segments::color_utils::TerminalColor;
use ccometixline::engine::segments::SegmentData;
use ccometixline::engine::spans::SpanStyle;
use ccometixline::engine::statusline::{paint, paint_unit, render_flat_line, StatusLineGenerator};
use ccometixline::engine::style::EffectiveStyle;
use ccometixline::string_map::StringMap;

const ESC: &str = "\u{1b}[";

fn seg(id: SegmentId, enabled: bool, colors: ColorConfig, bold: bool) -> SegmentConfig {
    SegmentConfig {
        id,
        enabled,
        icon: IconConfig { plain: "P".to_string(), nerd_font: "N".to_string() },
        colors,
        styles: TextStyleConfig { text_bold: bold },
        options: StringMap::new(),
    }
}

fn content(primary: &str, secondary: &str) -> SegmentData {
    SegmentData {
        primary: primary.to_string(),
        secondary: secondary.to_string(),
        metadata: StringMap::new(),
    }
}

fn colors(icon: Option<AnsiColor>, text: Option<AnsiColor>, background: Option<AnsiColor>) -> ColorConfig {
    ColorConfig { icon, text, background }
}

fn generator(mode: StyleMode, separator: &str) -> StatusLineGenerator {
    StatusLineGenerator::new(Config {
        style: StyleConfig { mode, separator: separator.to_string() },
        segments: Vec::new(),
        theme: "default".to_string(),
    })
}

fn two_segments() -> Vec<(SegmentConfig, SegmentData)> {
    vec![
        (
            seg(SegmentId::Directory, true, colors(Some(AnsiColor::Color16 { c16: 11 }), Some(AnsiColor::Color16 { c16: 10 }), None), false),
            content("0123456789", ""),
        ),
        (
            seg(SegmentId::Git, true, colors(Some(AnsiColor::Color16 { c16: 12 }), Some(AnsiColor::Color16 { c16: 12 }), None), false),
            content("master", "✓"),
        ),
    ]
}

#[test]
fn unit_width_counts_icon_space_and_text() {
    let c = seg(SegmentId::Directory, true, colors(None, None, None), false);
    let u = compose_unit(StyleMode::Plain, &c, &content("0123456789", ""));
    assert_eq!(u.icon, "P");
    assert_eq!(u.text, "0123456789");
    assert_eq!(u.width, 12);
    let u = compose_unit(StyleMode::NerdFont, &c, &content("master", "✓"));
    assert_eq!(u.icon, "N");
    assert_eq!(u.text, "master ✓");
    assert_eq!(u.width, 10);
    let u = compose_unit(StyleMode::Powerline, &c, &content("", ""));
    assert_eq!(u.icon, "N");
    assert_eq!(u.text, "");
    assert_eq!(u.width, 2);
}

#[test]
fn unit_width_counts_code_points() {
    let mut c = seg(SegmentId::Model, true, colors(None, None, None), false);
    c.icon.plain = "🤖".to_string();
    let u = compose_unit(StyleMode::Plain, &c, &content("é→", "日本"));
    assert_eq!(u.text, "é→ 日本");
    assert_eq!(u.width, 1 + 1 + 5);
}

#[test]
fn compose_keeps_order_and_skips_disabled() {
    let segments = vec![
        (seg(SegmentId::Git, true, colors(None, None, None), false), content("a", "")),
        (seg(SegmentId::Model, false, colors(None, None, None), false), content("b", "")),
        (seg(SegmentId::Cost, true, colors(None, None, None), false), content("c", "")),
        (seg(SegmentId::Directory, true, colors(None, None, None), false), content("d", "")),
    ];
    let units = compose(StyleMode::Plain, &segments);
    let kinds: Vec<SegmentId> = units.iter().map(|u| u.id).collect();
    assert_eq!(kinds, vec![SegmentId::Git, SegmentId::Cost, SegmentId::Directory]);
    let texts: Vec<&str> = units.iter().map(|u| u.text.as_str()).collect();
    assert_eq!(texts, vec!["a", "c", "d"]);
    assert_eq!(compose(StyleMode::Plain, &Vec::new()).len(), 0);
}

#[test]
fn reordering_segments_reorders_units() {
    let mut segments = two_segments();
    let first: Vec<SegmentId> = compose(StyleMode::Plain, &segments).iter().map(|u| u.id).collect();
    assert_eq!(first, vec![SegmentId::Directory, SegmentId::Git]);
    segments.reverse();
    let second: Vec<SegmentId> = compose(StyleMode::Plain, &segments).iter().map(|u| u.id).collect();
    assert_eq!(second, vec![SegmentId::Git, SegmentId::Directory]);
}

#[test]
fn paint_writes_escape_sequences() {
    assert_eq!(paint("x", None, None, false), "x");
    assert_eq!(paint("x", None, None, true), format!("{ESC}1mx{ESC}0m"));
    assert_eq!(paint("x", Some(AnsiColor::Color16 { c16: 0 }), None, false), format!("{ESC}30mx{ESC}0m"));
    assert_eq!(paint("x", Some(AnsiColor::Color16 { c16: 7 }), None, false), format!("{ESC}37mx{ESC}0m"));
    assert_eq!(paint("x", Some(AnsiColor::Color16 { c16: 8 }), None, false), format!("{ESC}90mx{ESC}0m"));
    assert_eq!(paint("x", Some(AnsiColor::Color16 { c16: 15 }), None, false), format!("{ESC}97mx{ESC}0m"));
    assert_eq!(paint("x", Some(AnsiColor::Color16 { c16: 16 }), None, false), format!("{ESC}37mx{ESC}0m"));
    assert_eq!(paint("x", Some(AnsiColor::Color256 { c256: 208 }), None, false), format!("{ESC}38;5;208mx{ESC}0m"));
    assert_eq!(
        paint("x", Some(AnsiColor::Rgb { r: 1, g: 20, b: 255 }), None, false),
        format!("{ESC}38;2;1;20;255mx{ESC}0m")
    );
    assert_eq!(paint("x", None, Some(AnsiColor::Color16 { c16: 1 }), false), format!("{ESC}41mx{ESC}0m"));
    assert_eq!(paint("x", None, Some(AnsiColor::Color16 { c16: 9 }), false), format!("{ESC}101mx{ESC}0m"));
    assert_eq!(paint("x", None, Some(AnsiColor::Color16 { c16: 200 }), false), format!("{ESC}47mx{ESC}0m"));
    assert_eq!(paint("x", None, Some(AnsiColor::Color256 { c256: 68 }), false), format!("{ESC}48;5;68mx{ESC}0m"));
    assert_eq!(
        paint("x", None, Some(AnsiColor::Rgb { r: 45, g: 45, b: 45 }), false),
        format!("{ESC}48;2;45;45;45mx{ESC}0m")
    );
    assert_eq!(
        paint("x", Some(AnsiColor::Color16 { c16: 2 }), Some(AnsiColor::Color16 { c16: 4 }), true),
        format!("{ESC}1m{ESC}32m{ESC}44mx{ESC}0m")
    );
}

#[test]
fn paint_unit_colours_icon_and_text_apart() {
    let u = RenderUnit {
        id: SegmentId::Directory,
        icon: "I".to_string(),
        text: "dir".to_string(),
        style: EffectiveStyle {
            icon_color: AnsiColor::Color16 { c16: 11 },
            text_color: AnsiColor::Color16 { c16: 10 },
            background_color: None,
            bold: true,
        },
        width: 5,
    };
    assert_eq!(paint_unit(&u), format!("{ESC}93mI{ESC}0m{ESC}1m{ESC}92m dir{ESC}0m"));
}

#[test]
fn flat_line_plain_joins_with_separator() {
    let g = generator(StyleMode::Plain, " ");
    let line = g.generate(two_segments());
    assert_eq!(
        line,
        format!("{ESC}93mP{ESC}0m{ESC}92m 0123456789{ESC}0m {ESC}94mP{ESC}0m{ESC}94m master ✓{ESC}0m")
    );
    let g = generator(StyleMode::NerdFont, " | ");
    let line = g.generate(two_segments());
    assert_eq!(
        line,
        format!("{ESC}93mN{ESC}0m{ESC}92m 0123456789{ESC}0m | {ESC}94mN{ESC}0m{ESC}94m master ✓{ESC}0m")
    );
}

#[test]
fn flat_line_plain_keeps_background_behind_own_text() {
    let g = generator(StyleMode::Plain, " ");
    let segments = vec![
        (seg(SegmentId::Model, true, colors(None, None, Some(AnsiColor::Color16 { c16: 4 })), false), content("a", "")),
        (seg(SegmentId::Git, true, colors(None, None, None), false), content("b", "")),
    ];
    assert_eq!(
        g.generate(segments),
        format!("{ESC}37m{ESC}44mP{ESC}0m{ESC}37m{ESC}44m a{ESC}0m {ESC}37mP{ESC}0m{ESC}37m b{ESC}0m")
    );
}

#[test]
fn flat_line_of_nothing_is_empty() {
    assert_eq!(generator(StyleMode::Plain, " ").generate(Vec::new()), "");
    assert_eq!(generator(StyleMode::Powerline, " ").generate(Vec::new()), "");
    let disabled = vec![(seg(SegmentId::Git, false, colors(None, None, None), false), content("b", ""))];
    assert_eq!(generator(StyleMode::Powerline, " ").generate(disabled), "");
}

#[test]
fn flat_line_of_one_unit_has_no_separator() {
    let one = vec![(seg(SegmentId::Git, true, colors(None, None, None), false), content("b", ""))];
    assert_eq!(
        generator(StyleMode::Plain, " | ").generate(one),
        format!("{ESC}37mP{ESC}0m{ESC}37m b{ESC}0m")
    );
}

#[test]
fn flat_line_powerline_bleeds_backgrounds() {
    let g = generator(StyleMode::Powerline, " | ");
    let red = AnsiColor::Color16 { c16: 1 };
    let dark = AnsiColor::Rgb { r: 45, g: 45, b: 45 };
    let segments = vec![
        (seg(SegmentId::Model, true, colors(None, None, Some(red)), false), content("a", "")),
        (seg(SegmentId::Git, true, colors(None, None, Some(dark)), false), content("b", "")),
        (seg(SegmentId::Cost, true, colors(None, None, None), false), content("c", "")),
    ];
    let want = format!(
        "{ESC}37m{ESC}41mN{ESC}0m{ESC}37m{ESC}41m a{ESC}0m\
         {ESC}31m{ESC}48;2;45;45;45m\u{e0b0}{ESC}0m\
         {ESC}37m{ESC}48;2;45;45;45mN{ESC}0m{ESC}37m{ESC}48;2;45;45;45m b{ESC}0m\
         {ESC}38;2;45;45;45m\u{e0b0}{ESC}0m\
         {ESC}37mN{ESC}0m{ESC}37m c{ESC}0m\
         \u{e0b0}"
    );
    assert_eq!(g.generate(segments), want);
}

#[test]
fn flat_line_powerline_closes_with_a_triangle() {
    let g = generator(StyleMode::Powerline, " ");
    let blue = AnsiColor::Color256 { c256: 68 };
    let one = vec![(seg(SegmentId::Git, true, colors(None, None, Some(blue)), true), content("b", ""))];
    assert_eq!(
        g.generate(one),
        format!("{ESC}37m{ESC}48;5;68mN{ESC}0m{ESC}1m{ESC}37m{ESC}48;5;68m b{ESC}0m{ESC}38;5;68m\u{e0b0}{ESC}0m")
    );
}

#[test]
fn composing_twice_gives_the_same_output() {
    let g = generator(StyleMode::Powerline, " ");
    assert_eq!(g.generate(two_segments()), g.generate(two_segments()));
    let a = g.generate_for_tui_preview(two_segments(), 15);
    let b = g.generate_for_tui_preview(two_segments(), 15);
    assert_eq!(a.lines.len(), b.lines.len());
    for (x, y) in a.lines.iter().zip(b.lines.iter()) {
        assert_eq!(x.spans.len(), y.spans.len());
        for (s, t) in x.spans.iter().zip(y.spans.iter()) {
            assert_eq!(s.content, t.content);
            assert_eq!(s.style, t.style);
        }
    }
    let p = generator(StyleMode::Plain, " ");
    assert_eq!(p.generate(two_segments()), p.generate(two_segments()));
}

#[test]
fn render_flat_line_matches_generate() {
    let g = generator(StyleMode::Plain, "  ");
    let units = g.compose(&two_segments());
    let style = StyleConfig { mode: StyleMode::Plain, separator: "  ".to_string() };
    assert_eq!(render_flat_line(&style, &units), g.generate(two_segments()));
}

#[test]
fn preview_wraps_the_same_units() {
    let g = generator(StyleMode::Plain, " ");
    assert_eq!(g.separator_width(), 1);
    let wide = g.generate_for_tui_preview(two_segments(), 30);
    assert_eq!(wide.lines.len(), 1);
    let texts: Vec<&str> = wide.lines[0].spans.iter().map(|s| s.content.as_str()).collect();
    assert_eq!(texts, vec!["P", " 0123456789", " ", "P", " master ✓"]);
    assert_eq!(
        wide.lines[0].spans[0].style,
        SpanStyle { fg: Some(TerminalColor::LightYellow), bg: None, bold: false }
    );
    assert_eq!(
        wide.lines[0].spans[1].style,
        SpanStyle { fg: Some(TerminalColor::LightGreen), bg: None, bold: false }
    );
    assert_eq!(wide.lines[0].spans[2].style, SpanStyle { fg: None, bg: None, bold: false });
    let narrow = g.generate_for_tui_preview(two_segments(), 15);
    assert_eq!(narrow.lines.len(), 2);
    let first: Vec<&str> = narrow.lines[0].spans.iter().map(|s| s.content.as_str()).collect();
    let second: Vec<&str> = narrow.lines[1].spans.iter().map(|s| s.content.as_str()).collect();
    assert_eq!(first, vec!["P", " 0123456789"]);
    assert_eq!(second, vec!["P", " master ✓"]);
    assert_eq!(g.generate_for_tui_preview(Vec::new(), 15).lines.len(), 0);
}

#[test]
fn preview_in_powerline_style_draws_triangles() {
    let g = generator(StyleMode::Powerline, " | ");
    assert_eq!(g.separator_width(), 1);
    let red = AnsiColor::Color16 { c16: 1 };
    let segments = vec![
        (seg(SegmentId::Model, true, colors(None, None, Some(red)), false), content("a", "")),
        (seg(SegmentId::Git, true, colors(None, None, None), true), content("b", "")),
    ];
    let p = g.generate_for_tui_preview(segments, 80);
    assert_eq!(p.lines.len(), 1);
    let texts: Vec<&str> = p.lines[0].spans.iter().map(|s| s.content.as_str()).collect();
    assert_eq!(texts, vec!["N", " a", "\u{e0b0}", "N", " b", "\u{e0b0}"]);
    assert_eq!(
        p.lines[0].spans[1].style,
        SpanStyle { fg: Some(TerminalColor::White), bg: Some(TerminalColor::Red), bold: false }
    );
    assert_eq!(p.lines[0].spans[2].style, SpanStyle { fg: Some(TerminalColor::Red), bg: None, bold: false });
    assert_eq!(p.lines[0].spans[4].style, SpanStyle { fg: Some(TerminalColor::White), bg: None, bold: true });
    assert_eq!(p.lines[0].spans[5].style, SpanStyle { fg: None, bg: None, bold: false });
}

#[test]
fn separator_width_counts_characters() {
    assert_eq!(generator(StyleMode::Plain, "").separator_width(), 0);
    assert_eq!(generator(StyleMode::NerdFont, " | ").separator_width(), 3);
    assert_eq!(generator(StyleMode::Plain, "→").separator_width(), 1);
    assert_eq!(generator(StyleMode::Powerline, "-----").separator_width(), 1);
}
