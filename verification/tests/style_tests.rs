use ccometixline::config::{
    AnsiColor, ColorConfig, IconConfig, OptionValue, Options, SegmentConfig, SegmentId,
    TextStyleConfig,
};
use ccometixline::engine::segments::color_utils::color_to_object;
use ccometixline::engine::segments::{Metadata, SegmentData};
use ccometixline::engine::style::{parse_bool, parse_utilization, resolve, EffectiveStyle};
use ccometixline::string_map::StringMap;

const WHITE: AnsiColor = AnsiColor::Color16 { c16: 7 };

fn threshold_options() -> Options {
    let mut o: Options = StringMap::new();
    o.insert("warning_threshold".to_string(), OptionValue::Number(60));
    o.insert("critical_threshold".to_string(), OptionValue::Number(80));
    o.insert(
        "warning_color".to_string(),
        OptionValue::Object(color_to_object(&AnsiColor::Color16 { c16: 11 })),
    );
    o.insert(
        "critical_color".to_string(),
        OptionValue::Object(color_to_object(&AnsiColor::Color16 { c16: 9 })),
    );
    o.insert("warning_bold".to_string(), OptionValue::Flag(false));
    o.insert("critical_bold".to_string(), OptionValue::Flag(true));
    o
}

fn style_segment(id: SegmentId, colors: ColorConfig, bold: bool, options: Options) -> SegmentConfig {
    SegmentConfig {
        id,
        enabled: true,
        icon: IconConfig { plain: "p".to_string(), nerd_font: "n".to_string() },
        colors,
        styles: TextStyleConfig { text_bold: bold },
        options,
    }
}

fn data(metadata: Vec<(&str, &str)>) -> SegmentData {
    let mut m: Metadata = StringMap::new();
    for (k, v) in metadata {
        m.insert(k.to_string(), v.to_string());
    }
    SegmentData { primary: "x".to_string(), secondary: String::new(), metadata: m }
}

fn no_colors() -> ColorConfig {
    ColorConfig { icon: None, text: None, background: None }
}

#[test]
fn parse_utilization_reads_whole_part() {
    assert_eq!(parse_utilization("65"), Some(65));
    assert_eq!(parse_utilization("78.2"), Some(78));
    assert_eq!(parse_utilization("0"), Some(0));
    assert_eq!(parse_utilization("0.5"), Some(0));
    assert_eq!(parse_utilization("59.999"), Some(59));
    assert_eq!(parse_utilization("100"), Some(100));
    assert_eq!(parse_utilization("5."), Some(5));
    assert_eq!(parse_utilization("007"), Some(7));
}

#[test]
fn parse_utilization_rejects_other_text() {
    for text in ["", ".", ".5", "-1", "+1", "1e2", "NaN", "inf", " 5", "5 ", "5.5.5", "5,5", "abc", "1..2"] {
        assert_eq!(parse_utilization(text), None, "{:?}", text);
    }
}

#[test]
fn parse_utilization_saturates() {
    assert_eq!(parse_utilization("18446744073709551615"), Some(u64::MAX));
    assert_eq!(parse_utilization("18446744073709551616"), Some(u64::MAX));
    assert_eq!(parse_utilization("99999999999999999999999.5"), Some(u64::MAX));
    assert_eq!(parse_utilization("18446744073709551614"), Some(u64::MAX - 1));
}

#[test]
fn parse_bool_takes_exact_words() {
    assert_eq!(parse_bool("true"), Some(true));
    assert_eq!(parse_bool("false"), Some(false));
    for text in ["", "True", "TRUE", "1", "0", " true", "yes"] {
        assert_eq!(parse_bool(text), None);
    }
}

#[test]
fn default_style_is_white_and_plain() {
    let c = style_segment(SegmentId::Model, no_colors(), false, StringMap::new());
    assert_eq!(
        resolve(&c, &data(vec![])),
        EffectiveStyle { icon_color: WHITE, text_color: WHITE, background_color: None, bold: false }
    );
}

#[test]
fn base_style_is_taken_from_configuration() {
    let colors = ColorConfig {
        icon: Some(AnsiColor::Color16 { c16: 11 }),
        text: Some(AnsiColor::Color256 { c256: 142 }),
        background: Some(AnsiColor::Rgb { r: 1, g: 2, b: 3 }),
    };
    let c = style_segment(SegmentId::Directory, colors, true, StringMap::new());
    assert_eq!(
        resolve(&c, &data(vec![])),
        EffectiveStyle {
            icon_color: AnsiColor::Color16 { c16: 11 },
            text_color: AnsiColor::Color256 { c256: 142 },
            background_color: Some(AnsiColor::Rgb { r: 1, g: 2, b: 3 }),
            bold: true,
        }
    );
}

#[test]
fn threshold_overrides_base_style() {
    let colors = ColorConfig { icon: Some(AnsiColor::Color16 { c16: 14 }), text: Some(AnsiColor::Color16 { c16: 14 }), background: None };
    let c = style_segment(SegmentId::Usage5Hour, colors, false, threshold_options());
    let warning = resolve(&c, &data(vec![("five_hour_utilization", "65")]));
    assert_eq!(warning.text_color, AnsiColor::Color16 { c16: 11 });
    assert_eq!(warning.icon_color, AnsiColor::Color16 { c16: 14 });
    assert!(!warning.bold);
    let critical = resolve(&c, &data(vec![("five_hour_utilization", "85.5")]));
    assert_eq!(critical.text_color, AnsiColor::Color16 { c16: 9 });
    assert!(critical.bold);
    let calm = resolve(&c, &data(vec![("five_hour_utilization", "59.9")]));
    assert_eq!(calm.text_color, AnsiColor::Color16 { c16: 14 });
    assert!(!calm.bold);
}

#[test]
fn threshold_bold_false_overrides_bold_base() {
    let c = style_segment(SegmentId::Usage7Day, no_colors(), true, threshold_options());
    assert!(!resolve(&c, &data(vec![("seven_day_utilization", "70")])).bold);
    assert!(resolve(&c, &data(vec![("seven_day_utilization", "10")])).bold);
}

#[test]
fn utilization_key_depends_on_kind() {
    let o = threshold_options;
    let five = style_segment(SegmentId::Usage5Hour, no_colors(), false, o());
    assert_eq!(resolve(&five, &data(vec![("seven_day_utilization", "90")])).text_color, WHITE);
    let seven = style_segment(SegmentId::Usage7Day, no_colors(), false, o());
    assert_eq!(
        resolve(&seven, &data(vec![("seven_day_utilization", "90")])).text_color,
        AnsiColor::Color16 { c16: 9 }
    );
    let context = style_segment(SegmentId::ContextWindow, no_colors(), false, o());
    assert_eq!(
        resolve(&context, &data(vec![("percentage", "78.2")])).text_color,
        AnsiColor::Color16 { c16: 11 }
    );
    let other = style_segment(SegmentId::Cost, no_colors(), false, o());
    assert_eq!(
        resolve(&other, &data(vec![("utilization", "90")])).text_color,
        AnsiColor::Color16 { c16: 9 }
    );
    assert_eq!(resolve(&other, &data(vec![("percentage", "90")])).text_color, WHITE);
}

#[test]
fn handed_over_color_beats_everything() {
    let colors = ColorConfig { icon: None, text: Some(AnsiColor::Color16 { c16: 2 }), background: None };
    let c = style_segment(SegmentId::Usage5Hour, colors, false, threshold_options());
    let d = data(vec![
        ("five_hour_utilization", "95"),
        ("text_color_override", "{\"c256\":208}"),
        ("text_bold_override", "false"),
    ]);
    let s = resolve(&c, &d);
    assert_eq!(s.text_color, AnsiColor::Color256 { c256: 208 });
    assert!(!s.bold);
}

#[test]
fn handed_over_override_applies_to_every_kind() {
    let c = style_segment(SegmentId::Git, no_colors(), false, StringMap::new());
    let d = data(vec![("text_color_override", "{\"r\":1,\"g\":2,\"b\":3}"), ("text_bold_override", "true")]);
    let s = resolve(&c, &d);
    assert_eq!(s.text_color, AnsiColor::Rgb { r: 1, g: 2, b: 3 });
    assert!(s.bold);
    assert_eq!(s.icon_color, WHITE);
}

#[test]
fn malformed_handed_over_override_falls_through() {
    let c = style_segment(SegmentId::Usage5Hour, no_colors(), false, threshold_options());
    let d = data(vec![
        ("five_hour_utilization", "65"),
        ("text_color_override", "not json"),
        ("text_bold_override", "maybe"),
    ]);
    let s = resolve(&c, &d);
    assert_eq!(s.text_color, AnsiColor::Color16 { c16: 11 });
    assert!(!s.bold);
    let d = data(vec![("five_hour_utilization", "n/a"), ("text_color_override", "{}")]);
    assert_eq!(resolve(&c, &d).text_color, WHITE);
}
