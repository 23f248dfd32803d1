use ccometixline::config::{AnsiColor, ColorObject};
use ccometixline::engine::segments::color_utils::{
    ansi_color_to_ratatui, c16_to_ratatui_color, color_from_object, color_to_object,
    deserialize_ansi_color_from_json, serialize_ansi_color_to_json, TerminalColor,
};

#[test]
fn palette_maps_every_slot() {
    assert_eq!(c16_to_ratatui_color(0), TerminalColor::Black);
    assert_eq!(c16_to_ratatui_color(7), TerminalColor::White);
    assert_eq!(c16_to_ratatui_color(8), TerminalColor::DarkGray);
    assert_eq!(c16_to_ratatui_color(11), TerminalColor::LightYellow);
    assert_eq!(c16_to_ratatui_color(15), TerminalColor::Gray);
}

#[test]
fn palette_falls_back_to_white() {
    assert_eq!(c16_to_ratatui_color(16), TerminalColor::White);
    assert_eq!(c16_to_ratatui_color(255), TerminalColor::White);
}

#[test]
fn serialize_writes_compact_json() {
    assert_eq!(serialize_ansi_color_to_json(&AnsiColor::Color16 { c16: 11 }), "{\"c16\":11}");
    assert_eq!(serialize_ansi_color_to_json(&AnsiColor::Color256 { c256: 208 }), "{\"c256\":208}");
    assert_eq!(
        serialize_ansi_color_to_json(&AnsiColor::Rgb { r: 1, g: 2, b: 3 }),
        "{\"b\":3,\"g\":2,\"r\":1}"
    );
}

#[test]
fn text_round_trip() {
    for c in [
        AnsiColor::Color16 { c16: 0 },
        AnsiColor::Color16 { c16: 15 },
        AnsiColor::Color256 { c256: 255 },
        AnsiColor::Rgb { r: 45, g: 0, b: 255 },
    ] {
        let text = serialize_ansi_color_to_json(&c);
        assert_eq!(deserialize_ansi_color_from_json(&text), Some(c));
        assert_eq!(color_from_object(&color_to_object(&c)), Some(c));
    }
}

#[test]
fn malformed_text_is_no_color() {
    assert_eq!(deserialize_ansi_color_from_json(""), None);
    assert_eq!(deserialize_ansi_color_from_json("{}"), None);
    assert_eq!(deserialize_ansi_color_from_json("[1,2]"), None);
    assert_eq!(deserialize_ansi_color_from_json("{\"c16\":\"red\"}"), None);
    assert_eq!(deserialize_ansi_color_from_json("{\"c16\":300}"), None);
    assert_eq!(deserialize_ansi_color_from_json("{\"r\":1,\"g\":2}"), None);
    assert_eq!(
        color_from_object(&ColorObject { c16: None, c256: None, r: None, g: None, b: None }),
        None
    );
}

#[test]
fn renderer_passes_other_depths_through() {
    assert_eq!(ansi_color_to_ratatui(&AnsiColor::Color256 { c256: 99 }), TerminalColor::Indexed(99));
    assert_eq!(ansi_color_to_ratatui(&AnsiColor::Rgb { r: 1, g: 2, b: 3 }), TerminalColor::Rgb(1, 2, 3));
    assert_eq!(ansi_color_to_ratatui(&AnsiColor::Color16 { c16: 2 }), TerminalColor::Green);
}

#[test]
fn every_palette_and_indexed_color_round_trips() {
    for n in 0..=255u8 {
        for c in [AnsiColor::Color16 { c16: n }, AnsiColor::Color256 { c256: n }] {
            assert_eq!(color_from_object(&color_to_object(&c)), Some(c));
            assert_eq!(deserialize_ansi_color_from_json(&serialize_ansi_color_to_json(&c)), Some(c));
        }
    }
}

#[test]
fn rgb_colors_round_trip() {
    for r in [0u8, 1, 127, 254, 255] {
        for g in [0u8, 9, 10, 99, 100, 255] {
            for b in 0..=255u8 {
                let c = AnsiColor::Rgb { r, g, b };
                assert_eq!(color_from_object(&color_to_object(&c)), Some(c));
                assert_eq!(
                    deserialize_ansi_color_from_json(&serialize_ansi_color_to_json(&c)),
                    Some(c)
                );
            }
        }
    }
}

#[test]
fn object_has_exactly_the_members_of_its_shape() {
    assert_eq!(
        color_to_object(&AnsiColor::Color16 { c16: 11 }),
        ColorObject { c16: Some(11), c256: None, r: None, g: None, b: None }
    );
    assert_eq!(
        color_to_object(&AnsiColor::Color256 { c256: 208 }),
        ColorObject { c16: None, c256: Some(208), r: None, g: None, b: None }
    );
    assert_eq!(
        color_to_object(&AnsiColor::Rgb { r: 1, g: 2, b: 3 }),
        ColorObject { c16: None, c256: None, r: Some(1), g: Some(2), b: Some(3) }
    );
}

#[test]
fn members_out_of_range_count_as_missing() {
    let object = |c16, c256, r, g, b| ColorObject { c16, c256, r, g, b };
    assert_eq!(color_from_object(&object(Some(256), None, None, None, None)), None);
    assert_eq!(color_from_object(&object(None, Some(u64::MAX), None, None, None)), None);
    assert_eq!(color_from_object(&object(None, None, Some(1), Some(2), Some(256))), None);
    assert_eq!(
        color_from_object(&object(Some(255), None, None, None, None)),
        Some(AnsiColor::Color16 { c16: 255 })
    );
    assert_eq!(
        color_from_object(&object(Some(5), Some(300), None, None, None)),
        Some(AnsiColor::Color16 { c16: 5 })
    );
}

#[test]
fn indexed_member_is_read_first() {
    let object = |c16, c256, r, g, b| ColorObject { c16, c256, r, g, b };
    assert_eq!(
        color_from_object(&object(Some(1), Some(2), Some(3), Some(4), Some(5))),
        Some(AnsiColor::Color256 { c256: 2 })
    );
    assert_eq!(
        color_from_object(&object(Some(1), None, Some(3), Some(4), Some(5))),
        Some(AnsiColor::Color16 { c16: 1 })
    );
    assert_eq!(
        deserialize_ansi_color_from_json("{\"c16\":1,\"c256\":2,\"name\":\"x\"}"),
        Some(AnsiColor::Color256 { c256: 2 })
    );
    assert_eq!(
        deserialize_ansi_color_from_json(" { \"b\" : 3, \"g\" : 2, \"r\" : 1 } "),
        Some(AnsiColor::Rgb { r: 1, g: 2, b: 3 })
    );
}

#[test]
fn numbers_that_are_no_unsigned_integers_are_no_members() {
    assert_eq!(deserialize_ansi_color_from_json("{\"c16\":-1}"), None);
    assert_eq!(deserialize_ansi_color_from_json("{\"c16\":1.5}"), None);
    assert_eq!(deserialize_ansi_color_from_json("{\"c16\":null}"), None);
    assert_eq!(deserialize_ansi_color_from_json("{\"c16\":true}"), None);
    assert_eq!(deserialize_ansi_color_from_json("{\"c16\":\"11\"}"), None);
    assert_eq!(deserialize_ansi_color_from_json("11"), None);
    assert_eq!(deserialize_ansi_color_from_json("{\"c16\":11"), None);
}
