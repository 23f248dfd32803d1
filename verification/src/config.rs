//! The configuration snapshot that the rendering pipeline consumes: the
//! ordered segments, each with its icons, colours, boldness and options, and
//! the global style.

use crate::string_map::{Duplicate, StringMap};
use vstd::prelude::*;

verus! {

/// A colour in one of three depths.
#[derive(Clone, Copy, Debug, PartialEq, Eq, Structural)]
pub enum AnsiColor {
    /// One of the sixteen named palette slots.
    Color16 { c16: u8 },
    /// One of the 256 indexed palette slots.
    Color256 { c256: u8 },
    /// A 24-bit colour.
    Rgb { r: u8, g: u8, b: u8 },
}

/// The kinds of segment.
#[derive(Clone, Copy, Debug, PartialEq, Eq, Hash, Structural)]
pub enum SegmentId {
    Model,
    Directory,
    Git,
    ContextWindow,
    Usage,
    Usage5Hour,
    Usage7Day,
    Cost,
    Session,
    OutputStyle,
    Update,
}

/// Which icons are shown and how segments are joined.
#[derive(Clone, Copy, Debug, PartialEq, Eq, Structural)]
pub enum StyleMode {
    /// Plain glyphs, segments joined by the separator text.
    Plain,
    /// Nerd-font glyphs, segments joined by the separator text.
    NerdFont,
    /// Nerd-font glyphs, segments joined by triangles that carry the
    /// background of one segment over into the next.
    Powerline,
}

/// The numeric members that a JSON object has under the five keys by which
/// colours are written.
///
/// A member that is missing, or that is no unsigned integer, is `None`.
#[derive(Clone, Copy, Debug, PartialEq, Eq, Structural)]
pub struct ColorObject {
    pub c16: Option<u64>,
    pub c256: Option<u64>,
    pub r: Option<u64>,
    pub g: Option<u64>,
    pub b: Option<u64>,
}

/// The value of one configuration option.
#[derive(Debug)]
pub enum OptionValue {
    /// An unsigned integer.
    Number(u64),
    /// A string.
    Text(String),
    /// A boolean.
    Flag(bool),
    /// A nested object, read as a colour.
    Object(ColorObject),
    /// Any other JSON value, kept as the text that writes it.
    Raw(String),
}

/// What an [`OptionValue`] holds.
pub enum OptionValueView {
    Number(u64),
    Text(Seq<char>),
    Flag(bool),
    Object(ColorObject),
    Raw(Seq<char>),
}

impl View for OptionValue {
    type V = OptionValueView;

    open spec fn view(&self) -> OptionValueView {
        match self {
            OptionValue::Number(n) => OptionValueView::Number(*n),
            OptionValue::Text(t) => OptionValueView::Text(t@),
            OptionValue::Flag(b) => OptionValueView::Flag(*b),
            OptionValue::Object(o) => OptionValueView::Object(*o),
            OptionValue::Raw(t) => OptionValueView::Raw(t@),
        }
    }
}

impl Duplicate for OptionValue {
    fn duplicate(&self) -> (r: Self) {
        match self {
            OptionValue::Number(n) => OptionValue::Number(*n),
            OptionValue::Text(t) => OptionValue::Text(t.clone()),
            OptionValue::Flag(b) => OptionValue::Flag(*b),
            OptionValue::Object(o) => OptionValue::Object(*o),
            OptionValue::Raw(t) => OptionValue::Raw(t.clone()),
        }
    }
}

impl Clone for OptionValue {
    fn clone(&self) -> (r: Self)
        ensures
            r@ == self@,
    {
        self.duplicate()
    }
}

/// The options of one segment, by name.
pub type Options = StringMap<OptionValue>;

/// The icon of a segment in each glyph set.
#[derive(Debug)]
pub struct IconConfig {
    /// Shown in plain mode.
    pub plain: String,
    /// Shown in nerd-font and powerline mode.
    pub nerd_font: String,
}

/// What an [`IconConfig`] holds.
pub struct IconConfigView {
    pub plain: Seq<char>,
    pub nerd_font: Seq<char>,
}

impl View for IconConfig {
    type V = IconConfigView;

    open spec fn view(&self) -> IconConfigView {
        IconConfigView { plain: self.plain@, nerd_font: self.nerd_font@ }
    }
}

impl Clone for IconConfig {
    fn clone(&self) -> (r: Self)
        ensures
            r@ == self@,
    {
        IconConfig { plain: self.plain.clone(), nerd_font: self.nerd_font.clone() }
    }
}

/// The base colours of a segment; `None` leaves the default in place.
#[derive(Clone, Copy, Debug, PartialEq, Eq, Structural)]
pub struct ColorConfig {
    pub icon: Option<AnsiColor>,
    pub text: Option<AnsiColor>,
    pub background: Option<AnsiColor>,
}

/// The base text attributes of a segment.
#[derive(Clone, Copy, Debug, PartialEq, Eq, Structural)]
pub struct TextStyleConfig {
    pub text_bold: bool,
}

impl Default for TextStyleConfig {
    fn default() -> (r: Self)
        ensures
            !r.text_bold,
    {
        TextStyleConfig { text_bold: false }
    }
}

/// The configuration of one segment.
pub struct SegmentConfig {
    pub id: SegmentId,
    pub enabled: bool,
    pub icon: IconConfig,
    pub colors: ColorConfig,
    pub styles: TextStyleConfig,
    pub options: Options,
}

/// What a [`SegmentConfig`] holds.
pub struct SegmentConfigView {
    pub id: SegmentId,
    pub enabled: bool,
    pub icon: IconConfigView,
    pub colors: ColorConfig,
    pub styles: TextStyleConfig,
    pub options: Map<Seq<char>, OptionValueView>,
}

impl View for SegmentConfig {
    type V = SegmentConfigView;

    open spec fn view(&self) -> SegmentConfigView {
        SegmentConfigView {
            id: self.id,
            enabled: self.enabled,
            icon: self.icon@,
            colors: self.colors,
            styles: self.styles,
            options: self.options@,
        }
    }
}

impl Clone for SegmentConfig {
    fn clone(&self) -> (r: Self)
        ensures
            r@ == self@,
    {
        SegmentConfig {
            id: self.id,
            enabled: self.enabled,
            icon: self.icon.clone(),
            colors: self.colors,
            styles: self.styles,
            options: self.options.clone(),
        }
    }
}

/// The global style: the glyph set and the text between segments.
#[derive(Debug)]
pub struct StyleConfig {
    pub mode: StyleMode,
    pub separator: String,
}

/// What a [`StyleConfig`] holds.
pub struct StyleConfigView {
    pub mode: StyleMode,
    pub separator: Seq<char>,
}

impl View for StyleConfig {
    type V = StyleConfigView;

    open spec fn view(&self) -> StyleConfigView {
        StyleConfigView { mode: self.mode, separator: self.separator@ }
    }
}

impl Clone for StyleConfig {
    fn clone(&self) -> (r: Self)
        ensures
            r@ == self@,
    {
        StyleConfig { mode: self.mode, separator: self.separator.clone() }
    }
}

/// What a run of segment configurations holds, one by one.
pub open spec fn segments_view(segments: Seq<SegmentConfig>) -> Seq<SegmentConfigView> {
    Seq::new(segments.len(), |i: int| segments[i]@)
}

/// A copy of `segments`.
pub fn clone_segments(segments: &Vec<SegmentConfig>) -> (r: Vec<SegmentConfig>)
    ensures
        segments_view(r@) == segments_view(segments@),
{
    let mut r: Vec<SegmentConfig> = Vec::new();
    let mut i: usize = 0;
    while i < segments.len()
        invariant
            i <= segments@.len(),
            r@.len() == i,
            forall|j: int| 0 <= j < i ==> (#[trigger] r@[j])@ == segments@[j]@,
        decreases segments@.len() - i,
    {
        r.push(segments[i].clone());
        i += 1;
    }
    assert(segments_view(r@) =~= segments_view(segments@));
    r
}

/// A configuration snapshot: the global style, the segments in render order
/// and the name of the theme they came from.
pub struct Config {
    pub style: StyleConfig,
    pub segments: Vec<SegmentConfig>,
    pub theme: String,
}

/// What a [`Config`] holds.
pub struct ConfigView {
    pub style: StyleConfigView,
    pub segments: Seq<SegmentConfigView>,
    pub theme: Seq<char>,
}

impl View for Config {
    type V = ConfigView;

    open spec fn view(&self) -> ConfigView {
        ConfigView {
            style: self.style@,
            segments: segments_view(self.segments@),
            theme: self.theme@,
        }
    }
}

impl Clone for Config {
    fn clone(&self) -> (r: Self)
        ensures
            r@ == self@,
    {
        Config {
            style: self.style.clone(),
            segments: clone_segments(&self.segments),
            theme: self.theme.clone(),
        }
    }
}

} // verus!
