//! Composition: from the ordered segments of a render pass to the units that
//! are laid out, one per enabled segment.

use super::segments::{SegmentData, SegmentDataView};
use super::style::{effective_style, resolve, EffectiveStyle};
use crate::config::{SegmentConfig, SegmentConfigView, SegmentId, StyleMode};
use vstd::prelude::*;
use vstd::string::*;

verus! {

/// One segment as it is laid out: its icon, its text, its style and its
/// display width. A unit is never split.
pub struct RenderUnit {
    pub id: SegmentId,
    pub icon: String,
    pub text: String,
    pub style: EffectiveStyle,
    pub width: usize,
}

/// What a [`RenderUnit`] holds.
pub struct RenderUnitView {
    pub id: SegmentId,
    pub icon: Seq<char>,
    pub text: Seq<char>,
    pub style: EffectiveStyle,
    pub width: nat,
}

impl View for RenderUnit {
    type V = RenderUnitView;

    open spec fn view(&self) -> RenderUnitView {
        RenderUnitView {
            id: self.id,
            icon: self.icon@,
            text: self.text@,
            style: self.style,
            width: self.width as nat,
        }
    }
}

impl Clone for RenderUnit {
    fn clone(&self) -> (r: Self)
        ensures
            r@ == self@,
    {
        RenderUnit {
            id: self.id,
            icon: self.icon.clone(),
            text: self.text.clone(),
            style: self.style,
            width: self.width,
        }
    }
}

/// What a run of units holds, one by one.
pub open spec fn units_view(units: Seq<RenderUnit>) -> Seq<RenderUnitView> {
    Seq::new(units.len(), |i: int| units[i]@)
}

/// What a run of configured segments with their content holds, one by one.
pub open spec fn segments_data_view(
    segments: Seq<(SegmentConfig, SegmentData)>,
) -> Seq<(SegmentConfigView, SegmentDataView)> {
    Seq::new(segments.len(), |i: int| (segments[i].0@, segments[i].1@))
}

/// The icon of a segment in the given mode: the plain glyph in plain mode,
/// the nerd-font glyph in the other two.
pub open spec fn mode_icon(mode: StyleMode, config: SegmentConfigView) -> Seq<char> {
    match mode {
        StyleMode::Plain => config.icon.plain,
        _ => config.icon.nerd_font,
    }
}

/// The text of a unit: the primary text and, where there is one, a space
/// and the secondary text.
pub open spec fn unit_text(data: SegmentDataView) -> Seq<char> {
    if data.secondary.len() == 0 {
        data.primary
    } else {
        data.primary + " "@ + data.secondary
    }
}

/// The unit of one segment: icon and text, the resolved style, and as width
/// one column for each character of the icon, of the space after it and of
/// the text.
pub open spec fn unit_of(
    mode: StyleMode,
    config: SegmentConfigView,
    data: SegmentDataView,
) -> RenderUnitView {
    RenderUnitView {
        id: config.id,
        icon: mode_icon(mode, config),
        text: unit_text(data),
        style: effective_style(config, data),
        width: mode_icon(mode, config).len() + 1 + unit_text(data).len(),
    }
}

/// The units of a render pass: one for each enabled segment, in the order of
/// the segments.
pub open spec fn composed(
    mode: StyleMode,
    segments: Seq<(SegmentConfigView, SegmentDataView)>,
) -> Seq<RenderUnitView>
    decreases segments.len(),
{
    if segments.len() == 0 {
        Seq::empty()
    } else {
        let before = composed(mode, segments.drop_last());
        if segments.last().0.enabled {
            before.push(unit_of(mode, segments.last().0, segments.last().1))
        } else {
            before
        }
    }
}

/// Composition keeps the order of the segments and adds nothing: the kinds
/// of the units are the kinds of the enabled segments, in order.
pub proof fn composed_keeps_order(
    mode: StyleMode,
    segments: Seq<(SegmentConfigView, SegmentDataView)>,
)
    ensures
        composed(mode, segments).len() <= segments.len(),
        composed(mode, segments).map_values(|u: RenderUnitView| u.id) == segments.filter(
            |s: (SegmentConfigView, SegmentDataView)| s.0.enabled,
        ).map_values(|s: (SegmentConfigView, SegmentDataView)| s.0.id),
    decreases segments.len(),
{
    let enabled = |s: (SegmentConfigView, SegmentDataView)| s.0.enabled;
    let kind = |s: (SegmentConfigView, SegmentDataView)| s.0.id;
    let unit_kind = |u: RenderUnitView| u.id;
    reveal(Seq::filter);
    if segments.len() == 0 {
        assert(composed(mode, segments).map_values(unit_kind) =~= segments.filter(
            enabled,
        ).map_values(kind));
    } else {
        composed_keeps_order(mode, segments.drop_last());
        let before = composed(mode, segments.drop_last());
        if segments.last().0.enabled {
            assert(segments.filter(enabled) == segments.drop_last().filter(enabled).push(
                segments.last(),
            ));
            assert(composed(mode, segments).map_values(unit_kind) =~= before.map_values(
                unit_kind,
            ).push(segments.last().0.id));
            assert(segments.filter(enabled).map_values(kind) =~= segments.drop_last().filter(
                enabled,
            ).map_values(kind).push(segments.last().0.id));
        } else {
            assert(segments.filter(enabled) == segments.drop_last().filter(enabled));
        }
    }
}

/// Builds the unit of one segment.
pub fn compose_unit(
    mode: StyleMode,
    config: &SegmentConfig,
    data: &SegmentData,
) -> (unit: RenderUnit)
    ensures
        unit@ == unit_of(mode, config@, data@),
{
    let icon = match mode {
        StyleMode::Plain => config.icon.plain.clone(),
        _ => config.icon.nerd_font.clone(),
    };
    let mut text = data.primary.clone();
    if !data.secondary.as_str().is_empty() {
        text.append(" ");
        text.append(data.secondary.as_str());
    }
    let mut plain = icon.clone();
    plain.append(" ");
    plain.append(text.as_str());
    let width = plain.as_str().unicode_len();
    proof {
        reveal_strlit(" ");
        assert(" "@.len() == 1);
    }
    RenderUnit { id: config.id, icon, text, style: resolve(config, data), width }
}

/// Composes the units of a render pass from its segments. Disabled segments
/// are left out; the others keep their order.
pub fn compose(
    mode: StyleMode,
    segments: &Vec<(SegmentConfig, SegmentData)>,
) -> (units: Vec<RenderUnit>)
    ensures
        units_view(units@) == composed(mode, segments_data_view(segments@)),
{
    let mut units: Vec<RenderUnit> = Vec::new();
    let mut i: usize = 0;
    while i < segments.len()
        invariant
            i <= segments@.len(),
            units_view(units@) == composed(mode, segments_data_view(segments@).take(i as int)),
        decreases segments@.len() - i,
    {
        let ghost all = segments_data_view(segments@);
        let ghost before = units_view(units@);
        proof {
            assert(all.take(i + 1).drop_last() =~= all.take(i as int));
            assert(all.take(i + 1).last() == all[i as int]);
        }
        if segments[i].0.enabled {
            let unit = compose_unit(mode, &segments[i].0, &segments[i].1);
            units.push(unit);
            assert(units_view(units@) =~= before.push(unit@));
        }
        i += 1;
    }
    proof {
        let all = segments_data_view(segments@);
        assert(all.take(segments@.len() as int) =~= all);
    }
    units
}

} // verus!
