//! Threshold-driven style overrides: from a utilization value and the
//! options of a segment to an optional colour and an optional boldness.

use super::color_utils::{color_from_object, object_color};
use crate::config::{
    AnsiColor, Config, ConfigView, OptionValue, OptionValueView, Options, SegmentConfig,
    SegmentConfigView, SegmentId, segments_view,
};
use vstd::prelude::*;

verus! {

/// The warning threshold of a segment that configures none.
pub const DEFAULT_WARNING_THRESHOLD: u64 = 60;

/// The critical threshold of a segment that configures none.
pub const DEFAULT_CRITICAL_THRESHOLD: u64 = 80;

/// The number stored under `key`, or `default` where the option is missing
/// or no number.
pub open spec fn number_option(
    options: Map<Seq<char>, OptionValueView>,
    key: Seq<char>,
    default: u64,
) -> u64 {
    if options.contains_key(key) {
        match options[key] {
            OptionValueView::Number(n) => n,
            _ => default,
        }
    } else {
        default
    }
}

/// The colour stored under `key`; none where the option is missing or no
/// colour object of a known shape.
pub open spec fn color_option(
    options: Map<Seq<char>, OptionValueView>,
    key: Seq<char>,
) -> Option<AnsiColor> {
    if options.contains_key(key) {
        match options[key] {
            OptionValueView::Object(object) => object_color(object),
            _ => None,
        }
    } else {
        None
    }
}

/// The boolean stored under `key`; none where the option is missing or no
/// boolean.
pub open spec fn flag_option(
    options: Map<Seq<char>, OptionValueView>,
    key: Seq<char>,
) -> Option<bool> {
    if options.contains_key(key) {
        match options[key] {
            OptionValueView::Flag(b) => Some(b),
            _ => None,
        }
    } else {
        None
    }
}

/// The utilization from which the warning style applies.
pub open spec fn warning_threshold(options: Map<Seq<char>, OptionValueView>) -> u64 {
    number_option(options, "warning_threshold"@, DEFAULT_WARNING_THRESHOLD)
}

/// The utilization from which the critical style applies.
pub open spec fn critical_threshold(options: Map<Seq<char>, OptionValueView>) -> u64 {
    number_option(options, "critical_threshold"@, DEFAULT_CRITICAL_THRESHOLD)
}

/// The colour override at `utilization`: the critical colour from the
/// critical threshold on, else the warning colour from the warning threshold
/// on, else none. A branch whose colour is not configured gives none; it
/// does not fall through to the other branch.
pub open spec fn threshold_color(
    options: Map<Seq<char>, OptionValueView>,
    utilization: u64,
) -> Option<AnsiColor> {
    if utilization >= critical_threshold(options) {
        color_option(options, "critical_color"@)
    } else if utilization >= warning_threshold(options) {
        color_option(options, "warning_color"@)
    } else {
        None
    }
}

/// The boldness override at `utilization`, by the same rule as the colour.
pub open spec fn threshold_bold(
    options: Map<Seq<char>, OptionValueView>,
    utilization: u64,
) -> Option<bool> {
    if utilization >= critical_threshold(options) {
        flag_option(options, "critical_bold"@)
    } else if utilization >= warning_threshold(options) {
        flag_option(options, "warning_bold"@)
    } else {
        None
    }
}

/// Reads a numeric option, with a default.
pub fn number_or(options: &Options, key: &str, default: u64) -> (r: u64)
    ensures
        r == number_option(options@, key@, default),
{
    match options.get(key) {
        Some(OptionValue::Number(n)) => *n,
        _ => default,
    }
}

/// Reads a colour option.
pub fn color_of(options: &Options, key: &str) -> (r: Option<AnsiColor>)
    ensures
        r == color_option(options@, key@),
{
    match options.get(key) {
        Some(OptionValue::Object(object)) => color_from_object(object),
        _ => None,
    }
}

/// Reads a boolean option.
pub fn flag_of(options: &Options, key: &str) -> (r: Option<bool>)
    ensures
        r == flag_option(options@, key@),
{
    match options.get(key) {
        Some(OptionValue::Flag(b)) => Some(*b),
        _ => None,
    }
}

/// The warning and the critical threshold that `options` configure.
pub fn thresholds_from_options(options: &Options) -> (r: (u64, u64))
    ensures
        r.0 == warning_threshold(options@),
        r.1 == critical_threshold(options@),
{
    (
        number_or(options, "warning_threshold", DEFAULT_WARNING_THRESHOLD),
        number_or(options, "critical_threshold", DEFAULT_CRITICAL_THRESHOLD),
    )
}

/// The colour override that `options` give at `utilization`.
pub fn color_for_utilization(options: &Options, utilization: u64) -> (r: Option<AnsiColor>)
    ensures
        r == threshold_color(options@, utilization),
{
    let (warning, critical) = thresholds_from_options(options);
    if utilization >= critical {
        color_of(options, "critical_color")
    } else if utilization >= warning {
        color_of(options, "warning_color")
    } else {
        None
    }
}

/// The boldness override that `options` give at `utilization`.
pub fn bold_for_utilization(options: &Options, utilization: u64) -> (r: Option<bool>)
    ensures
        r == threshold_bold(options@, utilization),
{
    let (warning, critical) = thresholds_from_options(options);
    if utilization >= critical {
        flag_of(options, "critical_bold")
    } else if utilization >= warning {
        flag_of(options, "warning_bold")
    } else {
        None
    }
}

/// Below the warning threshold nothing is overridden, whatever colours are
/// configured, unless the critical threshold lies lower still and a
/// critical override is configured.
pub proof fn below_warning_is_no_override(
    options: Map<Seq<char>, OptionValueView>,
    utilization: u64,
)
    requires
        utilization < warning_threshold(options),
        utilization < critical_threshold(options) || (color_option(options, "critical_color"@)
            is None && flag_option(options, "critical_bold"@) is None),
    ensures
        threshold_color(options, utilization) is None,
        threshold_bold(options, utilization) is None,
{
}

/// From the critical threshold on, the critical override is what comes
/// back, wherever the warning threshold lies.
pub proof fn critical_dominates_warning(options: Map<Seq<char>, OptionValueView>, utilization: u64)
    requires
        utilization >= critical_threshold(options),
    ensures
        threshold_color(options, utilization) == color_option(options, "critical_color"@),
        threshold_bold(options, utilization) == flag_option(options, "critical_bold"@),
{
}

/// The first position in `segments` whose kind is `id`.
pub open spec fn segment_position(segments: Seq<SegmentConfigView>, id: SegmentId) -> Option<int>
    decreases segments.len(),
{
    if segments.len() == 0 {
        None
    } else if segments[0].id == id {
        Some(0)
    } else {
        match segment_position(segments.drop_first(), id) {
            Some(i) => Some(i + 1),
            None => None,
        }
    }
}

/// Where `segment_position` points, and what lies before it.
pub proof fn segment_position_is_first(segments: Seq<SegmentConfigView>, id: SegmentId)
    ensures
        match segment_position(segments, id) {
            Some(i) => 0 <= i < segments.len() && segments[i].id == id && forall|j: int|
                0 <= j < i ==> (#[trigger] segments[j]).id != id,
            None => forall|j: int| 0 <= j < segments.len() ==> (#[trigger] segments[j]).id != id,
        },
    decreases segments.len(),
{
    if segments.len() > 0 && segments[0].id != id {
        let rest = segments.drop_first();
        segment_position_is_first(rest, id);
        match segment_position(rest, id) {
            Some(i) => {
                assert forall|j: int| 0 <= j < i + 1 implies (#[trigger] segments[j]).id != id by {
                    if j > 0 {
                        assert(rest[j - 1].id != id);
                    }
                }
            },
            None => {
                assert forall|j: int| 0 <= j < segments.len() implies (#[trigger] segments[j]).id
                    != id by {
                    if j > 0 {
                        assert(rest[j - 1].id != id);
                    }
                }
            },
        }
    }
}

/// A position with the wanted kind and none before it is the first one.
pub proof fn segment_position_unique(segments: Seq<SegmentConfigView>, id: SegmentId, i: int)
    requires
        0 <= i < segments.len(),
        segments[i].id == id,
        forall|j: int| 0 <= j < i ==> (#[trigger] segments[j]).id != id,
    ensures
        segment_position(segments, id) == Some(i),
{
    segment_position_is_first(segments, id);
}

/// Finds the first segment of kind `id`.
pub fn find_segment(segments: &Vec<SegmentConfig>, id: SegmentId) -> (r: Option<usize>)
    ensures
        match r {
            Some(i) => segment_position(segments_view(segments@), id) == Some(i as int) && i
                < segments@.len(),
            None => segment_position(segments_view(segments@), id) is None,
        },
{
    let mut i: usize = 0;
    while i < segments.len()
        invariant
            i <= segments@.len(),
            forall|j: int| 0 <= j < i ==> (#[trigger] segments_view(segments@)[j]).id != id,
        decreases segments@.len() - i,
    {
        if segments[i].id == id {
            proof {
                segment_position_unique(segments_view(segments@), id, i as int);
            }
            return Some(i);
        }
        i += 1;
    }
    proof {
        segment_position_is_first(segments_view(segments@), id);
    }
    None
}

/// A configuration that is read from its store at most once.
///
/// The cache starts empty. The owner reads the configuration from the store
/// when `get_cached_config` finds the cache empty, and hands the outcome to
/// `fill`. The cache stays as filled until it is invalidated.
pub struct ConfigCache {
    slot: Option<Config>,
}

/// What an optional configuration holds.
pub open spec fn optional_config_view(config: Option<Config>) -> Option<ConfigView> {
    match config {
        Some(c) => Some(c@),
        None => None,
    }
}

impl View for ConfigCache {
    type V = Option<ConfigView>;

    closed spec fn view(&self) -> Option<ConfigView> {
        optional_config_view(self.slot)
    }
}

impl ConfigCache {
    /// The empty cache.
    pub fn new() -> (r: Self)
        ensures
            r@ is None,
    {
        ConfigCache { slot: None }
    }

    /// Takes the outcome of reading the store: a configuration, or `None`
    /// where reading failed. A cache that holds a configuration keeps it and
    /// drops the outcome; an empty cache takes it.
    pub fn fill(&mut self, loaded: Option<Config>)
        ensures
            final(self)@ == if old(self)@ is Some {
                old(self)@
            } else {
                optional_config_view(loaded)
            },
    {
        if self.slot.is_none() {
            self.slot = loaded;
        }
    }

    /// The cached configuration, where there is one.
    pub fn peek(&self) -> (r: Option<&Config>)
        ensures
            match r {
                Some(c) => self@ == Some(c@),
                None => self@ is None,
            },
    {
        self.slot.as_ref()
    }
}

/// A copy of the cached configuration; `None` while the cache is empty.
pub fn get_cached_config(cache: &ConfigCache) -> (r: Option<Config>)
    ensures
        optional_config_view(r) == cache@,
{
    match cache.peek() {
        Some(config) => Some(config.clone()),
        None => None,
    }
}

/// Empties the cache, so that the configuration is read from the store again
/// when it is next wanted.
pub fn invalidate_config_cache(cache: &mut ConfigCache)
    ensures
        final(cache)@ is None,
{
    *cache = ConfigCache::new();
}

/// The options of the first segment of kind `id`, where a configuration is
/// at hand and has such a segment.
pub open spec fn segment_options(
    config: Option<ConfigView>,
    id: SegmentId,
) -> Option<Map<Seq<char>, OptionValueView>> {
    match config {
        Some(c) => match segment_position(c.segments, id) {
            Some(i) => Some(c.segments[i].options),
            None => None,
        },
        None => None,
    }
}

fn options_of(config: Option<&Config>, id: SegmentId) -> (r: Option<&Options>)
    ensures
        match r {
            Some(o) => segment_options(optional_ref_view(config), id) == Some(o@),
            None => segment_options(optional_ref_view(config), id) is None,
        },
{
    match config {
        Some(c) => match find_segment(&c.segments, id) {
            Some(i) => Some(&c.segments[i].options),
            None => None,
        },
        None => None,
    }
}

/// What an optional borrowed configuration holds.
pub open spec fn optional_ref_view(config: Option<&Config>) -> Option<ConfigView> {
    match config {
        Some(c) => Some(c@),
        None => None,
    }
}

/// The thresholds that `config` gives the segment of kind `id`.
pub open spec fn segment_thresholds(
    config: Option<ConfigView>,
    id: SegmentId,
) -> Option<(u64, u64)> {
    match segment_options(config, id) {
        Some(o) => Some((warning_threshold(o), critical_threshold(o))),
        None => None,
    }
}

/// The colour override that `config` gives the segment of kind `id` at
/// `utilization`; none without a configuration or without such a segment.
pub open spec fn segment_color(
    config: Option<ConfigView>,
    id: SegmentId,
    utilization: u64,
) -> Option<AnsiColor> {
    match segment_options(config, id) {
        Some(o) => threshold_color(o, utilization),
        None => None,
    }
}

/// The boldness override that `config` gives the segment of kind `id` at
/// `utilization`; none without a configuration or without such a segment.
pub open spec fn segment_bold(
    config: Option<ConfigView>,
    id: SegmentId,
    utilization: u64,
) -> Option<bool> {
    match segment_options(config, id) {
        Some(o) => threshold_bold(o, utilization),
        None => None,
    }
}

/// The colour override for a segment of `config`, which may be missing.
pub fn color_in_config(
    config: Option<&Config>,
    segment_id: SegmentId,
    utilization: u64,
) -> (r: Option<AnsiColor>)
    ensures
        r == segment_color(optional_ref_view(config), segment_id, utilization),
{
    match options_of(config, segment_id) {
        Some(options) => color_for_utilization(options, utilization),
        None => None,
    }
}

/// The boldness override for a segment of `config`, which may be missing.
pub fn bold_in_config(
    config: Option<&Config>,
    segment_id: SegmentId,
    utilization: u64,
) -> (r: Option<bool>)
    ensures
        r == segment_bold(optional_ref_view(config), segment_id, utilization),
{
    match options_of(config, segment_id) {
        Some(options) => bold_for_utilization(options, utilization),
        None => None,
    }
}

/// The warning and critical threshold of the segment of kind `segment_id` in
/// the cached configuration.
pub fn get_thresholds_for_segment(
    cache: &ConfigCache,
    segment_id: SegmentId,
) -> (r: Option<(u64, u64)>)
    ensures
        r == segment_thresholds(cache@, segment_id),
{
    match options_of(cache.peek(), segment_id) {
        Some(options) => Some(thresholds_from_options(options)),
        None => None,
    }
}

/// The colour override for the segment of kind `segment_id` at
/// `utilization`, by the cached configuration.
pub fn get_color_for_utilization(
    cache: &ConfigCache,
    segment_id: SegmentId,
    utilization: u64,
) -> (r: Option<AnsiColor>)
    ensures
        r == segment_color(cache@, segment_id, utilization),
{
    color_in_config(cache.peek(), segment_id, utilization)
}

/// The boldness override for the segment of kind `segment_id` at
/// `utilization`, by the cached configuration.
pub fn should_be_bold(
    cache: &ConfigCache,
    segment_id: SegmentId,
    utilization: u64,
) -> (r: Option<bool>)
    ensures
        r == segment_bold(cache@, segment_id, utilization),
{
    bold_in_config(cache.peek(), segment_id, utilization)
}

} // verus!
