//! The state of the editor and what each command does to it.

use super::components::preview::{content_width, PreviewComponent, DEFAULT_WIDTH};
use super::components::segment_list::{FieldSelection, Panel};
use super::components::settings::{flag_or, segment_display_name, segment_name, SettingsComponent};
use super::events::{command_for, key_command, Command, KeyPress, Popups, ThemeKey};
use crate::config::{
    segments_view, AnsiColor, ColorConfig, Config, ConfigView, IconConfigView, OptionValue,
    OptionValueView, SegmentConfig, SegmentConfigView, SegmentId, StyleConfigView, StyleMode,
    TextStyleConfig,
};
use crate::engine::segments::color_utils::{color_object, color_to_object};
use crate::engine::segments::threshold_utils::{
    critical_threshold, flag_of, thresholds_from_options, warning_threshold,
};
use crate::engine::wrap::{count_lines, text_width, wrapped, wrapped_depends_on_widths};
use crate::text::{char_count, decimal, decimal_digits, join2, owned, str_eq};
use vstd::prelude::*;
use vstd::string::*;

verus! {

/// The editor: the configuration being edited, what is selected, and what
/// is shown.
pub struct App {
    pub config: Config,
    pub selected_segment: usize,
    pub selected_panel: Panel,
    pub selected_field: FieldSelection,
    pub should_quit: bool,
    pub preview: PreviewComponent,
    pub settings: SettingsComponent,
    pub status_message: Option<String>,
}

/// What the editor holds, apart from the preview that it shows.
pub struct AppView {
    pub config: ConfigView,
    pub selected_segment: nat,
    pub selected_panel: Panel,
    pub selected_field: FieldSelection,
    pub should_quit: bool,
    pub status_message: Option<Seq<char>>,
}

impl View for App {
    type V = AppView;

    open spec fn view(&self) -> AppView {
        AppView {
            config: self.config@,
            selected_segment: self.selected_segment as nat,
            selected_panel: self.selected_panel,
            selected_field: self.selected_field,
            should_quit: self.should_quit,
            status_message: match self.status_message {
                Some(s) => Some(s@),
                None => None,
            },
        }
    }
}

/// The pop-up that a command asks for.
#[derive(Clone, Copy, Debug, PartialEq, Eq, Structural)]
pub enum PopupRequest {
    Nothing,
    /// The icon selector, for the glyph set of the given mode.
    IconSelector(StyleMode),
    ColorPicker,
}

/// `value`, held within `low` and `high`.
pub open spec fn clamp(value: int, low: int, high: int) -> int {
    if value < low {
        low
    } else if value > high {
        high
    } else {
        value
    }
}

/// Tells whether the selected segment has the six threshold fields.
pub open spec fn has_threshold_fields(config: ConfigView, selected: nat) -> bool {
    selected < config.segments.len() && (config.segments[selected as int].id
        == SegmentId::Usage5Hour || config.segments[selected as int].id == SegmentId::Usage7Day
        || config.segments[selected as int].id == SegmentId::ContextWindow)
}

/// Tells whether the selected segment has the two fields of the git
/// segment.
pub open spec fn has_git_fields(config: ConfigView, selected: nat) -> bool {
    selected < config.segments.len() && config.segments[selected as int].id == SegmentId::Git
}

/// The number of fields of a segment.
pub open spec fn field_count(thresholds: bool, git: bool) -> int {
    if thresholds {
        13
    } else if git {
        9
    } else {
        7
    }
}

/// The position of a field in the settings panel.
pub open spec fn field_index(field: FieldSelection, thresholds: bool, git: bool) -> int {
    match field {
        FieldSelection::Enabled => 0,
        FieldSelection::Icon => 1,
        FieldSelection::IconColor => 2,
        FieldSelection::TextColor => 3,
        FieldSelection::BackgroundColor => 4,
        FieldSelection::TextStyle => 5,
        FieldSelection::WarningThreshold => 6,
        FieldSelection::CriticalThreshold => 7,
        FieldSelection::WarningColor => 8,
        FieldSelection::CriticalColor => 9,
        FieldSelection::WarningBold => 10,
        FieldSelection::CriticalBold => 11,
        FieldSelection::ShowSha => 6,
        FieldSelection::ShowDirtyCount => 7,
        FieldSelection::Options => if thresholds {
            12
        } else if git {
            8
        } else {
            6
        },
    }
}

/// The field at a position in the settings panel.
pub open spec fn field_at(index: int, thresholds: bool, git: bool) -> FieldSelection {
    if index == 0 {
        FieldSelection::Enabled
    } else if index == 1 {
        FieldSelection::Icon
    } else if index == 2 {
        FieldSelection::IconColor
    } else if index == 3 {
        FieldSelection::TextColor
    } else if index == 4 {
        FieldSelection::BackgroundColor
    } else if index == 5 {
        FieldSelection::TextStyle
    } else if thresholds {
        if index == 6 {
            FieldSelection::WarningThreshold
        } else if index == 7 {
            FieldSelection::CriticalThreshold
        } else if index == 8 {
            FieldSelection::WarningColor
        } else if index == 9 {
            FieldSelection::CriticalColor
        } else if index == 10 {
            FieldSelection::WarningBold
        } else if index == 11 {
            FieldSelection::CriticalBold
        } else if index == 12 {
            FieldSelection::Options
        } else {
            FieldSelection::Enabled
        }
    } else if git {
        if index == 6 {
            FieldSelection::ShowSha
        } else if index == 7 {
            FieldSelection::ShowDirtyCount
        } else if index == 8 {
            FieldSelection::Options
        } else {
            FieldSelection::Enabled
        }
    } else if index == 6 {
        FieldSelection::Options
    } else {
        FieldSelection::Enabled
    }
}

/// Tells whether a segment with the given fields shows `field`.
pub open spec fn shows_field(field: FieldSelection, thresholds: bool, git: bool) -> bool {
    match field {
        FieldSelection::WarningThreshold
        | FieldSelection::CriticalThreshold
        | FieldSelection::WarningColor
        | FieldSelection::CriticalColor
        | FieldSelection::WarningBold
        | FieldSelection::CriticalBold => thresholds,
        FieldSelection::ShowSha | FieldSelection::ShowDirtyCount => !thresholds && git,
        _ => true,
    }
}

/// A field that a segment shows stands at its own position, within the
/// number of fields of the segment.
pub proof fn fields_are_numbered(field: FieldSelection, thresholds: bool, git: bool)
    requires
        shows_field(field, thresholds, git),
    ensures
        0 <= field_index(field, thresholds, git) < field_count(thresholds, git),
        field_at(field_index(field, thresholds, git), thresholds, git) == field,
{
}

/// Every position within the number of fields holds a field that the
/// segment shows.
pub proof fn positions_hold_fields(index: int, thresholds: bool, git: bool)
    requires
        0 <= index < field_count(thresholds, git),
    ensures
        shows_field(field_at(index, thresholds, git), thresholds, git),
        field_index(field_at(index, thresholds, git), thresholds, git) == index,
{
}

/// The editor after the selection has moved by `delta`: in the segment list
/// the selected segment, in the settings panel the selected field. The
/// selection stops at the first and at the last entry.
pub open spec fn moved(app: AppView, delta: i32) -> AppView {
    match app.selected_panel {
        Panel::SegmentList => if app.config.segments.len() == 0 {
            app
        } else {
            AppView {
                selected_segment: clamp(
                    app.selected_segment + delta,
                    0,
                    app.config.segments.len() - 1,
                ) as nat,
                ..app
            }
        },
        Panel::Settings => {
            let thresholds = has_threshold_fields(app.config, app.selected_segment);
            let git = has_git_fields(app.config, app.selected_segment);
            AppView {
                selected_field: field_at(
                    clamp(
                        field_index(app.selected_field, thresholds, git) + delta,
                        0,
                        field_count(thresholds, git) - 1,
                    ),
                    thresholds,
                    git,
                ),
                ..app
            }
        },
    }
}

/// `enabled` or `disabled`.
pub open spec fn on_off(on: bool) -> Seq<char> {
    if on {
        "enabled"@
    } else {
        "disabled"@
    }
}

/// The warning threshold that follows `current` in the cycle 40, 50, 60,
/// 70, 80.
pub open spec fn next_warning_threshold(current: u64) -> u64 {
    if current < 50 {
        50
    } else if current == 50 {
        60
    } else if current == 60 {
        70
    } else if current == 70 {
        80
    } else {
        40
    }
}

/// The critical threshold that follows `current` in the cycle 60, 70, 80,
/// 90, 95.
pub open spec fn next_critical_threshold(current: u64) -> u64 {
    if current < 70 {
        70
    } else if current == 70 {
        80
    } else if current == 80 {
        90
    } else if current == 90 {
        95
    } else {
        60
    }
}

/// `segment` with one option set.
pub open spec fn with_option(
    segment: SegmentConfigView,
    key: Seq<char>,
    value: OptionValueView,
) -> SegmentConfigView {
    SegmentConfigView { options: segment.options.insert(key, value), ..segment }
}

/// `config` with the segment at `index` replaced.
pub open spec fn with_segment(
    config: ConfigView,
    index: int,
    segment: SegmentConfigView,
) -> ConfigView {
    ConfigView { segments: config.segments.update(index, segment), ..config }
}

/// `segment` with a boolean option flipped, and the message that says so.
pub open spec fn flipped_option(
    segment: SegmentConfigView,
    key: Seq<char>,
    default: bool,
    label: Seq<char>,
) -> (SegmentConfigView, Seq<char>) {
    let on = !flag_or(segment.options, key, default);
    (with_option(segment, key, OptionValueView::Flag(on)), label + on_off(on))
}

/// What acting on `field` does to a segment, with the message that says
/// so; none for the fields that open a pop-up or do nothing.
pub open spec fn edited(
    segment: SegmentConfigView,
    field: FieldSelection,
) -> Option<(SegmentConfigView, Seq<char>)> {
    match field {
        FieldSelection::Enabled => Some(
            (
                SegmentConfigView { enabled: !segment.enabled, ..segment },
                segment_name(segment.id) + " segment "@ + on_off(!segment.enabled),
            ),
        ),
        FieldSelection::TextStyle => Some(
            (
                SegmentConfigView {
                    styles: TextStyleConfig { text_bold: !segment.styles.text_bold },
                    ..segment
                },
                "Text bold "@ + on_off(!segment.styles.text_bold),
            ),
        ),
        FieldSelection::WarningThreshold => {
            let next = next_warning_threshold(warning_threshold(segment.options));
            Some(
                (
                    with_option(segment, "warning_threshold"@, OptionValueView::Number(next)),
                    "Warning threshold set to "@ + decimal_digits(next as nat) + "%"@,
                ),
            )
        },
        FieldSelection::CriticalThreshold => {
            let next = next_critical_threshold(critical_threshold(segment.options));
            Some(
                (
                    with_option(segment, "critical_threshold"@, OptionValueView::Number(next)),
                    "Critical threshold set to "@ + decimal_digits(next as nat) + "%"@,
                ),
            )
        },
        FieldSelection::WarningBold => Some(
            flipped_option(segment, "warning_bold"@, false, "Warning bold "@),
        ),
        FieldSelection::CriticalBold => Some(
            flipped_option(segment, "critical_bold"@, true, "Critical bold "@),
        ),
        FieldSelection::ShowSha => Some(flipped_option(segment, "show_sha"@, false, "Show SHA "@)),
        FieldSelection::ShowDirtyCount => Some(
            flipped_option(segment, "show_dirty_count"@, false, "Show dirty count "@),
        ),
        _ => None,
    }
}

/// The field that a toggle acts on: in the segment list the enabled flag,
/// in the settings panel the selected field.
pub open spec fn acted_field(app: AppView) -> FieldSelection {
    match app.selected_panel {
        Panel::SegmentList => FieldSelection::Enabled,
        Panel::Settings => app.selected_field,
    }
}

/// Tells whether a toggle edits the selected segment.
pub open spec fn toggle_edits(app: AppView) -> bool {
    app.selected_segment < app.config.segments.len() && edited(
        app.config.segments[app.selected_segment as int],
        acted_field(app),
    ) is Some
}

/// The editor after a toggle.
pub open spec fn toggled(app: AppView) -> AppView {
    if app.selected_panel == Panel::Settings && app.selected_field == FieldSelection::Options {
        AppView { status_message: Some("Options editor not implemented yet"@), ..app }
    } else if toggle_edits(app) {
        let change = edited(app.config.segments[app.selected_segment as int], acted_field(app))->0;
        AppView {
            config: with_segment(app.config, app.selected_segment as int, change.0),
            status_message: Some(change.1),
            ..app
        }
    } else {
        app
    }
}

/// The pop-up that a toggle asks for.
pub open spec fn toggle_request(app: AppView) -> PopupRequest {
    match app.selected_panel {
        Panel::SegmentList => PopupRequest::Nothing,
        Panel::Settings => match app.selected_field {
            FieldSelection::Icon => PopupRequest::IconSelector(app.config.style.mode),
            FieldSelection::IconColor
            | FieldSelection::TextColor
            | FieldSelection::BackgroundColor
            | FieldSelection::WarningColor
            | FieldSelection::CriticalColor => PopupRequest::ColorPicker,
            _ => PopupRequest::Nothing,
        },
    }
}

/// `segment` with `color` put where `field` says: into one of the three
/// base colours, or as a colour object into one of the two threshold
/// options.
pub open spec fn with_color(
    segment: SegmentConfigView,
    field: FieldSelection,
    color: AnsiColor,
) -> SegmentConfigView {
    match field {
        FieldSelection::IconColor => SegmentConfigView {
            colors: ColorConfig { icon: Some(color), ..segment.colors },
            ..segment
        },
        FieldSelection::TextColor => SegmentConfigView {
            colors: ColorConfig { text: Some(color), ..segment.colors },
            ..segment
        },
        FieldSelection::BackgroundColor => SegmentConfigView {
            colors: ColorConfig { background: Some(color), ..segment.colors },
            ..segment
        },
        FieldSelection::WarningColor => with_option(
            segment,
            "warning_color"@,
            OptionValueView::Object(color_object(color)),
        ),
        FieldSelection::CriticalColor => with_option(
            segment,
            "critical_color"@,
            OptionValueView::Object(color_object(color)),
        ),
        _ => segment,
    }
}

/// `segment` with `icon` as its glyph in the given mode.
pub open spec fn with_icon(
    segment: SegmentConfigView,
    mode: StyleMode,
    icon: Seq<char>,
) -> SegmentConfigView {
    match mode {
        StyleMode::Plain => SegmentConfigView {
            icon: IconConfigView { plain: icon, ..segment.icon },
            ..segment
        },
        _ => SegmentConfigView {
            icon: IconConfigView { nerd_font: icon, ..segment.icon },
            ..segment
        },
    }
}

/// The segments with those at `index - 1` and `index` exchanged.
pub open spec fn exchanged(segments: Seq<SegmentConfigView>, index: int) -> Seq<SegmentConfigView> {
    segments.update(index, segments[index - 1]).update(index - 1, segments[index])
}

/// The kinds of the segments, in order.
pub open spec fn kinds(segments: Seq<SegmentConfigView>) -> Seq<SegmentId> {
    Seq::new(segments.len(), |i: int| segments[i].id)
}

/// Exchanging two neighbours moves their kinds along and changes none.
pub proof fn exchange_keeps_kinds(segments: Seq<SegmentConfigView>, index: int)
    requires
        0 < index < segments.len(),
    ensures
        kinds(exchanged(segments, index)) == kinds(segments).update(
            index,
            kinds(segments)[index - 1],
        ).update(index - 1, kinds(segments)[index]),
        kinds(exchanged(segments, index)).to_multiset() == kinds(segments).to_multiset(),
{
    let before = kinds(segments);
    let after = kinds(exchanged(segments, index));
    assert(after =~= before.update(index, before[index - 1]).update(index - 1, before[index]));
    let head = before.subrange(0, index - 1);
    let tail = before.subrange(index + 1, before.len() as int);
    let a = seq![before[index - 1]];
    let b = seq![before[index]];
    assert(before =~= head + a + b + tail);
    assert(after =~= head + b + a + tail);
    vstd::seq_lib::lemma_multiset_commutative(head + a + b, tail);
    vstd::seq_lib::lemma_multiset_commutative(head + a, b);
    vstd::seq_lib::lemma_multiset_commutative(head, a);
    vstd::seq_lib::lemma_multiset_commutative(head + b + a, tail);
    vstd::seq_lib::lemma_multiset_commutative(head + b, a);
    vstd::seq_lib::lemma_multiset_commutative(head, b);
    assert(before.to_multiset() =~= after.to_multiset());
}

/// Editing a field leaves the kind of the segment as it is.
pub proof fn edit_keeps_kind(segment: SegmentConfigView, field: FieldSelection)
    requires
        edited(segment, field) is Some,
    ensures
        ({
            let change = edited(segment, field)->0;
            change
        }).0.id == segment.id,
{
}

/// Tells whether `index` is the first place at which `name` stands in
/// `themes`.
pub open spec fn is_first_position(themes: Seq<Seq<char>>, name: Seq<char>, index: int) -> bool {
    &&& 0 <= index < themes.len()
    &&& themes[index] == name
    &&& forall|j: int| 0 <= j < index ==> #[trigger] themes[j] != name
}

/// The first place at which `name` stands in `themes`, or the first place
/// of all where it stands nowhere.
pub open spec fn theme_position(themes: Seq<Seq<char>>, name: Seq<char>) -> int {
    if exists|index: int| is_first_position(themes, name, index) {
        choose|index: int| is_first_position(themes, name, index)
    } else {
        0
    }
}

/// The theme that follows `current` in `themes`, the first one after the
/// last; none where there is no theme.
pub open spec fn next_theme(themes: Seq<Seq<char>>, current: Seq<char>) -> Option<Seq<char>> {
    if themes.len() == 0 {
        None
    } else {
        Some(themes[(theme_position(themes, current) + 1) % (themes.len() as int)])
    }
}

/// What a run of names holds, one by one.
pub open spec fn names_view(names: Seq<String>) -> Seq<Seq<char>> {
    Seq::new(names.len(), |i: int| names[i]@)
}

/// The entry of a theme in the theme selector: a box, ticked for the
/// current theme, and the name.
pub open spec fn theme_entry(current: Seq<char>, theme: Seq<char>) -> Seq<char> {
    (if theme == current {
        "[✓]"@
    } else {
        "[ ]"@
    }) + " "@ + theme
}

/// The entries of the theme selector.
pub open spec fn theme_entries(current: Seq<char>, themes: Seq<Seq<char>>) -> Seq<Seq<char>> {
    Seq::new(themes.len(), |i: int| theme_entry(current, themes[i]))
}

/// The number of lines that `entries` take when wrapped to the inside of a
/// panel of `total_width` columns, two columns between neighbours; one line
/// where there is no entry.
pub open spec fn legend_lines(entries: Seq<Seq<char>>, total_width: u16) -> nat {
    let lines = wrapped(entries, text_width(), 2, content_width(total_width)).len();
    if lines < 1 {
        1
    } else {
        lines
    }
}

/// The rows of the theme selector: its lines and the two borders, held at
/// the largest `u16`.
pub open spec fn theme_selector_height(entries: Seq<Seq<char>>, total_width: u16) -> nat {
    let rows = legend_lines(entries, total_width) + 2;
    if rows > u16::MAX {
        u16::MAX as nat
    } else {
        rows
    }
}

/// The keys that the help panel lists.
pub open spec fn help_items(color_picker_open: bool, icon_selector_open: bool) -> Seq<Seq<char>> {
    if color_picker_open {
        seq!["[↑↓] Navigate"@, "[Tab] Mode"@, "[Enter] Select"@, "[Esc] Cancel"@]
    } else if icon_selector_open {
        seq![
            "[↑↓] Navigate"@,
            "[Tab] Style"@,
            "[C] Custom"@,
            "[Enter] Select"@,
            "[Esc] Cancel"@,
        ]
    } else {
        seq![
            "[Tab] Switch Panel"@,
            "[Enter] Toggle/Edit"@,
            "[Shift+↑↓] Reorder"@,
            "[1-4] Theme"@,
            "[P] Switch Theme"@,
            "[R] Reset"@,
            "[E] Edit Separator"@,
            "[S] Save Config"@,
            "[W] Write Theme"@,
            "[Ctrl+S] Save Theme"@,
            "[Esc] Quit"@,
        ]
    }
}

/// The rows of the help panel: the lines of the keys, one more while a
/// status message is shown, and the two borders; at least 3 and at most 6.
pub open spec fn help_height(entries: Seq<Seq<char>>, has_status: bool, total_width: u16) -> nat {
    let rows = legend_lines(entries, total_width) + (if has_status {
        1nat
    } else {
        0nat
    }) + 2;
    if rows > 6 {
        6
    } else {
        rows
    }
}

/// What is left for the caller to do after a key press: what needs the
/// pop-ups, the theme files or the configuration file.
#[derive(Clone, Copy, Debug, PartialEq, Eq, Structural)]
pub enum Action {
    /// Nothing is left to do.
    Done,
    /// Hand the command to the pop-up that it names.
    Popup(Command),
    /// Open the name input, to save the configuration as a new theme.
    OpenNameInput,
    /// Open the colour picker for the selected field.
    OpenColorPicker,
    /// Open the icon selector for the glyph set of the given mode.
    OpenIconSelector(StyleMode),
    /// Call `open_separator_editor` and open the editor with what it
    /// gives.
    OpenSeparatorEditor,
    /// Save the configuration and hand the outcome to `save_config`.
    SaveConfig,
    /// Write the configuration to the current theme and hand the outcome
    /// to `write_to_current_theme`.
    WriteTheme,
    /// Read the theme of the key and hand it to `switch_to_theme`.
    SwitchToTheme(ThemeKey),
    /// List the themes, call `cycle_theme`, read the theme that it names
    /// and hand it to `switch_to_theme`.
    CycleTheme,
    /// Read the current theme afresh and hand it to
    /// `reset_to_theme_defaults`.
    ResetTheme,
}

/// Tells whether the selected segment can move one place up.
pub open spec fn can_move_up(app: AppView) -> bool {
    app.selected_panel == Panel::SegmentList && 0 < app.selected_segment
        < app.config.segments.len()
}

/// Tells whether the selected segment can move one place down.
pub open spec fn can_move_down(app: AppView) -> bool {
    app.selected_panel == Panel::SegmentList && app.selected_segment + 1
        < app.config.segments.len()
}

/// The editor after the selected segment has moved one place up.
pub open spec fn moved_up(app: AppView) -> AppView {
    if can_move_up(app) {
        AppView {
            config: ConfigView {
                segments: exchanged(app.config.segments, app.selected_segment as int),
                ..app.config
            },
            selected_segment: (app.selected_segment - 1) as nat,
            status_message: Some("Moved segment up"@),
            ..app
        }
    } else {
        app
    }
}

/// The editor after the selected segment has moved one place down.
pub open spec fn moved_down(app: AppView) -> AppView {
    if can_move_down(app) {
        AppView {
            config: ConfigView {
                segments: exchanged(app.config.segments, (app.selected_segment + 1) as int),
                ..app.config
            },
            selected_segment: (app.selected_segment + 1) as nat,
            status_message: Some("Moved segment down"@),
            ..app
        }
    } else {
        app
    }
}

/// The editor after a command, as far as the editor carries it out
/// itself.
pub open spec fn stepped(app: AppView, command: Command) -> AppView {
    match command {
        Command::Quit => AppView { should_quit: true, ..app },
        Command::MoveSegmentUp => moved_up(app),
        Command::MoveSegmentDown => moved_down(app),
        Command::MoveSelection(delta) => moved(app, delta),
        Command::ToggleCurrent => toggled(app),
        Command::SwitchPanel => AppView {
            selected_panel: match app.selected_panel {
                Panel::SegmentList => Panel::Settings,
                Panel::Settings => Panel::SegmentList,
            },
            ..app
        },
        _ => app,
    }
}

/// What a command leaves for the caller to do.
pub open spec fn action_for(app: AppView, command: Command) -> Action {
    match command {
        Command::Ignore
        | Command::Quit
        | Command::MoveSegmentUp
        | Command::MoveSegmentDown
        | Command::MoveSelection(_)
        | Command::SwitchPanel => Action::Done,
        Command::ToggleCurrent => match toggle_request(app) {
            PopupRequest::Nothing => Action::Done,
            PopupRequest::IconSelector(mode) => Action::OpenIconSelector(mode),
            PopupRequest::ColorPicker => Action::OpenColorPicker,
        },
        Command::OpenNameInput => Action::OpenNameInput,
        Command::SaveConfig => Action::SaveConfig,
        Command::WriteTheme => Action::WriteTheme,
        Command::SwitchToTheme(key) => Action::SwitchToTheme(key),
        Command::CycleTheme => Action::CycleTheme,
        Command::ResetTheme => Action::ResetTheme,
        Command::OpenSeparatorEditor => Action::OpenSeparatorEditor,
        _ => Action::Popup(command),
    }
}

/// Tells whether a command changes what the preview shows.
pub open spec fn redraws(app: AppView, command: Command) -> bool {
    match command {
        Command::MoveSegmentUp => can_move_up(app),
        Command::MoveSegmentDown => can_move_down(app),
        Command::ToggleCurrent => toggle_edits(app),
        _ => false,
    }
}

/// No command changes the kind of a segment: after any command the kinds
/// are those from before, in another order at most.
pub proof fn commands_keep_kinds(app: AppView, command: Command)
    ensures
        kinds(stepped(app, command).config.segments).to_multiset() == kinds(
            app.config.segments,
        ).to_multiset(),
{
    match command {
        Command::MoveSegmentUp => {
            if can_move_up(app) {
                exchange_keeps_kinds(app.config.segments, app.selected_segment as int);
            }
        },
        Command::MoveSegmentDown => {
            if can_move_down(app) {
                exchange_keeps_kinds(app.config.segments, (app.selected_segment + 1) as int);
            }
        },
        Command::ToggleCurrent => {
            if !(app.selected_panel == Panel::Settings && app.selected_field
                == FieldSelection::Options) && toggle_edits(app) {
                let index = app.selected_segment as int;
                edit_keeps_kind(app.config.segments[index], acted_field(app));
                assert(kinds(stepped(app, command).config.segments) =~= kinds(
                    app.config.segments,
                ));
            }
        },
        _ => {},
    }
}

fn on_off_text(on: bool) -> (r: &'static str)
    ensures
        r@ == on_off(on),
{
    if on {
        "enabled"
    } else {
        "disabled"
    }
}

fn join3(a: &str, b: &str, c: &str) -> (r: String)
    ensures
        r@ == a@ + b@ + c@,
{
    let mut r = owned(a);
    r.append(b);
    r.append(c);
    r
}

fn flip_option(
    segment: &mut SegmentConfig,
    key: &str,
    default: bool,
    label: &str,
) -> (message: String)
    ensures
        (final(segment)@, message@) == flipped_option(old(segment)@, key@, default, label@),
{
    let on = !match flag_of(&segment.options, key) {
        Some(b) => b,
        None => default,
    };
    segment.options.insert(owned(key), OptionValue::Flag(on));
    join2(label, on_off_text(on))
}

/// Acts on one field of a segment. Gives the message that says what
/// changed; for a field that changes nothing here, gives none and leaves
/// the segment as it is.
pub fn edit_segment(segment: &mut SegmentConfig, field: FieldSelection) -> (message: Option<String>)
    ensures
        match message {
            Some(text) => edited(old(segment)@, field) == Some((final(segment)@, text@)),
            None => edited(old(segment)@, field) is None && final(segment)@ == old(segment)@,
        },
{
    match field {
        FieldSelection::Enabled => {
            segment.enabled = !segment.enabled;
            Some(
                join3(
                    segment_display_name(segment.id),
                    " segment ",
                    on_off_text(segment.enabled),
                ),
            )
        },
        FieldSelection::TextStyle => {
            segment.styles.text_bold = !segment.styles.text_bold;
            Some(join2("Text bold ", on_off_text(segment.styles.text_bold)))
        },
        FieldSelection::WarningThreshold => {
            let (current, _) = thresholds_from_options(&segment.options);
            let next: u64 = if current < 50 {
                50
            } else if current == 50 {
                60
            } else if current == 60 {
                70
            } else if current == 70 {
                80
            } else {
                40
            };
            segment.options.insert(owned("warning_threshold"), OptionValue::Number(next));
            Some(join3("Warning threshold set to ", decimal(next).as_str(), "%"))
        },
        FieldSelection::CriticalThreshold => {
            let (_, current) = thresholds_from_options(&segment.options);
            let next: u64 = if current < 70 {
                70
            } else if current == 70 {
                80
            } else if current == 80 {
                90
            } else if current == 90 {
                95
            } else {
                60
            };
            segment.options.insert(owned("critical_threshold"), OptionValue::Number(next));
            Some(join3("Critical threshold set to ", decimal(next).as_str(), "%"))
        },
        FieldSelection::WarningBold => Some(
            flip_option(segment, "warning_bold", false, "Warning bold "),
        ),
        FieldSelection::CriticalBold => Some(
            flip_option(segment, "critical_bold", true, "Critical bold "),
        ),
        FieldSelection::ShowSha => Some(flip_option(segment, "show_sha", false, "Show SHA ")),
        FieldSelection::ShowDirtyCount => Some(
            flip_option(segment, "show_dirty_count", false, "Show dirty count "),
        ),
        _ => None,
    }
}

/// Puts a colour into a segment where `field` says.
pub fn set_color(segment: &mut SegmentConfig, field: FieldSelection, color: AnsiColor)
    ensures
        final(segment)@ == with_color(old(segment)@, field, color),
{
    match field {
        FieldSelection::IconColor => {
            segment.colors.icon = Some(color);
        },
        FieldSelection::TextColor => {
            segment.colors.text = Some(color);
        },
        FieldSelection::BackgroundColor => {
            segment.colors.background = Some(color);
        },
        FieldSelection::WarningColor => {
            segment.options.insert(
                owned("warning_color"),
                OptionValue::Object(color_to_object(&color)),
            );
        },
        FieldSelection::CriticalColor => {
            segment.options.insert(
                owned("critical_color"),
                OptionValue::Object(color_to_object(&color)),
            );
        },
        _ => {},
    }
}

fn field_position(field: FieldSelection, thresholds: bool, git: bool) -> (index: i64)
    ensures
        index == field_index(field, thresholds, git),
{
    match field {
        FieldSelection::Enabled => 0,
        FieldSelection::Icon => 1,
        FieldSelection::IconColor => 2,
        FieldSelection::TextColor => 3,
        FieldSelection::BackgroundColor => 4,
        FieldSelection::TextStyle => 5,
        FieldSelection::WarningThreshold => 6,
        FieldSelection::CriticalThreshold => 7,
        FieldSelection::WarningColor => 8,
        FieldSelection::CriticalColor => 9,
        FieldSelection::WarningBold => 10,
        FieldSelection::CriticalBold => 11,
        FieldSelection::ShowSha => 6,
        FieldSelection::ShowDirtyCount => 7,
        FieldSelection::Options => if thresholds {
            12
        } else if git {
            8
        } else {
            6
        },
    }
}

fn field_in_position(index: i64, thresholds: bool, git: bool) -> (field: FieldSelection)
    ensures
        field == field_at(index as int, thresholds, git),
{
    if index == 0 {
        FieldSelection::Enabled
    } else if index == 1 {
        FieldSelection::Icon
    } else if index == 2 {
        FieldSelection::IconColor
    } else if index == 3 {
        FieldSelection::TextColor
    } else if index == 4 {
        FieldSelection::BackgroundColor
    } else if index == 5 {
        FieldSelection::TextStyle
    } else if thresholds {
        if index == 6 {
            FieldSelection::WarningThreshold
        } else if index == 7 {
            FieldSelection::CriticalThreshold
        } else if index == 8 {
            FieldSelection::WarningColor
        } else if index == 9 {
            FieldSelection::CriticalColor
        } else if index == 10 {
            FieldSelection::WarningBold
        } else if index == 11 {
            FieldSelection::CriticalBold
        } else if index == 12 {
            FieldSelection::Options
        } else {
            FieldSelection::Enabled
        }
    } else if git {
        if index == 6 {
            FieldSelection::ShowSha
        } else if index == 7 {
            FieldSelection::ShowDirtyCount
        } else if index == 8 {
            FieldSelection::Options
        } else {
            FieldSelection::Enabled
        }
    } else if index == 6 {
        FieldSelection::Options
    } else {
        FieldSelection::Enabled
    }
}

/// Finds the first place at which `name` stands in `themes`; the first
/// place of all where it stands nowhere.
pub fn find_theme(themes: &Vec<String>, name: &str) -> (index: usize)
    ensures
        index == theme_position(names_view(themes@), name@),
        themes@.len() > 0 ==> index < themes@.len(),
{
    let ghost all = names_view(themes@);
    let mut i: usize = 0;
    while i < themes.len()
        invariant
            i <= themes@.len(),
            all == names_view(themes@),
            forall|j: int| 0 <= j < i ==> #[trigger] all[j] != name@,
        decreases themes@.len() - i,
    {
        if str_eq(themes[i].as_str(), name) {
            proof {
                assert(all[i as int] == name@);
                assert(is_first_position(all, name@, i as int));
                let k = choose|k: int| is_first_position(all, name@, k);
                if k < i {
                    assert(all[k] != name@);
                } else if k > i {
                    assert(all[i as int] != name@);
                }
            }
            return i;
        }
        i += 1;
    }
    proof {
        assert forall|k: int| !is_first_position(all, name@, k) by {
            if is_first_position(all, name@, k) {
                assert(all[k] != name@);
            }
        }
    }
    0
}

impl App {
    /// An editor for `config`: the first segment selected in the segment
    /// list, the preview rendered at the default width.
    pub fn new(config: Config) -> (app: Self)
        ensures
            app@ == (AppView {
                config: config@,
                selected_segment: 0,
                selected_panel: Panel::SegmentList,
                selected_field: FieldSelection::Enabled,
                should_quit: false,
                status_message: None,
            }),
            app.preview.shows(config@, DEFAULT_WIDTH),
    {
        let mut preview = PreviewComponent::new();
        preview.update_preview(&config);
        App {
            config,
            selected_segment: 0,
            selected_panel: Panel::SegmentList,
            selected_field: FieldSelection::Enabled,
            should_quit: false,
            preview,
            settings: SettingsComponent::new(),
            status_message: None,
        }
    }

    /// Ends the editor at the next turn of the event loop.
    pub fn quit(&mut self)
        ensures
            final(self)@ == (AppView { should_quit: true, ..old(self)@ }),
            final(self).preview == old(self).preview,
    {
        self.should_quit = true;
    }

    fn thresholds_shown(&self) -> (r: bool)
        ensures
            r == has_threshold_fields(self@.config, self@.selected_segment),
    {
        if self.selected_segment < self.config.segments.len() {
            let id = self.config.segments[self.selected_segment].id;
            assert(segments_view(self.config.segments@)[self.selected_segment as int].id == id);
            id == SegmentId::Usage5Hour || id == SegmentId::Usage7Day || id
                == SegmentId::ContextWindow
        } else {
            false
        }
    }

    fn git_shown(&self) -> (r: bool)
        ensures
            r == has_git_fields(self@.config, self@.selected_segment),
    {
        if self.selected_segment < self.config.segments.len() {
            let id = self.config.segments[self.selected_segment].id;
            assert(segments_view(self.config.segments@)[self.selected_segment as int].id == id);
            id == SegmentId::Git
        } else {
            false
        }
    }

    /// Moves the selection by `delta` entries.
    pub fn move_selection(&mut self, delta: i32)
        ensures
            final(self)@ == moved(old(self)@, delta),
            final(self).preview == old(self).preview,
    {
        match self.selected_panel {
            Panel::SegmentList => {
                let len = self.config.segments.len();
                if len > 0 {
                    let last = len - 1;
                    let current = self.selected_segment;
                    if delta >= 0 {
                        let step = delta as usize;
                        self.selected_segment = if current >= last || step >= last - current {
                            last
                        } else {
                            current + step
                        };
                    } else {
                        let step = (-(delta as i64)) as u64;
                        let target: usize = if step >= current as u64 {
                            0
                        } else {
                            current - step as usize
                        };
                        self.selected_segment = if target > last {
                            last
                        } else {
                            target
                        };
                    }
                }
            },
            Panel::Settings => {
                let thresholds = self.thresholds_shown();
                let git = self.git_shown();
                let count: i64 = if thresholds {
                    13
                } else if git {
                    9
                } else {
                    7
                };
                let target = field_position(self.selected_field, thresholds, git) + delta as i64;
                let index = if target < 0 {
                    0
                } else if target > count - 1 {
                    count - 1
                } else {
                    target
                };
                self.selected_field = field_in_position(index, thresholds, git);
            },
        }
    }

    /// Acts on what is selected: in the segment list, switches the
    /// selected segment on or off; in the settings panel, flips or cycles
    /// the selected field, or asks for the pop-up that edits it. The
    /// preview is rendered again where the configuration changed.
    pub fn toggle_current(&mut self) -> (request: PopupRequest)
        ensures
            final(self)@ == toggled(old(self)@),
            request == toggle_request(old(self)@),
            toggle_edits(old(self)@) ==> final(self).preview.shows(
                final(self)@.config,
                DEFAULT_WIDTH,
            ),
            !toggle_edits(old(self)@) ==> final(self).preview == old(self).preview,
    {
        let request = match self.selected_panel {
            Panel::SegmentList => PopupRequest::Nothing,
            Panel::Settings => match self.selected_field {
                FieldSelection::Icon => PopupRequest::IconSelector(self.config.style.mode),
                FieldSelection::IconColor
                | FieldSelection::TextColor
                | FieldSelection::BackgroundColor
                | FieldSelection::WarningColor
                | FieldSelection::CriticalColor => PopupRequest::ColorPicker,
                _ => PopupRequest::Nothing,
            },
        };
        let field = match self.selected_panel {
            Panel::SegmentList => FieldSelection::Enabled,
            Panel::Settings => self.selected_field,
        };
        if self.selected_panel == Panel::Settings && self.selected_field
            == FieldSelection::Options {
            self.status_message = Some(owned("Options editor not implemented yet"));
            return request;
        }
        if self.selected_segment < self.config.segments.len() {
            let ghost before = segments_view(self.config.segments@);
            let index = self.selected_segment;
            let message = edit_segment(&mut self.config.segments[index], field);
            match message {
                Some(text) => {
                    assert(segments_view(self.config.segments@) =~= before.update(
                        index as int,
                        self.config.segments@[index as int]@,
                    ));
                    self.status_message = Some(text);
                    self.preview.update_preview(&self.config);
                },
                None => {
                    assert(segments_view(self.config.segments@) =~= before);
                },
            }
        }
        request
    }

    /// Moves the focus to the other panel.
    pub fn switch_panel(&mut self)
        ensures
            final(self)@ == (AppView {
                selected_panel: match old(self)@.selected_panel {
                    Panel::SegmentList => Panel::Settings,
                    Panel::Settings => Panel::SegmentList,
                },
                ..old(self)@
            }),
            final(self).preview == old(self).preview,
    {
        self.selected_panel = match self.selected_panel {
            Panel::SegmentList => Panel::Settings,
            Panel::Settings => Panel::SegmentList,
        };
    }

    /// Tells whether the colour picker may open: the cursor is on one of
    /// the five colour fields of the settings panel.
    pub fn open_color_picker(&self) -> (open: bool)
        ensures
            open == (toggle_request(self@) == PopupRequest::ColorPicker),
    {
        self.selected_panel == Panel::Settings && (self.selected_field
            == FieldSelection::IconColor || self.selected_field == FieldSelection::TextColor
            || self.selected_field == FieldSelection::BackgroundColor || self.selected_field
            == FieldSelection::WarningColor || self.selected_field
            == FieldSelection::CriticalColor)
    }

    /// The mode for which the icon selector may open: that of the
    /// configuration while the cursor is on the icon field of the settings
    /// panel, else none.
    pub fn open_icon_selector(&self) -> (mode: Option<StyleMode>)
        ensures
            match mode {
                Some(m) => toggle_request(self@) == PopupRequest::IconSelector(m),
                None => !(toggle_request(self@) is IconSelector),
            },
    {
        if self.selected_panel == Panel::Settings && self.selected_field == FieldSelection::Icon {
            Some(self.config.style.mode)
        } else {
            None
        }
    }

    /// Puts the colour picked into the selected segment, where the selected
    /// field says, and renders the preview again.
    pub fn apply_selected_color(&mut self, color: AnsiColor)
        ensures
            final(self)@ == if old(self)@.selected_segment < old(self)@.config.segments.len() {
                AppView {
                    config: with_segment(
                        old(self)@.config,
                        old(self)@.selected_segment as int,
                        with_color(
                            old(self)@.config.segments[old(self)@.selected_segment as int],
                            old(self)@.selected_field,
                            color,
                        ),
                    ),
                    ..old(self)@
                }
            } else {
                old(self)@
            },
            old(self)@.selected_segment < old(self)@.config.segments.len()
                ==> final(self).preview.shows(final(self)@.config, DEFAULT_WIDTH),
            old(self)@.selected_segment >= old(self)@.config.segments.len() ==> final(self).preview
                == old(self).preview,
    {
        if self.selected_segment < self.config.segments.len() {
            let ghost before = segments_view(self.config.segments@);
            let index = self.selected_segment;
            set_color(&mut self.config.segments[index], self.selected_field, color);
            assert(segments_view(self.config.segments@) =~= before.update(
                index as int,
                self.config.segments@[index as int]@,
            ));
            self.preview.update_preview(&self.config);
        }
    }

    /// Takes the icon selected as the glyph of the selected segment in the
    /// current mode, and renders the preview again.
    pub fn apply_selected_icon(&mut self, icon: String)
        ensures
            final(self)@ == if old(self)@.selected_segment < old(self)@.config.segments.len() {
                AppView {
                    config: with_segment(
                        old(self)@.config,
                        old(self)@.selected_segment as int,
                        with_icon(
                            old(self)@.config.segments[old(self)@.selected_segment as int],
                            old(self)@.config.style.mode,
                            icon@,
                        ),
                    ),
                    ..old(self)@
                }
            } else {
                old(self)@
            },
            old(self)@.selected_segment < old(self)@.config.segments.len()
                ==> final(self).preview.shows(final(self)@.config, DEFAULT_WIDTH),
            old(self)@.selected_segment >= old(self)@.config.segments.len() ==> final(self).preview
                == old(self).preview,
    {
        if self.selected_segment < self.config.segments.len() {
            let ghost before = segments_view(self.config.segments@);
            let index = self.selected_segment;
            match self.config.style.mode {
                StyleMode::Plain => {
                    self.config.segments[index].icon.plain = icon;
                },
                _ => {
                    self.config.segments[index].icon.nerd_font = icon;
                },
            }
            assert(segments_view(self.config.segments@) =~= before.update(
                index as int,
                self.config.segments@[index as int]@,
            ));
            self.preview.update_preview(&self.config);
        }
    }

    /// Picks the theme that follows the current one among `themes`, and
    /// says so in the status line. The caller reads that theme and hands it
    /// to `switch_to_theme`.
    pub fn cycle_theme(&mut self, themes: &Vec<String>) -> (next: Option<String>)
        ensures
            match next {
                Some(name) => next_theme(names_view(themes@), old(self)@.config.theme) == Some(
                    name@,
                ) && final(self)@ == (AppView {
                    status_message: Some("Switching to theme: "@ + name@),
                    ..old(self)@
                }),
                None => themes@.len() == 0 && final(self)@ == old(self)@,
            },
            final(self).preview == old(self).preview,
    {
        if themes.len() == 0 {
            return None;
        }
        let current = find_theme(themes, self.config.theme.as_str());
        let next_index = if current + 1 == themes.len() {
            0
        } else {
            current + 1
        };
        let name = themes[next_index].clone();
        proof {
            assert(names_view(themes@)[next_index as int] == name@);
            let len = themes@.len() as int;
            if current + 1 == len {
                vstd::arithmetic::div_mod::lemma_mod_self_0(len);
            } else {
                vstd::arithmetic::div_mod::lemma_small_mod((current + 1) as nat, len as nat);
            }
        }
        self.status_message = Some(join2("Switching to theme: ", name.as_str()));
        Some(name)
    }

    /// Takes `theme`, the configuration of the theme named `theme_name`, in
    /// place of the configuration; selects the first segment again.
    pub fn switch_to_theme(&mut self, theme_name: &str, theme: Config)
        ensures
            final(self)@ == (AppView {
                config: theme@,
                selected_segment: 0,
                status_message: Some("Switched to "@ + theme_name@ + " theme"@),
                ..old(self)@
            }),
            final(self).preview.shows(theme@, DEFAULT_WIDTH),
    {
        self.config = theme;
        self.selected_segment = 0;
        self.preview.update_preview(&self.config);
        self.status_message = Some(join3("Switched to ", theme_name, " theme"));
    }

    /// Takes `defaults`, the current theme as it was before any edit, in
    /// place of the configuration; selects the first segment again.
    pub fn reset_to_theme_defaults(&mut self, defaults: Config)
        ensures
            final(self)@ == (AppView {
                config: defaults@,
                selected_segment: 0,
                status_message: Some(
                    "Reset "@ + old(self)@.config.theme + " theme to defaults"@,
                ),
                ..old(self)@
            }),
            final(self).preview.shows(defaults@, DEFAULT_WIDTH),
    {
        let message = join3("Reset ", self.config.theme.as_str(), " theme to defaults");
        self.config = defaults;
        self.selected_segment = 0;
        self.preview.update_preview(&self.config);
        self.status_message = Some(message);
    }

    /// Says in the status line how saving the configuration went.
    pub fn save_config(&mut self, outcome: Result<(), String>)
        ensures
            final(self)@ == (AppView {
                status_message: Some(
                    match outcome {
                        Ok(_) => "Configuration saved to config.toml!"@,
                        Err(e) => "Failed to save config: "@ + e@,
                    },
                ),
                ..old(self)@
            }),
            final(self).preview == old(self).preview,
    {
        self.status_message = Some(
            match outcome {
                Ok(_) => owned("Configuration saved to config.toml!"),
                Err(e) => join2("Failed to save config: ", e.as_str()),
            },
        );
    }

    /// Takes the separator typed in the separator editor.
    pub fn set_separator(&mut self, separator: String)
        ensures
            final(self)@ == (AppView {
                config: ConfigView {
                    style: StyleConfigView { separator: separator@, ..old(self)@.config.style },
                    ..old(self)@.config
                },
                status_message: Some("Separator updated!"@),
                ..old(self)@
            }),
            final(self).preview.shows(final(self)@.config, DEFAULT_WIDTH),
    {
        self.config.style.separator = separator;
        self.preview.update_preview(&self.config);
        self.status_message = Some(owned("Separator updated!"));
    }

    /// Moves the selected segment one place up in the render order. The
    /// selection follows it.
    pub fn move_segment_up(&mut self)
        ensures
            final(self)@ == moved_up(old(self)@),
            can_move_up(old(self)@) ==> final(self).preview.shows(
                final(self)@.config,
                DEFAULT_WIDTH,
            ),
            !can_move_up(old(self)@) ==> final(self).preview == old(self).preview,
    {
        if self.selected_panel == Panel::SegmentList && self.selected_segment > 0
            && self.selected_segment < self.config.segments.len() {
            let ghost before = segments_view(self.config.segments@);
            let index = self.selected_segment;
            let moved = self.config.segments.remove(index);
            self.config.segments.insert(index - 1, moved);
            assert(segments_view(self.config.segments@) =~= exchanged(before, index as int));
            self.selected_segment = index - 1;
            self.preview.update_preview(&self.config);
            self.status_message = Some(owned("Moved segment up"));
        }
    }

    /// Moves the selected segment one place down in the render order. The
    /// selection follows it.
    pub fn move_segment_down(&mut self)
        ensures
            final(self)@ == moved_down(old(self)@),
            can_move_down(old(self)@) ==> final(self).preview.shows(
                final(self)@.config,
                DEFAULT_WIDTH,
            ),
            !can_move_down(old(self)@) ==> final(self).preview == old(self).preview,
    {
        let len = self.config.segments.len();
        if self.selected_panel == Panel::SegmentList && len > 0 && self.selected_segment < len
            - 1 {
            let ghost before = segments_view(self.config.segments@);
            let index = self.selected_segment;
            let moved = self.config.segments.remove(index + 1);
            self.config.segments.insert(index, moved);
            assert(segments_view(self.config.segments@) =~= exchanged(before, index + 1));
            self.selected_segment = index + 1;
            self.preview.update_preview(&self.config);
            self.status_message = Some(owned("Moved segment down"));
        }
    }

    /// Says in the status line how writing the configuration to the
    /// current theme went.
    pub fn write_to_current_theme(&mut self, outcome: Result<(), String>)
        ensures
            final(self)@ == (AppView {
                status_message: Some(
                    match outcome {
                        Ok(_) => "Wrote config to theme: "@ + old(self)@.config.theme,
                        Err(e) => "Failed to write to theme "@ + old(self)@.config.theme + ": "@
                            + e@,
                    },
                ),
                ..old(self)@
            }),
            final(self).preview == old(self).preview,
    {
        let message = match outcome {
            Ok(_) => join2("Wrote config to theme: ", self.config.theme.as_str()),
            Err(e) => {
                let mut text = join3("Failed to write to theme ", self.config.theme.as_str(), ": ");
                text.append(e.as_str());
                text
            },
        };
        self.status_message = Some(message);
    }

    /// Takes note of how saving the configuration as the new theme
    /// `theme_name` went: where it went well, that theme is now the
    /// current one.
    pub fn save_as_new_theme(&mut self, theme_name: &str, outcome: Result<(), String>)
        ensures
            final(self)@ == match outcome {
                Ok(_) => AppView {
                    config: ConfigView { theme: theme_name@, ..old(self)@.config },
                    status_message: Some("Saved as new theme: "@ + theme_name@),
                    ..old(self)@
                },
                Err(e) => AppView {
                    status_message: Some("Failed to save theme "@ + theme_name@ + ": "@ + e@),
                    ..old(self)@
                },
            },
            final(self).preview == old(self).preview,
    {
        match outcome {
            Ok(_) => {
                self.config.theme = owned(theme_name);
                self.status_message = Some(join2("Saved as new theme: ", theme_name));
            },
            Err(e) => {
                let mut text = join3("Failed to save theme ", theme_name, ": ");
                text.append(e.as_str());
                self.status_message = Some(text);
            },
        }
    }

    /// Says in the status line that the separator editor opens, and gives
    /// the separator with which it opens.
    pub fn open_separator_editor(&mut self) -> (separator: String)
        ensures
            separator@ == old(self)@.config.style.separator,
            final(self)@ == (AppView {
                status_message: Some("Opening separator editor..."@),
                ..old(self)@
            }),
            final(self).preview == old(self).preview,
    {
        self.status_message = Some(owned("Opening separator editor..."));
        self.config.style.separator.clone()
    }

    /// Takes a key press: carries out what the editor can do by itself,
    /// and says what is left for the caller to do.
    pub fn handle_key(&mut self, popups: &Popups, key: KeyPress) -> (action: Action)
        ensures
            final(self)@ == stepped(old(self)@, command_for(*popups, key)),
            action == action_for(old(self)@, command_for(*popups, key)),
            redraws(old(self)@, command_for(*popups, key)) ==> final(self).preview.shows(
                final(self)@.config,
                DEFAULT_WIDTH,
            ),
            !redraws(old(self)@, command_for(*popups, key))
                ==> final(self).preview == old(self).preview,
    {
        let command = key_command(popups, key);
        match command {
            Command::Ignore => Action::Done,
            Command::Quit => {
                self.quit();
                Action::Done
            },
            Command::MoveSegmentUp => {
                self.move_segment_up();
                Action::Done
            },
            Command::MoveSegmentDown => {
                self.move_segment_down();
                Action::Done
            },
            Command::MoveSelection(delta) => {
                self.move_selection(delta);
                Action::Done
            },
            Command::SwitchPanel => {
                self.switch_panel();
                Action::Done
            },
            Command::ToggleCurrent => match self.toggle_current() {
                PopupRequest::Nothing => Action::Done,
                PopupRequest::IconSelector(mode) => Action::OpenIconSelector(mode),
                PopupRequest::ColorPicker => Action::OpenColorPicker,
            },
            Command::OpenNameInput => Action::OpenNameInput,
            Command::SaveConfig => Action::SaveConfig,
            Command::WriteTheme => Action::WriteTheme,
            Command::SwitchToTheme(theme) => Action::SwitchToTheme(theme),
            Command::CycleTheme => Action::CycleTheme,
            Command::ResetTheme => Action::ResetTheme,
            Command::OpenSeparatorEditor => Action::OpenSeparatorEditor,
            _ => Action::Popup(command),
        }
    }

    /// The rows that the theme selector needs to show `themes` in a
    /// terminal of `total_width` columns.
    pub fn calculate_theme_selector_height(
        &self,
        themes: &Vec<String>,
        total_width: u16,
    ) -> (rows: u16)
        ensures
            rows == theme_selector_height(
                theme_entries(self@.config.theme, names_view(themes@)),
                total_width,
            ),
    {
        let ghost entries = theme_entries(self@.config.theme, names_view(themes@));
        let mut widths: Vec<usize> = Vec::new();
        let mut i: usize = 0;
        while i < themes.len()
            invariant
                i <= themes@.len(),
                widths@.len() == i,
                entries == theme_entries(self@.config.theme, names_view(themes@)),
                forall|j: int| 0 <= j < i ==> (#[trigger] widths@[j]) as nat == entries[j].len(),
            decreases themes@.len() - i,
        {
            let marker = if str_eq(themes[i].as_str(), self.config.theme.as_str()) {
                "[✓]"
            } else {
                "[ ]"
            };
            let entry = join3(marker, " ", themes[i].as_str());
            widths.push(char_count(entry.as_str()));
            i += 1;
        }
        legend_rows(&widths, Ghost(entries), total_width, 0, u16::MAX)
    }

    /// The rows that the help panel needs in a terminal of `total_width`
    /// columns, by the pop-up that is open.
    pub fn calculate_help_height(
        &self,
        color_picker_open: bool,
        icon_selector_open: bool,
        total_width: u16,
    ) -> (rows: u16)
        ensures
            rows == help_height(
                help_items(color_picker_open, icon_selector_open),
                self@.status_message is Some,
                total_width,
            ),
            3 <= rows <= 6,
    {
        let ghost entries = help_items(color_picker_open, icon_selector_open);
        let mut widths: Vec<usize> = Vec::new();
        if color_picker_open {
            widths.push(char_count("[↑↓] Navigate"));
            widths.push(char_count("[Tab] Mode"));
            widths.push(char_count("[Enter] Select"));
            widths.push(char_count("[Esc] Cancel"));
        } else if icon_selector_open {
            widths.push(char_count("[↑↓] Navigate"));
            widths.push(char_count("[Tab] Style"));
            widths.push(char_count("[C] Custom"));
            widths.push(char_count("[Enter] Select"));
            widths.push(char_count("[Esc] Cancel"));
        } else {
            widths.push(char_count("[Tab] Switch Panel"));
            widths.push(char_count("[Enter] Toggle/Edit"));
            widths.push(char_count("[Shift+↑↓] Reorder"));
            widths.push(char_count("[1-4] Theme"));
            widths.push(char_count("[P] Switch Theme"));
            widths.push(char_count("[R] Reset"));
            widths.push(char_count("[E] Edit Separator"));
            widths.push(char_count("[S] Save Config"));
            widths.push(char_count("[W] Write Theme"));
            widths.push(char_count("[Ctrl+S] Save Theme"));
            widths.push(char_count("[Esc] Quit"));
        }
        let extra: usize = if self.status_message.is_some() {
            1
        } else {
            0
        };
        legend_rows(&widths, Ghost(entries), total_width, extra, 6)
    }
}

/// The rows of a panel that shows a legend: its lines when wrapped to the
/// inside of the panel, `extra` lines more, and the two borders; at most
/// `most`.
fn legend_rows(
    widths: &Vec<usize>,
    Ghost(entries): Ghost<Seq<Seq<char>>>,
    total_width: u16,
    extra: usize,
    most: u16,
) -> (rows: u16)
    requires
        widths@.len() == entries.len(),
        forall|j: int|
            0 <= j < entries.len() ==> (#[trigger] widths@[j]) as nat == entries[j].len(),
        extra <= 1,
        most >= 3,
    ensures
        rows as int == if legend_lines(entries, total_width) + extra + 2 > most {
            most as int
        } else {
            legend_lines(entries, total_width) + extra + 2
        },
        3 <= rows <= most,
{
    let inner: usize = if total_width < 2 {
        0
    } else {
        (total_width - 2) as usize
    };
    proof {
        assert forall|j: int| 0 <= j < entries.len() implies (#[trigger] widths@[j]) as nat
            == text_width()(entries[j]) by {}
        wrapped_depends_on_widths(entries, text_width(), widths@, 2, inner as nat);
    }
    let counted = count_lines(widths, 2, inner);
    let lines = if counted < 1 {
        1
    } else {
        counted
    };
    if lines >= most as usize {
        most
    } else {
        let rows = lines + extra + 2;
        if rows > most as usize {
            most
        } else {
            rows as u16
        }
    }
}

} // verus!
