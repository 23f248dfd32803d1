//! From a key press to the command that the editor carries out: the
//! decisions of the event loop, apart from reading keys and drawing.

use vstd::prelude::*;

verus! {

/// The keys that the editor tells apart.
#[derive(Clone, Copy, Debug, PartialEq, Eq, Structural)]
pub enum KeyCode {
    Esc,
    Enter,
    Tab,
    Up,
    Down,
    Left,
    Right,
    Backspace,
    Char(char),
    Other,
}

/// One key press with the modifiers held.
#[derive(Clone, Copy, Debug, PartialEq, Eq, Structural)]
pub struct KeyPress {
    pub code: KeyCode,
    pub control: bool,
    pub shift: bool,
}

/// Which of the pop-ups are open.
#[derive(Clone, Copy, Debug, PartialEq, Eq, Structural)]
pub struct Popups {
    pub name_input: bool,
    pub separator_editor: bool,
    pub color_picker: bool,
    pub icon_selector: bool,
    /// The icon selector is taking a custom icon.
    pub icon_selector_editing: bool,
}

/// A direction in the colour picker.
#[derive(Clone, Copy, Debug, PartialEq, Eq, Structural)]
pub enum NavDirection {
    Up,
    Down,
    Left,
    Right,
}

/// The themes that have a key of their own.
#[derive(Clone, Copy, Debug, PartialEq, Eq, Structural)]
pub enum ThemeKey {
    Default,
    Minimal,
    Gruvbox,
    Nord,
}

/// What the editor does on a key press.
#[derive(Clone, Copy, Debug, PartialEq, Eq, Structural)]
pub enum Command {
    /// The key means nothing here.
    Ignore,
    NameInputClose,
    /// Save under the name typed, then close the name input.
    NameInputSubmit,
    NameInputChar(char),
    NameInputBackspace,
    SeparatorEditorClose,
    /// Take the separator typed, then close the editor.
    SeparatorEditorSubmit,
    SeparatorEditorClear,
    SeparatorEditorMove(i32),
    SeparatorEditorChar(char),
    SeparatorEditorBackspace,
    ColorPickerClose,
    ColorPickerMove(NavDirection),
    ColorPickerCycleMode,
    ColorPickerSwitchToRgb,
    /// Apply the colour picked, then close the picker.
    ColorPickerSubmit,
    ColorPickerChar(char),
    ColorPickerBackspace,
    IconSelectorClose,
    IconSelectorMove(i32),
    IconSelectorToggleStyle,
    IconSelectorStartCustom,
    IconSelectorFinishCustom,
    /// Apply the icon selected, then close the selector.
    IconSelectorSubmit,
    IconSelectorChar(char),
    IconSelectorBackspace,
    Quit,
    OpenNameInput,
    SaveConfig,
    WriteTheme,
    MoveSegmentUp,
    MoveSegmentDown,
    MoveSelection(i32),
    ToggleCurrent,
    SwitchPanel,
    SwitchToTheme(ThemeKey),
    CycleTheme,
    ResetTheme,
    OpenSeparatorEditor,
}

/// The name of a theme that has a key of its own.
pub open spec fn theme_key_name(key: ThemeKey) -> Seq<char> {
    match key {
        ThemeKey::Default => "default"@,
        ThemeKey::Minimal => "minimal"@,
        ThemeKey::Gruvbox => "gruvbox"@,
        ThemeKey::Nord => "nord"@,
    }
}

/// The name of a theme that has a key of its own.
pub fn theme_name(key: ThemeKey) -> (name: &'static str)
    ensures
        name@ == theme_key_name(key),
{
    match key {
        ThemeKey::Default => "default",
        ThemeKey::Minimal => "minimal",
        ThemeKey::Gruvbox => "gruvbox",
        ThemeKey::Nord => "nord",
    }
}

/// What a key means while the name input is open.
pub open spec fn name_input_command(code: KeyCode) -> Command {
    match code {
        KeyCode::Esc => Command::NameInputClose,
        KeyCode::Enter => Command::NameInputSubmit,
        KeyCode::Char(c) => Command::NameInputChar(c),
        KeyCode::Backspace => Command::NameInputBackspace,
        _ => Command::Ignore,
    }
}

/// What a key means while the separator editor is open.
pub open spec fn separator_editor_command(code: KeyCode) -> Command {
    match code {
        KeyCode::Esc => Command::SeparatorEditorClose,
        KeyCode::Enter => Command::SeparatorEditorSubmit,
        KeyCode::Tab => Command::SeparatorEditorClear,
        KeyCode::Up => Command::SeparatorEditorMove(-1i32),
        KeyCode::Down => Command::SeparatorEditorMove(1),
        KeyCode::Char(c) => Command::SeparatorEditorChar(c),
        KeyCode::Backspace => Command::SeparatorEditorBackspace,
        _ => Command::Ignore,
    }
}

/// What a key means while the colour picker is open. `r` switches to RGB
/// input and is never typed.
pub open spec fn color_picker_command(code: KeyCode) -> Command {
    match code {
        KeyCode::Esc => Command::ColorPickerClose,
        KeyCode::Up => Command::ColorPickerMove(NavDirection::Up),
        KeyCode::Down => Command::ColorPickerMove(NavDirection::Down),
        KeyCode::Left => Command::ColorPickerMove(NavDirection::Left),
        KeyCode::Right => Command::ColorPickerMove(NavDirection::Right),
        KeyCode::Tab => Command::ColorPickerCycleMode,
        KeyCode::Enter => Command::ColorPickerSubmit,
        KeyCode::Char(c) => if c == 'r' {
            Command::ColorPickerSwitchToRgb
        } else {
            Command::ColorPickerChar(c)
        },
        KeyCode::Backspace => Command::ColorPickerBackspace,
        _ => Command::Ignore,
    }
}

/// What a key means while the icon selector is open. `c` starts the input
/// of a custom icon and is never typed; other characters and backspace
/// count only while a custom icon is typed.
pub open spec fn icon_selector_command(code: KeyCode, editing: bool) -> Command {
    match code {
        KeyCode::Esc => Command::IconSelectorClose,
        KeyCode::Up => Command::IconSelectorMove(-1i32),
        KeyCode::Down => Command::IconSelectorMove(1),
        KeyCode::Tab => Command::IconSelectorToggleStyle,
        KeyCode::Enter => if editing {
            Command::IconSelectorFinishCustom
        } else {
            Command::IconSelectorSubmit
        },
        KeyCode::Char(c) => if c == 'c' {
            Command::IconSelectorStartCustom
        } else if editing {
            Command::IconSelectorChar(c)
        } else {
            Command::Ignore
        },
        KeyCode::Backspace => if editing {
            Command::IconSelectorBackspace
        } else {
            Command::Ignore
        },
        _ => Command::Ignore,
    }
}

/// What a character means while no pop-up is open.
pub open spec fn main_char_command(c: char, control: bool) -> Command {
    if c == 's' {
        if control {
            Command::OpenNameInput
        } else {
            Command::SaveConfig
        }
    } else if c == 'w' || c == 'W' {
        Command::WriteTheme
    } else if c == '1' {
        Command::SwitchToTheme(ThemeKey::Default)
    } else if c == '2' {
        Command::SwitchToTheme(ThemeKey::Minimal)
    } else if c == '3' {
        Command::SwitchToTheme(ThemeKey::Gruvbox)
    } else if c == '4' {
        Command::SwitchToTheme(ThemeKey::Nord)
    } else if c == 'p' {
        Command::CycleTheme
    } else if c == 'r' {
        Command::ResetTheme
    } else if c == 'e' || c == 'E' {
        Command::OpenSeparatorEditor
    } else {
        Command::Ignore
    }
}

/// What a key means while no pop-up is open.
pub open spec fn main_command(key: KeyPress) -> Command {
    match key.code {
        KeyCode::Esc => Command::Quit,
        KeyCode::Char(c) => main_char_command(c, key.control),
        KeyCode::Up => if key.shift {
            Command::MoveSegmentUp
        } else {
            Command::MoveSelection(-1i32)
        },
        KeyCode::Down => if key.shift {
            Command::MoveSegmentDown
        } else {
            Command::MoveSelection(1)
        },
        KeyCode::Enter => Command::ToggleCurrent,
        KeyCode::Tab => Command::SwitchPanel,
        _ => Command::Ignore,
    }
}

/// What a key means. An open pop-up takes every key; where several are
/// open, the name input comes first, then the separator editor, the colour
/// picker and the icon selector.
pub open spec fn command_for(popups: Popups, key: KeyPress) -> Command {
    if popups.name_input {
        name_input_command(key.code)
    } else if popups.separator_editor {
        separator_editor_command(key.code)
    } else if popups.color_picker {
        color_picker_command(key.code)
    } else if popups.icon_selector {
        icon_selector_command(key.code, popups.icon_selector_editing)
    } else {
        main_command(key)
    }
}

/// Tells whether a command acts on a pop-up.
pub open spec fn is_popup_command(command: Command) -> bool {
    match command {
        Command::Ignore
        | Command::Quit
        | Command::OpenNameInput
        | Command::SaveConfig
        | Command::WriteTheme
        | Command::MoveSegmentUp
        | Command::MoveSegmentDown
        | Command::MoveSelection(_)
        | Command::ToggleCurrent
        | Command::SwitchPanel
        | Command::SwitchToTheme(_)
        | Command::CycleTheme
        | Command::ResetTheme
        | Command::OpenSeparatorEditor => false,
        _ => true,
    }
}

/// While a pop-up is open no key reaches the editor behind it, and while
/// none is open no key reaches a pop-up.
pub proof fn popups_take_every_key(popups: Popups, key: KeyPress)
    ensures
        command_for(popups, key) != Command::Ignore ==> (is_popup_command(command_for(popups, key))
            <==> popups.name_input || popups.separator_editor || popups.color_picker
            || popups.icon_selector),
{
}

fn main_key(key: KeyPress) -> (command: Command)
    ensures
        command == main_command(key),
{
    match key.code {
        KeyCode::Esc => Command::Quit,
        KeyCode::Char(c) => {
            if c == 's' {
                if key.control {
                    Command::OpenNameInput
                } else {
                    Command::SaveConfig
                }
            } else if c == 'w' || c == 'W' {
                Command::WriteTheme
            } else if c == '1' {
                Command::SwitchToTheme(ThemeKey::Default)
            } else if c == '2' {
                Command::SwitchToTheme(ThemeKey::Minimal)
            } else if c == '3' {
                Command::SwitchToTheme(ThemeKey::Gruvbox)
            } else if c == '4' {
                Command::SwitchToTheme(ThemeKey::Nord)
            } else if c == 'p' {
                Command::CycleTheme
            } else if c == 'r' {
                Command::ResetTheme
            } else if c == 'e' || c == 'E' {
                Command::OpenSeparatorEditor
            } else {
                Command::Ignore
            }
        },
        KeyCode::Up => if key.shift {
            Command::MoveSegmentUp
        } else {
            Command::MoveSelection(-1i32)
        },
        KeyCode::Down => if key.shift {
            Command::MoveSegmentDown
        } else {
            Command::MoveSelection(1)
        },
        KeyCode::Enter => Command::ToggleCurrent,
        KeyCode::Tab => Command::SwitchPanel,
        _ => Command::Ignore,
    }
}

/// Decides what the editor does on a key press.
pub fn key_command(popups: &Popups, key: KeyPress) -> (command: Command)
    ensures
        command == command_for(*popups, key),
{
    if popups.name_input {
        match key.code {
            KeyCode::Esc => Command::NameInputClose,
            KeyCode::Enter => Command::NameInputSubmit,
            KeyCode::Char(c) => Command::NameInputChar(c),
            KeyCode::Backspace => Command::NameInputBackspace,
            _ => Command::Ignore,
        }
    } else if popups.separator_editor {
        match key.code {
            KeyCode::Esc => Command::SeparatorEditorClose,
            KeyCode::Enter => Command::SeparatorEditorSubmit,
            KeyCode::Tab => Command::SeparatorEditorClear,
            KeyCode::Up => Command::SeparatorEditorMove(-1i32),
            KeyCode::Down => Command::SeparatorEditorMove(1),
            KeyCode::Char(c) => Command::SeparatorEditorChar(c),
            KeyCode::Backspace => Command::SeparatorEditorBackspace,
            _ => Command::Ignore,
        }
    } else if popups.color_picker {
        match key.code {
            KeyCode::Esc => Command::ColorPickerClose,
            KeyCode::Up => Command::ColorPickerMove(NavDirection::Up),
            KeyCode::Down => Command::ColorPickerMove(NavDirection::Down),
            KeyCode::Left => Command::ColorPickerMove(NavDirection::Left),
            KeyCode::Right => Command::ColorPickerMove(NavDirection::Right),
            KeyCode::Tab => Command::ColorPickerCycleMode,
            KeyCode::Enter => Command::ColorPickerSubmit,
            KeyCode::Char(c) => if c == 'r' {
                Command::ColorPickerSwitchToRgb
            } else {
                Command::ColorPickerChar(c)
            },
            KeyCode::Backspace => Command::ColorPickerBackspace,
            _ => Command::Ignore,
        }
    } else if popups.icon_selector {
        let editing = popups.icon_selector_editing;
        match key.code {
            KeyCode::Esc => Command::IconSelectorClose,
            KeyCode::Up => Command::IconSelectorMove(-1i32),
            KeyCode::Down => Command::IconSelectorMove(1),
            KeyCode::Tab => Command::IconSelectorToggleStyle,
            KeyCode::Enter => if editing {
                Command::IconSelectorFinishCustom
            } else {
                Command::IconSelectorSubmit
            },
            KeyCode::Char(c) => if c == 'c' {
                Command::IconSelectorStartCustom
            } else if editing {
                Command::IconSelectorChar(c)
            } else {
                Command::Ignore
            },
            KeyCode::Backspace => if editing {
                Command::IconSelectorBackspace
            } else {
                Command::Ignore
            },
            _ => Command::Ignore,
        }
    } else {
        main_key(key)
    }
}

} // verus!
