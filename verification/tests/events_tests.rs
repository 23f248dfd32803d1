use ccometixline::ui::events::{
    key_command, theme_name, Command, KeyCode, KeyPress, NavDirection, Popups, ThemeKey,
};

fn key(code: KeyCode) -> KeyPress {
    KeyPress { code, control: false, shift: false }
}

fn closed() -> Popups {
    Popups {
        name_input: false,
        separator_editor: false,
        color_picker: false,
        icon_selector: false,
        icon_selector_editing: false,
    }
}

#[test]
fn main_keys() {
    let p = closed();
    assert_eq!(key_command(&p, key(KeyCode::Esc)), Command::Quit);
    assert_eq!(key_command(&p, key(KeyCode::Enter)), Command::ToggleCurrent);
    assert_eq!(key_command(&p, key(KeyCode::Tab)), Command::SwitchPanel);
    assert_eq!(key_command(&p, key(KeyCode::Up)), Command::MoveSelection(-1));
    assert_eq!(key_command(&p, key(KeyCode::Down)), Command::MoveSelection(1));
    assert_eq!(key_command(&p, key(KeyCode::Left)), Command::Ignore);
    assert_eq!(key_command(&p, key(KeyCode::Right)), Command::Ignore);
    assert_eq!(key_command(&p, key(KeyCode::Backspace)), Command::Ignore);
    assert_eq!(key_command(&p, key(KeyCode::Other)), Command::Ignore);
}

#[test]
fn main_keys_with_modifiers() {
    let p = closed();
    let shift_up = KeyPress { code: KeyCode::Up, control: false, shift: true };
    let shift_down = KeyPress { code: KeyCode::Down, control: false, shift: true };
    assert_eq!(key_command(&p, shift_up), Command::MoveSegmentUp);
    assert_eq!(key_command(&p, shift_down), Command::MoveSegmentDown);
    let ctrl_s = KeyPress { code: KeyCode::Char('s'), control: true, shift: false };
    assert_eq!(key_command(&p, ctrl_s), Command::OpenNameInput);
    assert_eq!(key_command(&p, key(KeyCode::Char('s'))), Command::SaveConfig);
    assert_eq!(key_command(&p, key(KeyCode::Char('S'))), Command::Ignore);
}

#[test]
fn main_letters() {
    let p = closed();
    assert_eq!(key_command(&p, key(KeyCode::Char('w'))), Command::WriteTheme);
    assert_eq!(key_command(&p, key(KeyCode::Char('W'))), Command::WriteTheme);
    assert_eq!(key_command(&p, key(KeyCode::Char('1'))), Command::SwitchToTheme(ThemeKey::Default));
    assert_eq!(key_command(&p, key(KeyCode::Char('2'))), Command::SwitchToTheme(ThemeKey::Minimal));
    assert_eq!(key_command(&p, key(KeyCode::Char('3'))), Command::SwitchToTheme(ThemeKey::Gruvbox));
    assert_eq!(key_command(&p, key(KeyCode::Char('4'))), Command::SwitchToTheme(ThemeKey::Nord));
    assert_eq!(key_command(&p, key(KeyCode::Char('5'))), Command::Ignore);
    assert_eq!(key_command(&p, key(KeyCode::Char('p'))), Command::CycleTheme);
    assert_eq!(key_command(&p, key(KeyCode::Char('P'))), Command::Ignore);
    assert_eq!(key_command(&p, key(KeyCode::Char('r'))), Command::ResetTheme);
    assert_eq!(key_command(&p, key(KeyCode::Char('e'))), Command::OpenSeparatorEditor);
    assert_eq!(key_command(&p, key(KeyCode::Char('E'))), Command::OpenSeparatorEditor);
    assert_eq!(key_command(&p, key(KeyCode::Char('x'))), Command::Ignore);
}

#[test]
fn theme_keys_have_names() {
    assert_eq!(theme_name(ThemeKey::Default), "default");
    assert_eq!(theme_name(ThemeKey::Minimal), "minimal");
    assert_eq!(theme_name(ThemeKey::Gruvbox), "gruvbox");
    assert_eq!(theme_name(ThemeKey::Nord), "nord");
}

#[test]
fn name_input_takes_every_key() {
    let mut p = closed();
    p.name_input = true;
    p.color_picker = true;
    assert_eq!(key_command(&p, key(KeyCode::Esc)), Command::NameInputClose);
    assert_eq!(key_command(&p, key(KeyCode::Enter)), Command::NameInputSubmit);
    assert_eq!(key_command(&p, key(KeyCode::Char('s'))), Command::NameInputChar('s'));
    assert_eq!(key_command(&p, key(KeyCode::Char('1'))), Command::NameInputChar('1'));
    assert_eq!(key_command(&p, key(KeyCode::Backspace)), Command::NameInputBackspace);
    assert_eq!(key_command(&p, key(KeyCode::Up)), Command::Ignore);
    assert_eq!(key_command(&p, key(KeyCode::Tab)), Command::Ignore);
}

#[test]
fn separator_editor_keys() {
    let mut p = closed();
    p.separator_editor = true;
    p.icon_selector = true;
    assert_eq!(key_command(&p, key(KeyCode::Esc)), Command::SeparatorEditorClose);
    assert_eq!(key_command(&p, key(KeyCode::Enter)), Command::SeparatorEditorSubmit);
    assert_eq!(key_command(&p, key(KeyCode::Tab)), Command::SeparatorEditorClear);
    assert_eq!(key_command(&p, key(KeyCode::Up)), Command::SeparatorEditorMove(-1));
    assert_eq!(key_command(&p, key(KeyCode::Down)), Command::SeparatorEditorMove(1));
    assert_eq!(key_command(&p, key(KeyCode::Char('|'))), Command::SeparatorEditorChar('|'));
    assert_eq!(key_command(&p, key(KeyCode::Backspace)), Command::SeparatorEditorBackspace);
    assert_eq!(key_command(&p, key(KeyCode::Left)), Command::Ignore);
}

#[test]
fn color_picker_keys() {
    let mut p = closed();
    p.color_picker = true;
    assert_eq!(key_command(&p, key(KeyCode::Esc)), Command::ColorPickerClose);
    assert_eq!(key_command(&p, key(KeyCode::Up)), Command::ColorPickerMove(NavDirection::Up));
    assert_eq!(key_command(&p, key(KeyCode::Down)), Command::ColorPickerMove(NavDirection::Down));
    assert_eq!(key_command(&p, key(KeyCode::Left)), Command::ColorPickerMove(NavDirection::Left));
    assert_eq!(key_command(&p, key(KeyCode::Right)), Command::ColorPickerMove(NavDirection::Right));
    assert_eq!(key_command(&p, key(KeyCode::Tab)), Command::ColorPickerCycleMode);
    assert_eq!(key_command(&p, key(KeyCode::Char('r'))), Command::ColorPickerSwitchToRgb);
    assert_eq!(key_command(&p, key(KeyCode::Enter)), Command::ColorPickerSubmit);
    assert_eq!(key_command(&p, key(KeyCode::Char('7'))), Command::ColorPickerChar('7'));
    assert_eq!(key_command(&p, key(KeyCode::Backspace)), Command::ColorPickerBackspace);
    assert_eq!(key_command(&p, key(KeyCode::Other)), Command::Ignore);
}

#[test]
fn icon_selector_keys() {
    let mut p = closed();
    p.icon_selector = true;
    assert_eq!(key_command(&p, key(KeyCode::Esc)), Command::IconSelectorClose);
    assert_eq!(key_command(&p, key(KeyCode::Up)), Command::IconSelectorMove(-1));
    assert_eq!(key_command(&p, key(KeyCode::Down)), Command::IconSelectorMove(1));
    assert_eq!(key_command(&p, key(KeyCode::Tab)), Command::IconSelectorToggleStyle);
    assert_eq!(key_command(&p, key(KeyCode::Char('c'))), Command::IconSelectorStartCustom);
    assert_eq!(key_command(&p, key(KeyCode::Enter)), Command::IconSelectorSubmit);
    assert_eq!(key_command(&p, key(KeyCode::Char('x'))), Command::Ignore);
    assert_eq!(key_command(&p, key(KeyCode::Backspace)), Command::Ignore);
    p.icon_selector_editing = true;
    assert_eq!(key_command(&p, key(KeyCode::Enter)), Command::IconSelectorFinishCustom);
    assert_eq!(key_command(&p, key(KeyCode::Char('x'))), Command::IconSelectorChar('x'));
    assert_eq!(key_command(&p, key(KeyCode::Char('c'))), Command::IconSelectorStartCustom);
    assert_eq!(key_command(&p, key(KeyCode::Backspace)), Command::IconSelectorBackspace);
    assert_eq!(key_command(&p, key(KeyCode::Left)), Command::Ignore);
}

#[test]
fn editing_flag_alone_opens_nothing() {
    let mut p = closed();
    p.icon_selector_editing = true;
    assert_eq!(key_command(&p, key(KeyCode::Esc)), Command::Quit);
    assert_eq!(key_command(&p, key(KeyCode::Char('x'))), Command::Ignore);
}
