use markdeck::commands::Command;
use markdeck::config::{join, Config, Keymaps};
use markdeck::keys::{keycode_to_string, KeyCode, KeyModifiers};

#[test]
fn test_default_config_j_scrolls_down() {
    let config = Config::default();
    let cmd = config.get_command(KeyCode::Char('j'), KeyModifiers::none());
    assert!(matches!(cmd, Some(Command::ScrollDown)));
}

#[test]
fn test_default_config_down_arrow_scrolls_down() {
    let config = Config::default();
    let cmd = config.get_command(KeyCode::Down, KeyModifiers::none());
    assert!(matches!(cmd, Some(Command::ScrollDown)));
}

#[test]
fn test_default_config_ctrl_f_pages_down() {
    let config = Config::default();
    let cmd = config.get_command(KeyCode::Char('f'), KeyModifiers::control());
    assert!(matches!(cmd, Some(Command::PageDown)));
}

#[test]
fn test_keycode_to_string_char() {
    let s = keycode_to_string(KeyCode::Char('a'), KeyModifiers::none());
    assert_eq!(s, "a");
}

#[test]
fn test_keycode_to_string_ctrl() {
    let s = keycode_to_string(KeyCode::Char('f'), KeyModifiers::control());
    assert_eq!(s, "C-f");
}

#[test]
fn test_keycode_to_string_arrow() {
    let s = keycode_to_string(KeyCode::Down, KeyModifiers::none());
    assert_eq!(s, "Down");
}

#[test]
fn test_format_help_text_default_config() {
    let config = Config::default();
    let help_text = config.format_help_text();
    assert!(help_text.contains("h/l: slides"));
    assert!(help_text.contains("j/k: scroll"));
    assert!(help_text.contains("C-d/C-u: half page"));
    assert!(help_text.contains("C-f/C-b: full page"));
    assert!(help_text.contains("g/G: top/bottom"));
    assert!(help_text.contains("q: quit"));
}

#[test]
fn test_get_keys_for_command() {
    let config = Config::default();
    assert_eq!(config.get_keys_for_command(Command::ScrollDown), Some("j"));
    assert_eq!(config.get_keys_for_command(Command::ScrollUp), Some("k"));
    assert_eq!(config.get_keys_for_command(Command::NextSlide), Some("l"));
}

#[test]
fn help_text_of_the_default_config() {
    let config = Config::default();
    assert_eq!(
        config.format_help_text(),
        "h/l: slides  j/k: scroll  C-d/C-u: half page  C-f/C-b: full page  g/G: top/bottom  q: quit"
    );
}

#[test]
fn help_text_leaves_out_a_pair_with_an_unbound_command() {
    let mut config = Config::default();
    config.keymaps.scroll_up.clear();
    config.keymaps.jump_to_top.clear();
    config.keymaps.next_slide = vec!["Right".to_string(), "l".to_string()];
    assert_eq!(
        config.format_help_text(),
        "h/Right: slides  C-d/C-u: half page  C-f/C-b: full page  q: quit"
    );
}

#[test]
fn help_text_without_any_binding_tells_how_to_quit() {
    let config = Config { keymaps: Keymaps::default() };
    assert_eq!(config.format_help_text(), "q: quit");
}

#[test]
fn join_puts_the_separator_between_parts() {
    assert_eq!(join(&vec![], ", "), "");
    assert_eq!(join(&vec!["a".to_string()], ", "), "a");
    assert_eq!(join(&vec!["a".to_string(), "".to_string(), "c".to_string()], ", "), "a, , c");
}

#[test]
fn default_config_binds_every_command() {
    let config = Config::default();
    assert_eq!(config.keymaps.scroll_down, vec!["j", "Down"]);
    assert_eq!(config.keymaps.scroll_up, vec!["k", "Up"]);
    assert_eq!(config.keymaps.previous_slide, vec!["h"]);
    assert_eq!(config.keymaps.next_slide, vec!["l"]);
    assert_eq!(config.keymaps.page_down, vec!["C-f"]);
    assert_eq!(config.keymaps.page_up, vec!["C-b"]);
    assert_eq!(config.keymaps.half_page_down, vec!["C-d"]);
    assert_eq!(config.keymaps.half_page_up, vec!["C-u"]);
    assert_eq!(config.keymaps.jump_to_top, vec!["g"]);
    assert_eq!(config.keymaps.jump_to_bottom, vec!["G"]);
}

#[test]
fn default_config_finds_every_command() {
    let config = Config::default();
    let none = KeyModifiers::none();
    let control = KeyModifiers::control();
    assert_eq!(config.get_command(KeyCode::Char('k'), none), Some(Command::ScrollUp));
    assert_eq!(config.get_command(KeyCode::Up, none), Some(Command::ScrollUp));
    assert_eq!(config.get_command(KeyCode::Char('h'), none), Some(Command::PreviousSlide));
    assert_eq!(config.get_command(KeyCode::Char('l'), none), Some(Command::NextSlide));
    assert_eq!(config.get_command(KeyCode::Char('b'), control), Some(Command::PageUp));
    assert_eq!(config.get_command(KeyCode::Char('d'), control), Some(Command::HalfPageDown));
    assert_eq!(config.get_command(KeyCode::Char('u'), control), Some(Command::HalfPageUp));
    assert_eq!(config.get_command(KeyCode::Char('g'), none), Some(Command::JumpToTop));
    assert_eq!(config.get_command(KeyCode::Char('G'), none), Some(Command::JumpToBottom));
    assert_eq!(
        config.get_command(KeyCode::Char('G'), KeyModifiers::shift()),
        Some(Command::JumpToBottom)
    );
}

#[test]
fn unbound_key_has_no_command() {
    let config = Config::default();
    assert_eq!(config.get_command(KeyCode::Char('x'), KeyModifiers::none()), None);
    assert_eq!(config.get_command(KeyCode::Char('j'), KeyModifiers::control()), None);
    assert_eq!(config.get_command(KeyCode::Enter, KeyModifiers::none()), None);
    assert_eq!(config.get_command(KeyCode::Other, KeyModifiers::none()), None);
}

#[test]
fn key_shared_by_two_commands_goes_to_the_first() {
    let mut config = Config { keymaps: Keymaps::default() };
    config.keymaps.jump_to_bottom = vec!["x".to_string()];
    config.keymaps.page_up = vec!["y".to_string(), "x".to_string()];
    config.keymaps.scroll_up = vec!["x".to_string()];
    let none = KeyModifiers::none();
    assert_eq!(config.get_command(KeyCode::Char('x'), none), Some(Command::ScrollUp));
    assert_eq!(config.get_command(KeyCode::Char('y'), none), Some(Command::PageUp));
}

#[test]
fn empty_binding_is_found_by_a_key_without_a_name() {
    let mut config = Config { keymaps: Keymaps::default() };
    config.keymaps.page_down = vec![String::new()];
    let control = KeyModifiers::control();
    assert_eq!(config.get_command(KeyCode::Other, control), Some(Command::PageDown));
}

#[test]
fn command_without_keys_has_no_first_key() {
    let mut config = Config::default();
    config.keymaps.page_up.clear();
    assert_eq!(config.get_keys_for_command(Command::PageUp), None);
    assert_eq!(config.get_keys_for_command(Command::PageDown), Some("C-f"));
    assert_eq!(config.get_keys_for_command(Command::PreviousSlide), Some("h"));
    assert_eq!(config.get_keys_for_command(Command::HalfPageDown), Some("C-d"));
    assert_eq!(config.get_keys_for_command(Command::HalfPageUp), Some("C-u"));
    assert_eq!(config.get_keys_for_command(Command::JumpToTop), Some("g"));
    assert_eq!(config.get_keys_for_command(Command::JumpToBottom), Some("G"));
}

#[test]
fn key_text_of_named_keys() {
    let none = KeyModifiers::none();
    assert_eq!(keycode_to_string(KeyCode::Up, none), "Up");
    assert_eq!(keycode_to_string(KeyCode::Left, none), "Left");
    assert_eq!(keycode_to_string(KeyCode::Right, none), "Right");
    assert_eq!(keycode_to_string(KeyCode::Enter, none), "Enter");
    assert_eq!(keycode_to_string(KeyCode::Esc, none), "Esc");
    assert_eq!(keycode_to_string(KeyCode::Tab, none), "Tab");
    assert_eq!(keycode_to_string(KeyCode::Backspace, none), "Backspace");
    assert_eq!(keycode_to_string(KeyCode::Char('\u{e9}'), none), "\u{e9}");
}

#[test]
fn key_text_with_modifiers() {
    assert_eq!(keycode_to_string(KeyCode::Char('x'), KeyModifiers::alt()), "A-x");
    assert_eq!(keycode_to_string(KeyCode::Enter, KeyModifiers::control()), "C-Enter");
    let both = KeyModifiers { alt: true, ..KeyModifiers::control() };
    assert_eq!(keycode_to_string(KeyCode::Char('x'), both), "C-x");
    assert_eq!(keycode_to_string(KeyCode::Char('G'), KeyModifiers::shift()), "G");
}

#[test]
fn key_without_a_name_has_an_empty_text() {
    assert_eq!(keycode_to_string(KeyCode::Other, KeyModifiers::none()), "");
    assert_eq!(keycode_to_string(KeyCode::Other, KeyModifiers::control()), "");
}
