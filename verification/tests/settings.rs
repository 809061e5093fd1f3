use jnv::config::{
    edit_mode_validator, Color, CompletionConfig, Config, EditMode, EditorConfig, JsonConfig,
    KeyCode, KeyModifiers, Keybinds, ReactivityControl,
};

#[test]
fn reactivity_defaults_match_documented_intervals() {
    let r = ReactivityControl::default();
    assert_eq!(r.query_debounce_duration, 600);
    assert_eq!(r.resize_debounce_duration, 200);
    assert_eq!(r.spin_duration, 300);
}

#[test]
fn completion_defaults_give_loader_chunk_sizes() {
    let c = CompletionConfig::default();
    assert_eq!(c.search_result_chunk_size, 100);
    assert_eq!(c.search_load_chunk_size, 50_000);
    assert_eq!(c.lines, Some(3));
    assert_eq!(c.cursor, "❯ ");
    assert_eq!(c.active_item_style.foreground, Some(Color::Grey));
    assert_eq!(c.active_item_style.background, Some(Color::Yellow));
}

#[test]
fn json_defaults_indent_and_styles() {
    let j = JsonConfig::default();
    assert_eq!(j.max_streams, None);
    assert_eq!(j.theme.indent, 2);
    assert!(j.theme.curly_brackets_style.bold);
    assert_eq!(j.theme.key_style.foreground, Some(Color::Cyan));
    assert_eq!(j.theme.string_value_style.foreground, Some(Color::Green));
    assert_eq!(j.theme.null_value_style.foreground, Some(Color::Grey));
}

#[test]
fn editor_defaults_prefix_and_word_breaks() {
    let e = EditorConfig::default();
    assert_eq!(e.theme_on_focus.prefix, "❯❯ ");
    assert_eq!(e.theme_on_defocus.prefix, "▼ ");
    assert!(matches!(e.mode, EditMode::Insert));
    assert_eq!(e.word_break_chars, vec!['.', '|', '(', ')', '[', ']']);
    assert!(e.theme_on_defocus.prefix_style.dim);
}

#[test]
fn keybind_defaults_match_chords() {
    let k = Keybinds::default();
    assert!(k.exit.matches(KeyCode::Char('c'), KeyModifiers::control()));
    assert!(!k.exit.matches(KeyCode::Char('c'), KeyModifiers::none()));
    assert!(k.copy_query.matches(KeyCode::Char('q'), KeyModifiers::control()));
    assert!(k.copy_result.matches(KeyCode::Char('o'), KeyModifiers::control()));
    assert!(k.switch_mode.matches(KeyCode::Down, KeyModifiers::shift()));
    assert!(k.switch_mode.matches(KeyCode::Up, KeyModifiers::shift()));
    assert!(k.on_editor.erase.matches(KeyCode::Backspace, KeyModifiers::none()));
    assert!(k.on_editor.completion.matches(KeyCode::Tab, KeyModifiers::none()));
    assert!(k.on_editor.on_completion.down.matches(KeyCode::Tab, KeyModifiers::none()));
    assert!(k.on_editor.on_completion.down.matches(KeyCode::Down, KeyModifiers::none()));
    assert!(k.on_json_viewer.up.matches(KeyCode::Char('k'), KeyModifiers::control()));
    assert!(k.on_json_viewer.up.matches(KeyCode::Up, KeyModifiers::none()));
    assert!(k.on_json_viewer.toggle.matches(KeyCode::Enter, KeyModifiers::none()));
    assert!(k.on_json_viewer.expand.matches(KeyCode::Char('p'), KeyModifiers::control()));
    assert!(k.on_json_viewer.collapse.matches(KeyCode::Char('n'), KeyModifiers::control()));
}

#[test]
fn whole_config_default_is_consistent() {
    let c = Config::default();
    assert!(!c.no_hint);
    assert_eq!(c.reactivity_control.query_debounce_duration, 600);
    assert_eq!(c.completion.search_load_chunk_size, 50_000);
}

#[test]
fn edit_mode_validator_accepts_and_rejects() {
    assert!(matches!(
        edit_mode_validator(&"insert".to_string()),
        Ok(EditMode::Insert)
    ));
    assert!(matches!(edit_mode_validator(&"".to_string()), Ok(EditMode::Insert)));
    assert!(matches!(
        edit_mode_validator(&"overwrite".to_string()),
        Ok(EditMode::Overwrite)
    ));
    match edit_mode_validator(&"vim".to_string()) {
        Err(m) => assert_eq!(m, "edit-mode must be 'insert' or 'overwrite'"),
        Ok(_) => panic!("unknown modes are rejected"),
    }
}
