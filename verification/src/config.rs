//! Configuration values the pipeline consumes.
//!
//! These are plain data: durations in milliseconds, chunk sizes, styles and
//! keybindings. They are resolved by an external configuration-loading
//! component (command line and configuration file); the pipeline itself has
//! no knowledge of file formats or defaults merging, it only reads the
//! resolved values. Every `default` here states exactly the value it
//! builds.

use vstd::prelude::*;

verus! {

/// A terminal color, as far as the defaults need to name one.
#[derive(Clone, Copy, Debug, PartialEq, Eq, Structural)]
pub enum Color {
    Blue,
    Cyan,
    Green,
    Grey,
    Magenta,
    Yellow,
}

/// How a span of text is drawn.
#[derive(Clone, Copy, Debug, PartialEq, Eq, Structural)]
pub struct ContentStyle {
    pub foreground: Option<Color>,
    pub background: Option<Color>,
    pub bold: bool,
    pub dim: bool,
}

impl ContentStyle {
    /// The terminal's own colors, no attributes.
    pub fn plain() -> (r: Self)
        ensures
            r == (ContentStyle { foreground: None, background: None, bold: false, dim: false }),
    {
        ContentStyle { foreground: None, background: None, bold: false, dim: false }
    }
}

/// A key on the keyboard.
#[derive(Clone, Copy, Debug, PartialEq, Eq, Structural)]
pub enum KeyCode {
    Char(char),
    Up,
    Down,
    Left,
    Right,
    Enter,
    Tab,
    Backspace,
}

/// Modifier keys held together with the key.
#[derive(Clone, Copy, Debug, PartialEq, Eq, Structural)]
pub struct KeyModifiers {
    pub control: bool,
    pub alt: bool,
    pub shift: bool,
}

impl KeyModifiers {
    pub fn none() -> (r: Self)
        ensures
            r == (KeyModifiers { control: false, alt: false, shift: false }),
    {
        KeyModifiers { control: false, alt: false, shift: false }
    }

    pub fn control() -> (r: Self)
        ensures
            r == (KeyModifiers { control: true, alt: false, shift: false }),
    {
        KeyModifiers { control: true, alt: false, shift: false }
    }

    pub fn alt() -> (r: Self)
        ensures
            r == (KeyModifiers { control: false, alt: true, shift: false }),
    {
        KeyModifiers { control: false, alt: true, shift: false }
    }

    pub fn shift() -> (r: Self)
        ensures
            r == (KeyModifiers { control: false, alt: false, shift: true }),
    {
        KeyModifiers { control: false, alt: false, shift: true }
    }
}

/// One concrete key chord.
#[derive(Clone, Copy, Debug, PartialEq, Eq, Structural)]
pub struct KeyEventDef {
    pub code: KeyCode,
    pub modifiers: KeyModifiers,
}

impl KeyEventDef {
    pub fn new(code: KeyCode, modifiers: KeyModifiers) -> (r: Self)
        ensures
            r == (KeyEventDef { code, modifiers }),
    {
        KeyEventDef { code, modifiers }
    }
}

/// An input event a binding can match on.
#[derive(Clone, Copy, Debug, PartialEq, Eq, Structural)]
pub enum EventDef {
    Key(KeyEventDef),
}

/// The set of events bound to one action.
#[derive(Clone)]
pub struct EventDefSet {
    pub defs: Vec<EventDef>,
}

impl EventDefSet {
    pub fn single(def: KeyEventDef) -> (r: Self)
        ensures
            r.defs@ == seq![EventDef::Key(def)],
    {
        let mut defs: Vec<EventDef> = Vec::new();
        defs.push(EventDef::Key(def));
        proof {
            assert(defs@ =~= seq![EventDef::Key(def)]);
        }
        EventDefSet { defs }
    }

    pub fn pair(first: KeyEventDef, second: KeyEventDef) -> (r: Self)
        ensures
            r.defs@ == seq![EventDef::Key(first), EventDef::Key(second)],
    {
        let mut defs: Vec<EventDef> = Vec::new();
        defs.push(EventDef::Key(first));
        defs.push(EventDef::Key(second));
        proof {
            assert(defs@ =~= seq![EventDef::Key(first), EventDef::Key(second)]);
        }
        EventDefSet { defs }
    }

    /// Whether the set contains the given chord.
    #[verifier::loop_isolation(false)]
    pub fn matches(&self, code: KeyCode, modifiers: KeyModifiers) -> (r: bool)
        ensures
            r == self.defs@.contains(EventDef::Key(KeyEventDef { code, modifiers })),
    {
        let wanted = EventDef::Key(KeyEventDef { code, modifiers });
        let mut i: usize = 0;
        while i < self.defs.len()
            invariant
                i <= self.defs@.len(),
                forall|j: int| 0 <= j < i ==> self.defs@[j] != wanted,
            decreases self.defs@.len() - i,
        {
            if self.defs[i] == wanted {
                proof {
                    assert(self.defs@[i as int] == wanted);
                }
                return true;
            }
            i = i + 1;
        }
        false
    }
}

/// The editing mode of the expression editor.
#[derive(Clone, Copy, Debug, PartialEq, Eq, Structural)]
pub enum EditMode {
    /// New input is inserted at the cursor.
    Insert,
    /// New input replaces the character under the cursor.
    Overwrite,
}

/// Decides the edit mode named on the command line: `insert` (or nothing)
/// and `overwrite` are the two accepted spellings; anything else is
/// rejected with the message shown to the user.
pub fn edit_mode_validator(val: &String) -> (r: Result<EditMode, String>)
    ensures
        (val@ == "insert"@ || val@ == ""@) ==> r == Ok::<EditMode, String>(EditMode::Insert),
        val@ == "overwrite"@ ==> r == Ok::<EditMode, String>(EditMode::Overwrite),
        !(val@ == "insert"@ || val@ == ""@ || val@ == "overwrite"@) ==> (r matches Err(m)
            && m@ == "edit-mode must be 'insert' or 'overwrite'"@),
{
    proof {
        reveal_strlit("insert");
        reveal_strlit("overwrite");
        reveal_strlit("");
        assert("insert"@.len() == 6);
        assert("overwrite"@.len() == 9);
        assert(""@.len() == 0);
    }
    if val.eq(&"insert".to_owned()) || val.eq(&"".to_owned()) {
        Ok(EditMode::Insert)
    } else if val.eq(&"overwrite".to_owned()) {
        Ok(EditMode::Overwrite)
    } else {
        Err("edit-mode must be 'insert' or 'overwrite'".to_owned())
    }
}

/// The expression editor's colors for one focus state.
pub struct EditorTheme {
    pub prefix: String,
    pub prefix_style: ContentStyle,
    pub active_char_style: ContentStyle,
    pub inactive_char_style: ContentStyle,
}

/// The expression editor's appearance and behaviour.
pub struct EditorConfig {
    pub theme_on_focus: EditorTheme,
    pub theme_on_defocus: EditorTheme,
    pub mode: EditMode,
    pub word_break_chars: Vec<char>,
}

impl Default for EditorConfig {
    fn default() -> (r: Self)
        ensures
            r.theme_on_focus.prefix@ == "❯❯ "@,
            r.theme_on_focus.prefix_style == (ContentStyle {
                foreground: Some(Color::Blue),
                background: None,
                bold: false,
                dim: false,
            }),
            r.theme_on_focus.active_char_style == (ContentStyle {
                foreground: None,
                background: Some(Color::Magenta),
                bold: false,
                dim: false,
            }),
            r.theme_on_focus.inactive_char_style == (ContentStyle {
                foreground: None,
                background: None,
                bold: false,
                dim: false,
            }),
            r.theme_on_defocus.prefix@ == "▼ "@,
            r.theme_on_defocus.prefix_style == (ContentStyle {
                foreground: Some(Color::Blue),
                background: None,
                bold: false,
                dim: true,
            }),
            r.theme_on_defocus.active_char_style == (ContentStyle {
                foreground: None,
                background: None,
                bold: false,
                dim: true,
            }),
            r.theme_on_defocus.inactive_char_style == (ContentStyle {
                foreground: None,
                background: None,
                bold: false,
                dim: true,
            }),
            r.mode == EditMode::Insert,
            r.word_break_chars@ == seq!['.', '|', '(', ')', '[', ']'],
    {
        let mut word_break_chars: Vec<char> = Vec::new();
        word_break_chars.push('.');
        word_break_chars.push('|');
        word_break_chars.push('(');
        word_break_chars.push(')');
        word_break_chars.push('[');
        word_break_chars.push(']');
        proof {
            assert(word_break_chars@ =~= seq!['.', '|', '(', ')', '[', ']']);
        }
        EditorConfig {
            theme_on_focus: EditorTheme {
                prefix: "❯❯ ".to_owned(),
                prefix_style: ContentStyle {
                    foreground: Some(Color::Blue),
                    background: None,
                    bold: false,
                    dim: false,
                },
                active_char_style: ContentStyle {
                    foreground: None,
                    background: Some(Color::Magenta),
                    bold: false,
                    dim: false,
                },
                inactive_char_style: ContentStyle::plain(),
            },
            theme_on_defocus: EditorTheme {
                prefix: "▼ ".to_owned(),
                prefix_style: ContentStyle {
                    foreground: Some(Color::Blue),
                    background: None,
                    bold: false,
                    dim: true,
                },
                active_char_style: ContentStyle {
                    foreground: None,
                    background: None,
                    bold: false,
                    dim: true,
                },
                inactive_char_style: ContentStyle {
                    foreground: None,
                    background: None,
                    bold: false,
                    dim: true,
                },
            },
            mode: EditMode::Insert,
            word_break_chars,
        }
    }
}

/// The result pane's colors per node kind.
#[derive(Clone, Copy, Debug, PartialEq, Eq, Structural)]
pub struct JsonTheme {
    pub indent: usize,
    pub curly_brackets_style: ContentStyle,
    pub square_brackets_style: ContentStyle,
    pub key_style: ContentStyle,
    pub string_value_style: ContentStyle,
    pub number_value_style: ContentStyle,
    pub boolean_value_style: ContentStyle,
    pub null_value_style: ContentStyle,
}

/// The result pane's appearance and limits.
#[derive(Clone, Copy, Debug, PartialEq, Eq, Structural)]
pub struct JsonConfig {
    pub max_streams: Option<usize>,
    pub theme: JsonTheme,
}

impl Default for JsonConfig {
    fn default() -> (r: Self)
        ensures
            r == spec_default_json_config(),
    {
        let bold = ContentStyle { foreground: None, background: None, bold: true, dim: false };
        JsonConfig {
            max_streams: None,
            theme: JsonTheme {
                indent: 2,
                curly_brackets_style: bold,
                square_brackets_style: bold,
                key_style: ContentStyle {
                    foreground: Some(Color::Cyan),
                    background: None,
                    bold: false,
                    dim: false,
                },
                string_value_style: ContentStyle {
                    foreground: Some(Color::Green),
                    background: None,
                    bold: false,
                    dim: false,
                },
                number_value_style: ContentStyle::plain(),
                boolean_value_style: ContentStyle::plain(),
                null_value_style: ContentStyle {
                    foreground: Some(Color::Grey),
                    background: None,
                    bold: false,
                    dim: false,
                },
            },
        }
    }
}

/// The default result pane configuration: bold delimiters, cyan keys,
/// green strings, grey nulls, two-column indent, no stream limit.
pub open spec fn spec_default_json_config() -> JsonConfig {
    JsonConfig {
        max_streams: None,
        theme: JsonTheme {
            indent: 2,
            curly_brackets_style: ContentStyle {
                foreground: None,
                background: None,
                bold: true,
                dim: false,
            },
            square_brackets_style: ContentStyle {
                foreground: None,
                background: None,
                bold: true,
                dim: false,
            },
            key_style: ContentStyle {
                foreground: Some(Color::Cyan),
                background: None,
                bold: false,
                dim: false,
            },
            string_value_style: ContentStyle {
                foreground: Some(Color::Green),
                background: None,
                bold: false,
                dim: false,
            },
            number_value_style: ContentStyle {
                foreground: None,
                background: None,
                bold: false,
                dim: false,
            },
            boolean_value_style: ContentStyle {
                foreground: None,
                background: None,
                bold: false,
                dim: false,
            },
            null_value_style: ContentStyle {
                foreground: Some(Color::Grey),
                background: None,
                bold: false,
                dim: false,
            },
        },
    }
}

/// The suggestion pane's appearance and the loader's chunk sizes.
pub struct CompletionConfig {
    pub lines: Option<usize>,
    pub cursor: String,
    pub search_result_chunk_size: usize,
    pub search_load_chunk_size: usize,
    pub active_item_style: ContentStyle,
    pub inactive_item_style: ContentStyle,
}

impl Default for CompletionConfig {
    fn default() -> (r: Self)
        ensures
            r.lines == Some(3usize),
            r.cursor@ == "❯ "@,
            r.search_result_chunk_size == 100,
            r.search_load_chunk_size == 50000,
            r.active_item_style == (ContentStyle {
                foreground: Some(Color::Grey),
                background: Some(Color::Yellow),
                bold: false,
                dim: false,
            }),
            r.inactive_item_style == (ContentStyle {
                foreground: Some(Color::Grey),
                background: None,
                bold: false,
                dim: false,
            }),
    {
        CompletionConfig {
            lines: Some(3),
            cursor: "❯ ".to_owned(),
            search_result_chunk_size: 100,
            search_load_chunk_size: 50000,
            active_item_style: ContentStyle {
                foreground: Some(Color::Grey),
                background: Some(Color::Yellow),
                bold: false,
                dim: false,
            },
            inactive_item_style: ContentStyle {
                foreground: Some(Color::Grey),
                background: None,
                bold: false,
                dim: false,
            },
        }
    }
}

/// The debounce quiet periods and the spinner tick interval, in
/// milliseconds.
#[derive(Clone, Copy, Debug, PartialEq, Eq, Structural)]
pub struct ReactivityControl {
    pub query_debounce_duration: u64,
    pub resize_debounce_duration: u64,
    pub spin_duration: u64,
}

impl Default for ReactivityControl {
    fn default() -> (r: Self)
        ensures
            r.query_debounce_duration == 600,
            r.resize_debounce_duration == 200,
            r.spin_duration == 300,
    {
        ReactivityControl {
            query_debounce_duration: 600,
            resize_debounce_duration: 200,
            spin_duration: 300,
        }
    }
}

/// The key chords bound to the expression editor's actions.
#[derive(Clone)]
pub struct EditorKeybinds {
    pub backward: EventDefSet,
    pub forward: EventDefSet,
    pub move_to_head: EventDefSet,
    pub move_to_tail: EventDefSet,
    pub move_to_previous_nearest: EventDefSet,
    pub move_to_next_nearest: EventDefSet,
    pub erase: EventDefSet,
    pub erase_all: EventDefSet,
    pub erase_to_previous_nearest: EventDefSet,
    pub erase_to_next_nearest: EventDefSet,
    pub completion: EventDefSet,
    pub on_completion: CompletionKeybinds,
}

/// The key chords bound while the completion list is open.
#[derive(Clone)]
pub struct CompletionKeybinds {
    pub up: EventDefSet,
    pub down: EventDefSet,
}

/// The key chords bound in the result viewer.
#[derive(Clone)]
pub struct JsonViewerKeybinds {
    pub up: EventDefSet,
    pub down: EventDefSet,
    pub move_to_head: EventDefSet,
    pub move_to_tail: EventDefSet,
    pub toggle: EventDefSet,
    pub expand: EventDefSet,
    pub collapse: EventDefSet,
}

/// All key chords of the interface.
#[derive(Clone)]
pub struct Keybinds {
    pub exit: EventDefSet,
    pub copy_query: EventDefSet,
    pub copy_result: EventDefSet,
    pub switch_mode: EventDefSet,
    pub on_editor: EditorKeybinds,
    pub on_json_viewer: JsonViewerKeybinds,
}

/// A one-chord binding with the control key held.
pub open spec fn spec_ctrl(c: char) -> Seq<EventDef> {
    seq![
        EventDef::Key(
            KeyEventDef {
                code: KeyCode::Char(c),
                modifiers: KeyModifiers { control: true, alt: false, shift: false },
            },
        ),
    ]
}

/// A one-chord binding with the alt key held.
pub open spec fn spec_alt(c: char) -> Seq<EventDef> {
    seq![
        EventDef::Key(
            KeyEventDef {
                code: KeyCode::Char(c),
                modifiers: KeyModifiers { control: false, alt: true, shift: false },
            },
        ),
    ]
}

/// A one-chord binding with no modifier held.
pub open spec fn spec_bare(code: KeyCode) -> Seq<EventDef> {
    seq![
        EventDef::Key(
            KeyEventDef {
                code,
                modifiers: KeyModifiers { control: false, alt: false, shift: false },
            },
        ),
    ]
}

impl Default for Keybinds {
    fn default() -> (r: Self)
        ensures
            r.exit.defs@ == spec_ctrl('c'),
            r.copy_query.defs@ == spec_ctrl('q'),
            r.copy_result.defs@ == spec_ctrl('o'),
            r.switch_mode.defs@ == seq![
                EventDef::Key(
                    KeyEventDef {
                        code: KeyCode::Down,
                        modifiers: KeyModifiers { control: false, alt: false, shift: true },
                    },
                ),
                EventDef::Key(
                    KeyEventDef {
                        code: KeyCode::Up,
                        modifiers: KeyModifiers { control: false, alt: false, shift: true },
                    },
                ),
            ],
            r.on_editor.backward.defs@ == spec_bare(KeyCode::Left),
            r.on_editor.forward.defs@ == spec_bare(KeyCode::Right),
            r.on_editor.move_to_head.defs@ == spec_ctrl('a'),
            r.on_editor.move_to_tail.defs@ == spec_ctrl('e'),
            r.on_editor.move_to_next_nearest.defs@ == spec_alt('f'),
            r.on_editor.move_to_previous_nearest.defs@ == spec_alt('b'),
            r.on_editor.erase.defs@ == spec_bare(KeyCode::Backspace),
            r.on_editor.erase_all.defs@ == spec_ctrl('u'),
            r.on_editor.erase_to_previous_nearest.defs@ == spec_ctrl('w'),
            r.on_editor.erase_to_next_nearest.defs@ == spec_alt('d'),
            r.on_editor.completion.defs@ == spec_bare(KeyCode::Tab),
            r.on_editor.on_completion.up.defs@ == spec_bare(KeyCode::Up),
            r.on_editor.on_completion.down.defs@ == spec_bare(KeyCode::Tab) + spec_bare(
                KeyCode::Down,
            ),
            r.on_json_viewer.up.defs@ == spec_ctrl('k') + spec_bare(KeyCode::Up),
            r.on_json_viewer.down.defs@ == spec_ctrl('j') + spec_bare(KeyCode::Down),
            r.on_json_viewer.move_to_head.defs@ == spec_ctrl('l'),
            r.on_json_viewer.move_to_tail.defs@ == spec_ctrl('h'),
            r.on_json_viewer.toggle.defs@ == spec_bare(KeyCode::Enter),
            r.on_json_viewer.expand.defs@ == spec_ctrl('p'),
            r.on_json_viewer.collapse.defs@ == spec_ctrl('n'),
    {
        let r = Keybinds {
            exit: EventDefSet::single(KeyEventDef::new(KeyCode::Char('c'), KeyModifiers::control())),
            copy_query: EventDefSet::single(
                KeyEventDef::new(KeyCode::Char('q'), KeyModifiers::control()),
            ),
            copy_result: EventDefSet::single(
                KeyEventDef::new(KeyCode::Char('o'), KeyModifiers::control()),
            ),
            switch_mode: EventDefSet::pair(
                KeyEventDef::new(KeyCode::Down, KeyModifiers::shift()),
                KeyEventDef::new(KeyCode::Up, KeyModifiers::shift()),
            ),
            on_editor: EditorKeybinds {
                backward: EventDefSet::single(
                    KeyEventDef::new(KeyCode::Left, KeyModifiers::none()),
                ),
                forward: EventDefSet::single(
                    KeyEventDef::new(KeyCode::Right, KeyModifiers::none()),
                ),
                move_to_head: EventDefSet::single(
                    KeyEventDef::new(KeyCode::Char('a'), KeyModifiers::control()),
                ),
                move_to_tail: EventDefSet::single(
                    KeyEventDef::new(KeyCode::Char('e'), KeyModifiers::control()),
                ),
                move_to_next_nearest: EventDefSet::single(
                    KeyEventDef::new(KeyCode::Char('f'), KeyModifiers::alt()),
                ),
                move_to_previous_nearest: EventDefSet::single(
                    KeyEventDef::new(KeyCode::Char('b'), KeyModifiers::alt()),
                ),
                erase: EventDefSet::single(
                    KeyEventDef::new(KeyCode::Backspace, KeyModifiers::none()),
                ),
                erase_all: EventDefSet::single(
                    KeyEventDef::new(KeyCode::Char('u'), KeyModifiers::control()),
                ),
                erase_to_previous_nearest: EventDefSet::single(
                    KeyEventDef::new(KeyCode::Char('w'), KeyModifiers::control()),
                ),
                erase_to_next_nearest: EventDefSet::single(
                    KeyEventDef::new(KeyCode::Char('d'), KeyModifiers::alt()),
                ),
                completion: EventDefSet::single(
                    KeyEventDef::new(KeyCode::Tab, KeyModifiers::none()),
                ),
                on_completion: CompletionKeybinds {
                    up: EventDefSet::single(KeyEventDef::new(KeyCode::Up, KeyModifiers::none())),
                    down: EventDefSet::pair(
                        KeyEventDef::new(KeyCode::Tab, KeyModifiers::none()),
                        KeyEventDef::new(KeyCode::Down, KeyModifiers::none()),
                    ),
                },
            },
            on_json_viewer: JsonViewerKeybinds {
                up: EventDefSet::pair(
                    KeyEventDef::new(KeyCode::Char('k'), KeyModifiers::control()),
                    KeyEventDef::new(KeyCode::Up, KeyModifiers::none()),
                ),
                down: EventDefSet::pair(
                    KeyEventDef::new(KeyCode::Char('j'), KeyModifiers::control()),
                    KeyEventDef::new(KeyCode::Down, KeyModifiers::none()),
                ),
                move_to_head: EventDefSet::single(
                    KeyEventDef::new(KeyCode::Char('l'), KeyModifiers::control()),
                ),
                move_to_tail: EventDefSet::single(
                    KeyEventDef::new(KeyCode::Char('h'), KeyModifiers::control()),
                ),
                toggle: EventDefSet::single(KeyEventDef::new(KeyCode::Enter, KeyModifiers::none())),
                expand: EventDefSet::single(
                    KeyEventDef::new(KeyCode::Char('p'), KeyModifiers::control()),
                ),
                collapse: EventDefSet::single(
                    KeyEventDef::new(KeyCode::Char('n'), KeyModifiers::control()),
                ),
            },
        };
        proof {
            assert(r.switch_mode.defs@ =~= seq![
                EventDef::Key(
                    KeyEventDef {
                        code: KeyCode::Down,
                        modifiers: KeyModifiers { control: false, alt: false, shift: true },
                    },
                ),
                EventDef::Key(
                    KeyEventDef {
                        code: KeyCode::Up,
                        modifiers: KeyModifiers { control: false, alt: false, shift: true },
                    },
                ),
            ]);
            assert(r.on_editor.on_completion.down.defs@ =~= spec_bare(KeyCode::Tab) + spec_bare(
                KeyCode::Down,
            ));
            assert(r.on_json_viewer.up.defs@ =~= spec_ctrl('k') + spec_bare(KeyCode::Up));
            assert(r.on_json_viewer.down.defs@ =~= spec_ctrl('j') + spec_bare(KeyCode::Down));
        }
        r
    }
}

/// Everything the whole interface is configured by.
pub struct Config {
    pub no_hint: bool,
    pub reactivity_control: ReactivityControl,
    pub editor: EditorConfig,
    pub json: JsonConfig,
    pub completion: CompletionConfig,
    pub keybinds: Keybinds,
}

impl Default for Config {
    fn default() -> (r: Self)
        ensures
            !r.no_hint,
            r.reactivity_control == (ReactivityControl {
                query_debounce_duration: 600,
                resize_debounce_duration: 200,
                spin_duration: 300,
            }),
            r.json == spec_default_json_config(),
            r.completion.search_result_chunk_size == 100,
            r.completion.search_load_chunk_size == 50000,
    {
        Config {
            no_hint: false,
            reactivity_control: ReactivityControl::default(),
            editor: EditorConfig::default(),
            json: JsonConfig::default(),
            completion: CompletionConfig::default(),
            keybinds: Keybinds::default(),
        }
    }
}

} // verus!
