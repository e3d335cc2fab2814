use rvim::mode::transition;
use rvim::Action;
use rvim::Editor;
use rvim::Key;
use rvim::KeyPress;
use rvim::Line;
use rvim::Mode;
use rvim::Transition;

fn bare(key: Key) -> KeyPress {
    KeyPress { key, modified: false }
}

fn held(key: Key) -> KeyPress {
    KeyPress { key, modified: true }
}

fn editing(text: &str) -> Editor {
    let mut editor = Editor::new();
    editor.init(text);
    editor
}

fn text_of(editor: &Editor) -> String {
    editor.data().iter().collect()
}

#[test]
fn e_enters_insert_and_x_is_typed() {
    let mut editor = editing("ab");
    editor.move_right();
    let next = editor.handle_key(Mode::Normal, bare(Key::Char('e')));
    assert_eq!(next, Transition { mode: Mode::Insert, action: Action::Continue });
    assert_eq!(text_of(&editor), "ab");
    assert_eq!(editor.cursor(), 1);
    let next = editor.handle_key(next.mode, bare(Key::Char('x')));
    assert_eq!(next, Transition { mode: Mode::Insert, action: Action::Continue });
    assert_eq!(text_of(&editor), "axb");
    assert_eq!(editor.cursor(), 2);
}

#[test]
fn escape_in_insert_returns_to_normal_and_saves_once() {
    let mut editor = editing("ab");
    let mut mode = Mode::Insert;
    let mut saved: Vec<String> = Vec::new();
    let keys = [bare(Key::Char('x')), bare(Key::Escape), bare(Key::Char('d')), bare(Key::Other)];
    for press in keys {
        let next = editor.handle_key(mode, press);
        if next.action == Action::Save {
            saved.push(editor.contents());
        }
        mode = next.mode;
    }
    assert_eq!(mode, Mode::Normal);
    assert_eq!(saved, vec!["xab".to_string()]);
    assert_eq!(editor.cursor(), 2);
}

#[test]
fn escape_in_normal_is_ignored() {
    let mut editor = editing("ab");
    let next = editor.handle_key(Mode::Normal, bare(Key::Escape));
    assert_eq!(next, Transition { mode: Mode::Normal, action: Action::Continue });
    assert_eq!(text_of(&editor), "ab");
    assert_eq!(editor.cursor(), 0);
}

#[test]
fn q_in_normal_signals_quit() {
    let mut editor = editing("ab");
    let next = editor.handle_key(Mode::Normal, bare(Key::Char('q')));
    assert_eq!(next, Transition { mode: Mode::Normal, action: Action::Quit });
    assert_eq!(text_of(&editor), "ab");
}

#[test]
fn q_in_insert_is_typed() {
    let mut editor = editing("ab");
    let next = editor.handle_key(Mode::Insert, bare(Key::Char('q')));
    assert_eq!(next, Transition { mode: Mode::Insert, action: Action::Continue });
    assert_eq!(text_of(&editor), "qab");
    assert_eq!(editor.cursor(), 1);
}

#[test]
fn normal_keys_move_the_cursor() {
    let mut editor = editing("ab\ncd");
    let stay = Transition { mode: Mode::Normal, action: Action::Continue };
    assert_eq!(editor.handle_key(Mode::Normal, bare(Key::Char('d'))), stay);
    assert_eq!(editor.cursor(), 1);
    assert_eq!(editor.handle_key(Mode::Normal, bare(Key::Char('s'))), stay);
    assert_eq!(editor.cursor(), 4);
    assert_eq!(editor.handle_key(Mode::Normal, bare(Key::Char('a'))), stay);
    assert_eq!(editor.cursor(), 3);
    assert_eq!(editor.handle_key(Mode::Normal, bare(Key::Char('w'))), stay);
    assert_eq!(editor.cursor(), 0);
    assert_eq!(text_of(&editor), "ab\ncd");
}

#[test]
fn other_keys_in_normal_are_ignored() {
    let mut editor = editing("ab\ncd");
    editor.move_right();
    let stay = Transition { mode: Mode::Normal, action: Action::Continue };
    for key in [Key::Char('x'), Key::Char('E'), Key::Backspace, Key::Other, Key::Char('\n')] {
        assert_eq!(editor.handle_key(Mode::Normal, bare(key)), stay);
        assert_eq!(text_of(&editor), "ab\ncd");
        assert_eq!(editor.cursor(), 1);
    }
}

#[test]
fn normal_keys_act_with_a_modifier_too() {
    let mut editor = editing("ab");
    let next = editor.handle_key(Mode::Normal, held(Key::Char('d')));
    assert_eq!(next, Transition { mode: Mode::Normal, action: Action::Continue });
    assert_eq!(editor.cursor(), 1);
    let next = editor.handle_key(Mode::Normal, held(Key::Char('e')));
    assert_eq!(next.mode, Mode::Insert);
    let next = editor.handle_key(Mode::Normal, held(Key::Char('q')));
    assert_eq!(next.action, Action::Quit);
}

#[test]
fn backspace_in_insert_erases_before_the_cursor() {
    let mut editor = editing("abc");
    editor.move_right();
    editor.move_right();
    let next = editor.handle_key(Mode::Insert, bare(Key::Backspace));
    assert_eq!(next, Transition { mode: Mode::Insert, action: Action::Continue });
    assert_eq!(text_of(&editor), "ac");
    assert_eq!(editor.cursor(), 1);
    assert_eq!(editor.lines(), &vec![Line::new(0, 2)]);
}

#[test]
fn backspace_at_the_start_is_a_no_op() {
    let mut editor = editing("abc");
    let next = editor.handle_key(Mode::Insert, bare(Key::Backspace));
    assert_eq!(next, Transition { mode: Mode::Insert, action: Action::Continue });
    assert_eq!(text_of(&editor), "abc");
    assert_eq!(editor.cursor(), 0);
}

#[test]
fn insert_ignores_keys_with_a_modifier() {
    let mut editor = editing("abc");
    editor.move_right();
    let stay = Transition { mode: Mode::Insert, action: Action::Continue };
    for key in [Key::Escape, Key::Backspace, Key::Char('x'), Key::Other] {
        assert_eq!(editor.handle_key(Mode::Insert, held(key)), stay);
        assert_eq!(text_of(&editor), "abc");
        assert_eq!(editor.cursor(), 1);
    }
}

#[test]
fn other_keys_in_insert_are_ignored() {
    let mut editor = editing("abc");
    let next = editor.handle_key(Mode::Insert, bare(Key::Other));
    assert_eq!(next, Transition { mode: Mode::Insert, action: Action::Continue });
    assert_eq!(text_of(&editor), "abc");
    assert_eq!(editor.cursor(), 0);
}

#[test]
fn typed_text_rebuilds_the_index() {
    let mut editor = editing("");
    for c in ['a', '\n', 'b'] {
        editor.handle_key(Mode::Insert, bare(Key::Char(c)));
    }
    assert_eq!(text_of(&editor), "a\nb");
    assert_eq!(editor.lines(), &vec![Line::new(0, 1), Line::new(2, 3)]);
    assert_eq!(editor.cursor(), 3);
}

#[test]
fn transition_table_of_both_modes() {
    let stay_normal = Transition { mode: Mode::Normal, action: Action::Continue };
    let stay_insert = Transition { mode: Mode::Insert, action: Action::Continue };
    assert_eq!(
        transition(Mode::Normal, bare(Key::Char('e'))),
        Transition { mode: Mode::Insert, action: Action::Continue }
    );
    assert_eq!(
        transition(Mode::Normal, bare(Key::Char('q'))),
        Transition { mode: Mode::Normal, action: Action::Quit }
    );
    for c in ['a', 'd', 'w', 's', 'z'] {
        assert_eq!(transition(Mode::Normal, bare(Key::Char(c))), stay_normal);
    }
    assert_eq!(transition(Mode::Normal, bare(Key::Escape)), stay_normal);
    assert_eq!(transition(Mode::Normal, bare(Key::Backspace)), stay_normal);
    assert_eq!(transition(Mode::Normal, bare(Key::Other)), stay_normal);
    assert_eq!(
        transition(Mode::Insert, bare(Key::Escape)),
        Transition { mode: Mode::Normal, action: Action::Save }
    );
    assert_eq!(transition(Mode::Insert, held(Key::Escape)), stay_insert);
    assert_eq!(transition(Mode::Insert, bare(Key::Char('e'))), stay_insert);
    assert_eq!(transition(Mode::Insert, bare(Key::Char('q'))), stay_insert);
    assert_eq!(transition(Mode::Insert, bare(Key::Backspace)), stay_insert);
    assert_eq!(transition(Mode::Insert, bare(Key::Other)), stay_insert);
}
