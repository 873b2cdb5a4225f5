use letter::editor::mode::{EditorMode, LetterCommand};
use letter::key::KeyCode;
use letter::ui::panel::badge_select_panel::{BadgeRequest, BadgeSelectPanel};
use letter::ui::panel::overview_panel::{
    settle_sub_panel, CursorMovement, HostRequest, NormalCommand, OverviewPanel,
};
use letter::ui::panel::search_panel::{fuzzy_sort, SearchPanel};
use letter::ui::panel::task_note_panel::TaskNotePanel;
use letter::ui::textarea::{KeyHandler, TextBuffer};

fn strings(items: &[&str]) -> Vec<String> {
    items.iter().map(|item| item.to_string()).collect()
}

#[test]
fn fuzzy_sort_puts_the_nearest_first() {
    let mut items = strings(&["xxx", "yyy", "xx"]);
    assert!(fuzzy_sort(&mut items, "xxx"));
    assert_eq!(items, strings(&["xxx", "xx", "yyy"]));
    let mut fruit = strings(&["apple", "banana", "cherry"]);
    assert!(fuzzy_sort(&mut fruit, "banana"));
    assert_eq!(fruit, strings(&["banana", "apple", "cherry"]));
    let mut words = strings(&["rust", "is", "awesome"]);
    assert!(fuzzy_sort(&mut words, "awesome"));
    assert_eq!(words, strings(&["awesome", "rust", "is"]));
}

#[test]
fn fuzzy_sort_keeps_equally_near_items_in_their_order() {
    let mut items = strings(&["ab", "ba", "aa", "bb"]);
    assert!(fuzzy_sort(&mut items, ""));
    assert_eq!(items, strings(&["ab", "ba", "aa", "bb"]));
    let mut none: Vec<String> = Vec::new();
    assert!(fuzzy_sort(&mut none, "x"));
    assert!(none.is_empty());
}

#[test]
fn the_search_panel_orders_its_items_by_the_input() {
    let mut panel: SearchPanel<()> = SearchPanel::new(strings(&["write", "read", "wrote"]));
    assert_eq!(panel.get_name(), "search");
    let mut state = ();
    for c in "rea".chars() {
        assert_eq!(panel.update(Some(KeyCode::Char(c)), &mut state), None);
    }
    assert_eq!(panel.text_area().lines(), &strings(&["rea"]));
    assert_eq!(panel.update(None, &mut state), None);
    assert_eq!(panel.items(), &strings(&["read", "write", "wrote"]));
}

#[test]
fn the_search_panel_has_one_line_and_quits_on_escape() {
    let mut panel: SearchPanel<()> = SearchPanel::new(strings(&["a"]));
    let mut state = ();
    assert_eq!(panel.update(Some(KeyCode::Char('x')), &mut state), None);
    assert_eq!(panel.update(Some(KeyCode::Enter), &mut state), None);
    assert_eq!(panel.text_area().lines(), &strings(&["x"]));
    assert_eq!(panel.update(Some(KeyCode::Esc), &mut state), Some(LetterCommand::Quit));
    assert_eq!(panel.text_area().lines(), &strings(&["x"]));
}

fn badges() -> Vec<(i64, String)> {
    vec![(1, "TODO".to_string()), (2, "In Progress".to_string()), (3, "Done".to_string())]
}

fn shown(panel: &BadgeSelectPanel) -> Vec<(Option<i64>, &str)> {
    panel.values().iter().map(|choice| (choice.id, choice.name.as_str())).collect()
}

#[test]
fn the_badge_panel_offers_the_other_badges_and_none() {
    let panel = BadgeSelectPanel::new(badges(), Some(2), 4, (7, 4));
    assert_eq!(panel.get_name(), "badge-select");
    assert_eq!(shown(&panel), vec![(Some(1), "TODO"), (Some(3), "Done"), (None, "None")]);
    assert_eq!(panel.cursor(), 0);
    assert_eq!(panel.position, (7, 4));
    let all = BadgeSelectPanel::new(badges(), None, 0, (0, 0));
    assert_eq!(shown(&all), vec![(Some(1), "TODO"), (Some(2), "In Progress"), (Some(3), "Done"), (None, "None")]);
    let empty = BadgeSelectPanel::new(vec![], Some(1), 0, (0, 0));
    assert_eq!(shown(&empty), vec![(None, "None")]);
}

#[test]
fn the_badge_cursor_goes_around_the_ends() {
    let mut panel = BadgeSelectPanel::new(badges(), Some(2), 4, (0, 0));
    assert_eq!(panel.update(Some(KeyCode::Char('k'))), (None, None));
    assert_eq!(panel.cursor(), 2);
    assert_eq!(panel.update(Some(KeyCode::Char('j'))), (None, None));
    assert_eq!(panel.cursor(), 0);
    assert_eq!(panel.update(Some(KeyCode::Char('j'))), (None, None));
    assert_eq!(panel.cursor(), 1);
    assert_eq!(panel.update(Some(KeyCode::Char('x'))), (None, None));
    assert_eq!(panel.update(Some(KeyCode::Down)), (None, None));
    assert_eq!(panel.update(None), (None, None));
    assert_eq!(panel.cursor(), 1);
}

#[test]
fn enter_asks_for_the_badge_under_the_cursor() {
    let mut panel = BadgeSelectPanel::new(badges(), Some(2), 4, (0, 0));
    panel.update(Some(KeyCode::Char('j')));
    assert_eq!(
        panel.update(Some(KeyCode::Enter)),
        (Some(LetterCommand::Quit), Some(BadgeRequest::Wear { task: 4, badge: 3 }))
    );
    panel.update(Some(KeyCode::Char('j')));
    assert_eq!(panel.update(Some(KeyCode::Enter)), (Some(LetterCommand::Quit), Some(BadgeRequest::Strip { task: 4 })));
    assert_eq!(panel.update(Some(KeyCode::Char('t'))), (Some(LetterCommand::Quit), None));
    assert_eq!(panel.update(Some(KeyCode::Esc)), (Some(LetterCommand::Quit), None));
}

#[test]
fn the_note_panel_shows_the_note_line_by_line() {
    let panel: TaskNotePanel<()> = TaskNotePanel::new("first\nsecond\n\nfourth", 9);
    assert_eq!(panel.get_name(), "task-note");
    assert_eq!(panel.note_id, 9);
    assert_eq!(panel.text_area().lines(), &strings(&["first", "second", "", "fourth"]));
    let empty: TaskNotePanel<()> = TaskNotePanel::new("", 1);
    assert_eq!(empty.text_area().lines(), &strings(&[""]));
}

#[test]
fn the_note_panel_in_normal_mode() {
    let mut panel: TaskNotePanel<()> = TaskNotePanel::new("one\ntwo", 9);
    let mut mode = EditorMode::Normal;
    let mut state = ();
    let idle = panel.update(&mut mode, Some(KeyCode::Char('x')), &mut state);
    assert_eq!((idle.command, idle.save), (None, None));
    let nothing = panel.update(&mut mode, None, &mut state);
    assert_eq!((nothing.command, nothing.save), (None, None));
    assert_eq!(mode, EditorMode::Normal);
    assert_eq!(panel.text_area().lines(), &strings(&["one", "two"]));
    let stored = panel.update(&mut mode, Some(KeyCode::Esc), &mut state);
    assert_eq!(stored.command, Some(LetterCommand::Quit));
    assert_eq!(stored.save, Some("one\ntwo".to_string()));
    let insert = panel.update(&mut mode, Some(KeyCode::Char('i')), &mut state);
    assert_eq!((insert.command, insert.save), (None, None));
    assert_eq!(mode, EditorMode::Insert);
}

#[test]
fn the_note_panel_in_insert_mode() {
    let mut panel: TaskNotePanel<()> = TaskNotePanel::new("one", 9);
    let mut mode = EditorMode::Insert;
    let mut state = ();
    for key in [KeyCode::Char('i'), KeyCode::Enter, KeyCode::Char('x')] {
        let typed = panel.update(&mut mode, Some(key), &mut state);
        assert_eq!((typed.command, typed.save), (None, None));
    }
    assert_eq!(panel.text_area().lines(), &strings(&["i", "xone"]));
    let quit = panel.update(&mut mode, Some(KeyCode::Esc), &mut state);
    assert_eq!((quit.command, quit.save), (Some(LetterCommand::Quit), None));
    assert_eq!(mode, EditorMode::Insert);
    mode = EditorMode::Normal;
    let stored = panel.update(&mut mode, Some(KeyCode::Esc), &mut state);
    assert_eq!(stored.save, Some("i\nxone".to_string()));
}

#[test]
fn a_sub_panel_that_quits_is_closed_silently() {
    assert_eq!(settle_sub_panel(Some(LetterCommand::Quit)), (true, None));
    assert_eq!(settle_sub_panel(Some(LetterCommand::Save)), (false, Some(LetterCommand::Save)));
    assert_eq!(settle_sub_panel(Some(LetterCommand::Debug)), (false, Some(LetterCommand::Debug)));
    assert_eq!(settle_sub_panel(None), (false, None));
}

struct Host {
    tasks: usize,
}

enum OnKey {
    Enter,
    Escape,
}

impl KeyHandler<Host, Option<LetterCommand>> for OnKey {
    fn handle(&mut self, text: &mut TextBuffer, state: &mut Host) -> (bool, Option<LetterCommand>) {
        match self {
            OnKey::Enter => {
                let (_, row) = text.get_cursor();
                if row >= state.tasks {
                    return (true, None);
                }
                state.tasks += 1;
                text.insert_line_break_at_cursor();
                text.move_cursor_down();
                (true, Some(LetterCommand::Save))
            }
            OnKey::Escape => (true, None),
        }
    }
}

fn overview(lines: &[&str]) -> OverviewPanel<Host, OnKey> {
    let mut panel = OverviewPanel::new();
    panel.init(strings(lines), OnKey::Enter, OnKey::Escape);
    panel
}

fn command(panel: &mut OverviewPanel<Host, OnKey>, keys: &str, mode: &mut EditorMode, tasks: usize) -> (Vec<HostRequest>, Option<LetterCommand>, bool) {
    for key in keys.chars() {
        panel.feed_key(*mode, Some(KeyCode::Char(key)));
    }
    let reaction = panel.react(mode, tasks).expect("the keys make a command");
    (reaction.requests, reaction.command, reaction.finished)
}

#[test]
fn the_overview_starts_with_one_empty_line() {
    let mut panel: OverviewPanel<Host, OnKey> = OverviewPanel::new();
    assert_eq!(panel.get_name(), "Overview");
    assert_eq!(panel.text_area().lines(), &strings(&[""]));
    let mut mode = EditorMode::Normal;
    panel.feed_key(mode, Some(KeyCode::Char('i')));
    assert!(panel.react(&mut mode, 0).is_none());
    assert_eq!(mode, EditorMode::Normal);
}

#[test]
fn the_overview_without_a_command_does_nothing() {
    let mut panel = overview(&["one", "two"]);
    let mut mode = EditorMode::Normal;
    assert!(panel.react(&mut mode, 2).is_none());
    panel.feed_key(mode, None);
    panel.feed_key(mode, Some(KeyCode::Char('d')));
    assert_eq!(panel.get_combo_string(), "d");
    assert!(panel.react(&mut mode, 2).is_none());
    assert_eq!(panel.text_area().lines(), &strings(&["one", "two"]));
}

#[test]
fn the_chords_that_change_to_insert_mode() {
    let mut panel = overview(&["one", "two"]);
    let mut mode = EditorMode::Normal;
    assert_eq!(command(&mut panel, "i", &mut mode, 2), (vec![], None, true));
    assert_eq!(mode, EditorMode::Insert);
    assert_eq!(panel.text_area().get_cursor(), (0, 0));
    mode = EditorMode::Normal;
    assert_eq!(command(&mut panel, "a", &mut mode, 2), (vec![], None, true));
    assert_eq!((mode, panel.text_area().get_cursor()), (EditorMode::Insert, (1, 0)));
    mode = EditorMode::Normal;
    assert_eq!(command(&mut panel, "A", &mut mode, 2), (vec![], None, true));
    assert_eq!((mode, panel.text_area().get_cursor()), (EditorMode::Insert, (3, 0)));
    mode = EditorMode::Normal;
    assert_eq!(command(&mut panel, "I", &mut mode, 2), (vec![], None, true));
    assert_eq!((mode, panel.text_area().get_cursor()), (EditorMode::Insert, (0, 0)));
}

#[test]
fn the_chords_that_move_the_cursor() {
    let mut panel = overview(&["one two", "three"]);
    let mut mode = EditorMode::Normal;
    for (keys, cursor) in [("l", (1, 0)), ("w", (4, 0)), ("j", (4, 1)), ("b", (0, 1)), ("h", (7, 0)), ("k", (7, 0))] {
        assert_eq!(command(&mut panel, keys, &mut mode, 2), (vec![], None, true));
        assert_eq!(panel.text_area().get_cursor(), cursor);
        assert_eq!(mode, EditorMode::Normal);
    }
}

#[test]
fn the_chords_that_ask_the_editor() {
    let mut panel = overview(&["one"]);
    let mut mode = EditorMode::Normal;
    assert_eq!(command(&mut panel, " q", &mut mode, 1), (vec![], Some(LetterCommand::Quit), true));
    assert_eq!(command(&mut panel, " ~", &mut mode, 1), (vec![], Some(LetterCommand::Debug), true));
    assert_eq!(command(&mut panel, " s", &mut mode, 1), (vec![], None, true));
    assert_eq!(command(&mut panel, " ff", &mut mode, 1), (vec![], None, false));
    assert_eq!(mode, EditorMode::Normal);
    assert_eq!(panel.text_area().lines(), &strings(&["one"]));
}

#[test]
fn the_chords_that_delete() {
    let mut panel = overview(&["one", "two", "three"]);
    let mut mode = EditorMode::Normal;
    command(&mut panel, "j", &mut mode, 3);
    assert_eq!(command(&mut panel, "dd", &mut mode, 3), (vec![HostRequest::DeleteTask(1)], Some(LetterCommand::Save), true));
    assert_eq!(panel.text_area().lines(), &strings(&["one", "three"]));
    assert_eq!(command(&mut panel, "dd", &mut mode, 1), (vec![], Some(LetterCommand::Save), true));
    assert_eq!(panel.text_area().lines(), &strings(&["one"]));
    command(&mut panel, "l", &mut mode, 1);
    assert_eq!(command(&mut panel, "x", &mut mode, 1), (vec![], Some(LetterCommand::Save), true));
    assert_eq!(panel.text_area().lines(), &strings(&["ne"]));
    assert_eq!(command(&mut panel, "dd", &mut mode, 1), (vec![HostRequest::DeleteTask(0)], Some(LetterCommand::Save), true));
    assert_eq!(panel.text_area().lines(), &strings(&[""]));
}

#[test]
fn the_chords_that_open_a_panel() {
    let mut panel = overview(&["one", "two"]);
    let mut mode = EditorMode::Normal;
    command(&mut panel, "j", &mut mode, 2);
    command(&mut panel, "l", &mut mode, 2);
    assert_eq!(
        command(&mut panel, "t", &mut mode, 2),
        (vec![HostRequest::SelectBadge { task: 1, column: 1, row: 1 }], None, true)
    );
    panel.feed_key(mode, Some(KeyCode::Enter));
    let reaction = panel.react(&mut mode, 2).expect("enter is a chord");
    assert_eq!((reaction.requests, reaction.command, reaction.finished), (vec![HostRequest::OpenNotes(1)], None, false));
}

#[test]
fn the_chords_that_open_a_line() {
    let mut panel = overview(&["one", "two"]);
    let mut mode = EditorMode::Normal;
    command(&mut panel, "A", &mut mode, 2);
    mode = EditorMode::Normal;
    assert_eq!(command(&mut panel, "o", &mut mode, 2), (vec![HostRequest::CreateTaskAt(1)], None, false));
    assert_eq!(panel.text_area().lines(), &strings(&["one", "", "two"]));
    assert_eq!((mode, panel.text_area().get_cursor()), (EditorMode::Insert, (0, 1)));
    mode = EditorMode::Normal;
    command(&mut panel, "j", &mut mode, 3);
    command(&mut panel, "A", &mut mode, 3);
    mode = EditorMode::Normal;
    assert_eq!(command(&mut panel, "O", &mut mode, 3), (vec![HostRequest::CreateTaskAt(2)], None, false));
    assert_eq!(panel.text_area().lines(), &strings(&["one", "", "", "two"]));
    assert_eq!((mode, panel.text_area().get_cursor()), (EditorMode::Insert, (0, 2)));
}

#[test]
fn a_line_below_without_tasks_asks_for_two_tasks() {
    let mut panel = overview(&[]);
    let mut mode = EditorMode::Normal;
    assert_eq!(
        command(&mut panel, "o", &mut mode, 0),
        (vec![HostRequest::CreateTaskAt(0), HostRequest::CreateTaskAt(1)], None, false)
    );
    assert_eq!(panel.text_area().lines(), &strings(&["", ""]));
    assert_eq!((mode, panel.text_area().get_cursor()), (EditorMode::Insert, (0, 1)));
}

#[test]
fn in_insert_mode_keys_are_dropped_by_the_chords() {
    let mut panel = overview(&["one"]);
    panel.feed_key(EditorMode::Insert, Some(KeyCode::Char('i')));
    let mut mode = EditorMode::Normal;
    assert!(panel.react(&mut mode, 1).is_none());
    assert_eq!(panel.get_combo_string(), "");
}

#[test]
fn in_insert_mode_the_overview_types_and_runs_its_handlers() {
    let mut panel = overview(&["one"]);
    let mut host = Host { tasks: 1 };
    assert_eq!(panel.update_insert(Some(KeyCode::Char('x')), &mut host), None);
    assert_eq!(panel.update_insert(None, &mut host), None);
    assert_eq!(panel.text_area().lines(), &strings(&["xone"]));
    assert_eq!(panel.update_insert(Some(KeyCode::Enter), &mut host), Some(LetterCommand::Save));
    assert_eq!(host.tasks, 2);
    assert_eq!(panel.text_area().lines(), &strings(&["xone"]));
    assert_eq!(panel.update_insert(Some(KeyCode::Esc), &mut host), None);
    assert_eq!(panel.update_insert(Some(KeyCode::Backspace), &mut host), None);
    assert_eq!(panel.text_area().lines(), &strings(&["one"]));
    host.tasks = 0;
    assert_eq!(panel.update_insert(Some(KeyCode::Enter), &mut host), None);
    assert_eq!(host.tasks, 0);
}

#[test]
fn the_normal_chords_include_moves_by_name() {
    let mut panel = overview(&["ab"]);
    let mut mode = EditorMode::Normal;
    panel.feed_key(mode, Some(KeyCode::Char('l')));
    let reaction = panel.react(&mut mode, 1).expect("l is a chord");
    assert!(reaction.requests.is_empty());
    let mut buffer = TextBuffer::new(strings(&["ab"]));
    buffer.move_cursor(CursorMovement::Right);
    assert_eq!(buffer.get_cursor(), panel.text_area().get_cursor());
    assert_ne!(NormalCommand::MoveCursor(CursorMovement::Right), NormalCommand::MoveCursor(CursorMovement::Left));
}
