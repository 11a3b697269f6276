use tasklist::checklist::{Todo, TodoList};
use tasklist::draw::{clear_all, hide_cursor, input, show_cursor};
use tasklist::panel::{Effect, Event, Key, Mode, Operation, Panel, UiSection};
use tasklist::settings::Settings;

const W: u16 = 80;
const H: u16 = 24;

fn panel_with(entries: &[(&str, bool)]) -> Panel {
    let mut list = TodoList::new("L".to_string());
    for (i, (text, done)) in entries.iter().enumerate() {
        list.todos.push(Todo {
            id: i as i16 + 1,
            item: text.to_string(),
            priority: 0,
            tags: vec![],
            done: *done,
        });
    }
    Panel::new(list, Settings::default("/home/u".to_string()))
}

fn texts(p: &Panel) -> Vec<String> {
    p.list.todos.iter().map(|t| t.item.clone()).collect()
}

fn in_range(p: &Panel) -> bool {
    if p.list.todos.is_empty() {
        p.highlighted == 0
    } else {
        p.highlighted < p.list.todos.len()
    }
}

fn is_single_write(effects: &[Effect]) -> bool {
    effects.len() == 1 && matches!(effects[0], Effect::Write(_))
}

#[test]
fn scenario_toggle_highlight_and_move() {
    let mut p = panel_with(&[("Buy milk", false), ("Write spec", false)]);
    assert_eq!(p.highlighted, 0);
    let out = p.handle_event(Event::Toggle, W, H);
    assert!(is_single_write(&out));
    assert!(p.list.todos[0].done);
    let out = p.handle_event(Event::HighlightDown, W, H);
    assert!(is_single_write(&out));
    assert_eq!(p.highlighted, 1);
    let out = p.handle_event(Event::MoveDown, W, H);
    assert!(out.is_empty());
    assert_eq!(texts(&p), vec!["Buy milk", "Write spec"]);
    assert_eq!(p.highlighted, 1);
    let out = p.handle_event(Event::MoveUp, W, H);
    assert!(is_single_write(&out));
    assert_eq!(texts(&p), vec!["Write spec", "Buy milk"]);
    assert_eq!(p.highlighted, 0);
}

#[test]
fn scenario_empty_list_input_and_create() {
    let mut p = panel_with(&[]);
    assert!(p.handle_event(Event::Input(Operation::Update), W, H).is_empty());
    assert_eq!(p.mode, Mode::Idle);
    assert!(p.handle_event(Event::Input(Operation::Delete), W, H).is_empty());
    assert_eq!(p.mode, Mode::Idle);
    let out = p.handle_event(Event::Commit(Operation::Create, "Task A".to_string()), W, H);
    assert_eq!(out.len(), 2);
    assert_eq!(out[0], Effect::ActivateRawMode);
    assert_eq!(p.list.todos.len(), 1);
    assert_eq!(p.highlighted, 0);
    let t = &p.list.todos[0];
    assert_eq!(t.item, "Task A");
    assert_eq!(t.id, 1);
    assert_eq!(t.priority, 0);
    assert!(t.tags.is_empty());
    assert!(!t.done);
}

#[test]
fn scenario_second_save_cancels_first_flash() {
    let mut p = panel_with(&[("a", false)]);
    let message = "\x1b[24;1H\x1b[38;5;2mSuccessfully saved list\x1b[m".to_string();
    assert_eq!(p.handle_event(Event::Save, W, H), vec![Effect::Persist]);
    let first = p.saved(Ok(()), H);
    assert_eq!(first, vec![Effect::Write(message.clone()), Effect::ScheduleFlashClear(1)]);
    assert!(p.flash_pending);
    assert_eq!(p.handle_event(Event::Save, W, H), vec![Effect::Persist]);
    let second = p.saved(Ok(()), H);
    assert_eq!(
        second,
        vec![Effect::CancelFlash, Effect::Write(message), Effect::ScheduleFlashClear(2)]
    );
    let scheduled = first
        .iter()
        .chain(second.iter())
        .filter(|e| matches!(e, Effect::ScheduleFlashClear(_)))
        .count();
    let cancelled = first.iter().chain(second.iter()).filter(|e| **e == Effect::CancelFlash).count();
    assert_eq!(scheduled - cancelled, 1);
    assert!(p.handle_event(Event::FlashExpired(1), W, H).is_empty());
    assert!(p.flash_pending);
    let out = p.handle_event(Event::FlashExpired(2), W, H);
    assert_eq!(out, vec![Effect::Write("\x1b[19;80H\x1b[J\x1b[?25l".to_string())]);
    assert!(!p.flash_pending);
    assert!(p.handle_event(Event::FlashExpired(2), W, H).is_empty());
}

#[test]
fn clearing_keeps_text_entry_open() {
    let mut p = panel_with(&[("a", false)]);
    p.handle_event(Event::Input(Operation::Create), W, H);
    p.handle_event(Event::Clear(Some(UiSection::Status)), W, H);
    assert_eq!(p.mode, Mode::AwaitingInput(Operation::Create));
    p.handle_event(Event::Clear(None), W, H);
    assert_eq!(p.mode, Mode::AwaitingInput(Operation::Create));
}

#[test]
fn read_error_ends_text_entry() {
    let mut p = panel_with(&[("A", false)]);
    p.handle_event(Event::Input(Operation::Update), 12, 10);
    let out = p.handle_event(Event::IoError("eof".to_string()), 12, 10);
    let redraw = format!(
        "{}{}\x1b[5;12H\x1b[1J\x1b[?25l╭────L─────╮\r\n\x1b[1m[ ] A      │\r\n\x1b[m╰───0/1────╯\r\n",
        clear_all(),
        hide_cursor()
    );
    assert_eq!(
        out,
        vec![
            Effect::ActivateRawMode,
            Effect::Write(redraw),
            Effect::Write("\x1b[10;1H\x1b[38;5;3mUnexpected i/o error: eof\x1b[m".to_string()),
            Effect::ScheduleFlashClear(1)
        ]
    );
    assert_eq!(p.mode, Mode::Idle);
}

#[test]
fn failed_save_is_reported() {
    let mut p = panel_with(&[]);
    let out = p.saved(Err("denied".to_string()), H);
    assert_eq!(
        out,
        vec![
            Effect::Write("\x1b[24;1H\x1b[38;5;3mUnable to save list: denied\x1b[m".to_string()),
            Effect::ScheduleFlashClear(1)
        ]
    );
}

#[test]
fn io_error_is_flashed() {
    let mut p = panel_with(&[]);
    let out = p.handle_event(Event::IoError("disk".to_string()), W, H);
    assert_eq!(
        out,
        vec![
            Effect::Write("\x1b[24;1H\x1b[38;5;3mUnexpected i/o error: disk\x1b[m".to_string()),
            Effect::ScheduleFlashClear(1)
        ]
    );
}

#[test]
fn redraw_output_is_exact() {
    let mut p = panel_with(&[("A", false)]);
    let out = p.handle_event(Event::Redraw, 12, 10);
    let expected = "\x1b[5;12H\x1b[1J\x1b[?25l╭────L─────╮\r\n\x1b[1m[ ] A      │\r\n\x1b[m╰───0/1────╯\r\n";
    assert_eq!(out, vec![Effect::Write(expected.to_string())]);
}

#[test]
fn redraw_of_empty_list() {
    let mut p = panel_with(&[]);
    let out = p.handle_event(Event::Redraw, 30, 3);
    let expected = format!(
        "\x1b[0;30H\x1b[1J\x1b[?25l╭{}L{}╮\r\nNothing to display...{}│\r\n╰{}0/0{}╯\r\n",
        "─".repeat(13),
        "─".repeat(14),
        " ".repeat(8),
        "─".repeat(12),
        "─".repeat(13)
    );
    assert_eq!(out, vec![Effect::Write(expected)]);
}

#[test]
fn done_entry_uses_checked_symbol() {
    let mut p = panel_with(&[("A", false), ("B", true)]);
    let out = p.handle_event(Event::Redraw, 12, 10);
    match &out[0] {
        Effect::Write(text) => {
            assert!(text.contains("[x] B"));
            assert!(text.contains("1/2"));
        }
        other => panic!("unexpected effect {:?}", other),
    }
}

#[test]
fn start_clears_then_draws() {
    let p = panel_with(&[("A", false)]);
    let out = p.start(12, 10);
    let expected = format!(
        "{}{}\x1b[5;12H\x1b[1J\x1b[?25l╭────L─────╮\r\n\x1b[1m[ ] A      │\r\n\x1b[m╰───0/1────╯\r\n",
        clear_all(),
        hide_cursor()
    );
    assert_eq!(out, vec![Effect::Write(expected)]);
}

#[test]
fn quit_restores_terminal_and_stops() {
    let mut p = panel_with(&[("A", false)]);
    let out = p.handle_event(Event::Quit, W, H);
    assert_eq!(out, vec![Effect::Write(clear_all() + &show_cursor()), Effect::Terminate]);
    assert_eq!(p.mode, Mode::Terminated);
    assert!(p.handle_event(Event::Toggle, W, H).is_empty());
    assert!(!p.list.todos[0].done);
    assert!(p.saved(Ok(()), H).is_empty());
}

#[test]
fn input_create_opens_entry_box() {
    let mut p = panel_with(&[]);
    let out = p.handle_event(Event::Input(Operation::Create), W, H);
    assert_eq!(out, vec![Effect::SuspendRawMode, Effect::Write(input("Todo", 1, H - 2))]);
    assert_eq!(p.mode, Mode::AwaitingInput(Operation::Create));
}

#[test]
fn input_update_shows_current_text() {
    let mut p = panel_with(&[("first", false), ("second", false)]);
    p.handle_event(Event::HighlightDown, W, H);
    let out = p.handle_event(Event::Input(Operation::Update), W, H);
    assert_eq!(out, vec![Effect::SuspendRawMode, Effect::Write(input("second", 1, H - 2))]);
    p.handle_event(Event::Commit(Operation::Update, "changed".to_string()), W, H);
    assert_eq!(texts(&p), vec!["first", "changed"]);
    assert_eq!(p.mode, Mode::Idle);
}

#[test]
fn input_delete_asks_for_confirmation() {
    let mut p = panel_with(&[("a", false)]);
    let out = p.handle_event(Event::Input(Operation::Delete), W, H);
    assert_eq!(
        out,
        vec![Effect::Write("\x1b[24;1H\x1b[38;5;3mAre you sure? (y/n)\x1b[m".to_string())]
    );
    assert_eq!(p.mode, Mode::AwaitingInput(Operation::Delete));
    p.handle_event(Event::Clear(Some(UiSection::Status)), W, H);
    assert_eq!(p.mode, Mode::Idle);
    assert_eq!(p.list.todos.len(), 1);
}

#[test]
fn input_cancels_running_flash() {
    let mut p = panel_with(&[("a", false)]);
    p.saved(Ok(()), H);
    let out = p.handle_event(Event::Input(Operation::Create), W, H);
    assert_eq!(out[0], Effect::CancelFlash);
    assert!(!p.flash_pending);
}

#[test]
fn clear_whole_screen_and_content() {
    let mut p = panel_with(&[]);
    let out = p.handle_event(Event::Clear(None), W, H);
    assert_eq!(out, vec![Effect::Write(clear_all() + &hide_cursor())]);
    let out = p.handle_event(Event::Clear(Some(UiSection::Content)), W, H);
    assert_eq!(out, vec![Effect::Write("\x1b[19;80H\x1b[1J\x1b[?25l".to_string())]);
}

#[test]
fn unbound_key_does_nothing() {
    let mut p = panel_with(&[("a", false)]);
    assert!(p.handle_event(Event::KeyPressed(Key::Char('z')), W, H).is_empty());
    assert!(p.handle_event(Event::KeyPressed(Key::F(3)), W, H).is_empty());
}

#[test]
fn highlight_stays_in_range_through_events() {
    let mut p = panel_with(&[("a", false), ("b", false), ("c", true)]);
    let events = vec![
        Event::HighlightDown,
        Event::HighlightDown,
        Event::HighlightDown,
        Event::MoveUp,
        Event::Commit(Operation::Delete, String::new()),
        Event::HighlightDown,
        Event::Commit(Operation::Delete, String::new()),
        Event::Commit(Operation::Delete, String::new()),
        Event::HighlightDown,
        Event::HighlightUp,
        Event::Commit(Operation::Delete, String::new()),
        Event::Toggle,
        Event::MoveDown,
        Event::Commit(Operation::Create, "n".to_string()),
        Event::HighlightDown,
    ];
    for e in events {
        p.handle_event(e, W, H);
        assert!(in_range(&p));
    }
    assert_eq!(texts(&p), vec!["n"]);
}

#[test]
fn highlight_stops_at_both_ends() {
    let mut p = panel_with(&[("a", false), ("b", false)]);
    assert!(p.handle_event(Event::HighlightUp, W, H).is_empty());
    assert_eq!(p.highlighted, 0);
    p.handle_event(Event::HighlightDown, W, H);
    assert!(p.handle_event(Event::HighlightDown, W, H).is_empty());
    assert_eq!(p.highlighted, 1);
}

#[test]
fn move_on_short_list_does_nothing() {
    let mut p = panel_with(&[("only", false)]);
    assert!(p.handle_event(Event::MoveUp, W, H).is_empty());
    assert!(p.handle_event(Event::MoveDown, W, H).is_empty());
    assert_eq!(texts(&p), vec!["only"]);
    let mut e = panel_with(&[]);
    assert!(e.handle_event(Event::MoveDown, W, H).is_empty());
}

#[test]
fn move_keeps_entries_and_follows_item() {
    let mut p = panel_with(&[("a", false), ("b", false), ("c", false)]);
    p.handle_event(Event::MoveDown, W, H);
    assert_eq!(texts(&p), vec!["b", "a", "c"]);
    assert_eq!(p.highlighted, 1);
    p.handle_event(Event::MoveDown, W, H);
    assert_eq!(texts(&p), vec!["b", "c", "a"]);
    assert_eq!(p.highlighted, 2);
    p.handle_event(Event::MoveUp, W, H);
    assert_eq!(texts(&p), vec!["b", "a", "c"]);
    assert_eq!(p.highlighted, 1);
    assert_eq!(p.list.todos[p.highlighted].item, "a");
}

#[test]
fn toggle_twice_restores() {
    let mut p = panel_with(&[("a", false), ("b", true)]);
    p.handle_event(Event::HighlightDown, W, H);
    p.handle_event(Event::Toggle, W, H);
    assert!(!p.list.todos[1].done);
    p.handle_event(Event::Toggle, W, H);
    assert!(p.list.todos[1].done);
    assert!(!p.list.todos[0].done);
    let mut e = panel_with(&[]);
    assert!(e.handle_event(Event::Toggle, W, H).is_empty());
}

#[test]
fn delete_reclamps_highlight() {
    let mut p = panel_with(&[("a", false), ("b", false), ("c", false)]);
    p.handle_event(Event::HighlightDown, W, H);
    p.handle_event(Event::Commit(Operation::Delete, String::new()), W, H);
    assert_eq!(texts(&p), vec!["a", "c"]);
    assert_eq!(p.highlighted, 1);
    p.handle_event(Event::Commit(Operation::Delete, String::new()), W, H);
    assert_eq!(texts(&p), vec!["a"]);
    assert_eq!(p.highlighted, 0);
    p.handle_event(Event::Commit(Operation::Delete, String::new()), W, H);
    assert!(p.list.todos.is_empty());
    assert_eq!(p.highlighted, 0);
    let out = p.handle_event(Event::Commit(Operation::Delete, String::new()), W, H);
    assert_eq!(out.len(), 2);
    assert!(p.list.todos.is_empty());
}

#[test]
fn create_assigns_fresh_ids() {
    let mut p = panel_with(&[("a", false), ("b", false)]);
    p.handle_event(Event::Commit(Operation::Create, "c".to_string()), W, H);
    assert_eq!(p.list.todos[2].id, 3);
    assert_eq!(p.highlighted, 0);
}
