use kacemon::app::Mode;
use kacemon::canvas::Canvas;
use kacemon::input::{KeyCode, KeyPress, TerminalEvent};
use kacemon::metrics::process::{ProcessReading, RawStatus};
use kacemon::metrics::Readings;
use kacemon::{App, Config, DrawOp, Fixed, InputEvent, InputHandler, Rect, SortKey};

fn key(code: KeyCode) -> KeyPress {
    KeyPress { code, control: false }
}

fn control(code: KeyCode) -> KeyPress {
    KeyPress { code, control: true }
}

#[test]
fn keys_are_bound_to_their_commands() {
    let mut handler = InputHandler::new();
    let bindings = [
        (KeyCode::Up, InputEvent::MoveUp),
        (KeyCode::Char('k'), InputEvent::MoveUp),
        (KeyCode::Down, InputEvent::MoveDown),
        (KeyCode::Char('j'), InputEvent::MoveDown),
        (KeyCode::PageUp, InputEvent::PageUp),
        (KeyCode::PageDown, InputEvent::PageDown),
        (KeyCode::Home, InputEvent::Home),
        (KeyCode::End, InputEvent::End),
        (KeyCode::Char('s'), InputEvent::CycleSort),
        (KeyCode::Esc, InputEvent::ClearFilter),
        (KeyCode::Char('c'), InputEvent::ToggleColumns),
        (KeyCode::Char('r'), InputEvent::ChangeRefreshRate),
        (KeyCode::Char('t'), InputEvent::ToggleTreeView),
        (KeyCode::Char('K'), InputEvent::KillProcess),
        (KeyCode::Char('?'), InputEvent::ShowHelp),
        (KeyCode::Char('q'), InputEvent::Quit),
        (KeyCode::Char('x'), InputEvent::Unknown),
        (KeyCode::Enter, InputEvent::Unknown),
        (KeyCode::Backspace, InputEvent::Unknown),
        (KeyCode::Other, InputEvent::Unknown),
    ];
    for (code, event) in bindings {
        assert_eq!(handler.handle_key_event(key(code)), event);
        assert!(!handler.is_in_filter_mode());
    }
}

#[test]
fn control_c_quits_in_every_mode() {
    let mut handler = InputHandler::new();
    assert_eq!(handler.handle_key_event(control(KeyCode::Char('c'))), InputEvent::Quit);
    assert_eq!(handler.handle_key_event(control(KeyCode::Char('q'))), InputEvent::Quit);
    assert_eq!(handler.handle_key_event(control(KeyCode::Up)), InputEvent::MoveUp);
    handler.handle_key_event(key(KeyCode::Char('/')));
    assert_eq!(handler.handle_key_event(control(KeyCode::Char('c'))), InputEvent::Quit);
    assert!(handler.is_in_filter_mode());
    assert_eq!(handler.handle_key_event(control(KeyCode::Char('x'))), InputEvent::FilterChar('x'));
}

#[test]
fn slash_starts_the_filter_and_escape_or_enter_end_it() {
    let mut handler = InputHandler::new();
    assert_eq!(handler.handle_key_event(key(KeyCode::Char('/'))), InputEvent::StartFilter);
    assert!(handler.is_in_filter_mode());
    assert_eq!(handler.handle_key_event(key(KeyCode::Char('q'))), InputEvent::FilterChar('q'));
    assert_eq!(handler.handle_key_event(key(KeyCode::Char('/'))), InputEvent::FilterChar('/'));
    assert_eq!(handler.handle_key_event(key(KeyCode::Backspace)), InputEvent::FilterBackspace);
    assert_eq!(handler.handle_key_event(key(KeyCode::Up)), InputEvent::Unknown);
    assert!(handler.is_in_filter_mode());
    assert_eq!(handler.handle_key_event(key(KeyCode::Enter)), InputEvent::Unknown);
    assert!(!handler.is_in_filter_mode());
    handler.handle_key_event(key(KeyCode::Char('/')));
    assert_eq!(handler.handle_key_event(key(KeyCode::Esc)), InputEvent::ClearFilter);
    assert!(!handler.is_in_filter_mode());
    handler.handle_key_event(key(KeyCode::Char('/')));
    handler.exit_filter_mode();
    assert!(!handler.is_in_filter_mode());
}

#[test]
fn what_the_terminal_reports_becomes_an_event() {
    let mut handler = InputHandler::new();
    assert_eq!(handler.interpret(None), InputEvent::Tick);
    assert_eq!(handler.interpret(Some(TerminalEvent::Other)), InputEvent::Unknown);
    assert_eq!(
        handler.interpret(Some(TerminalEvent::Resize(120, 40))),
        InputEvent::Resize(120, 40)
    );
    assert_eq!(
        handler.interpret(Some(TerminalEvent::Key(key(KeyCode::Char('/'))))),
        InputEvent::StartFilter
    );
    assert!(handler.is_in_filter_mode());
    assert_eq!(handler.interpret(None), InputEvent::Tick);
    assert!(handler.is_in_filter_mode());
    assert_eq!(
        handler.interpret(Some(TerminalEvent::Key(key(KeyCode::Char('a'))))),
        InputEvent::FilterChar('a')
    );
}

fn process(pid: u32, name: &str, cpu: i64) -> ProcessReading {
    ProcessReading {
        pid,
        name: name.to_string(),
        cmd: vec![name.to_string()],
        cpu_usage: Fixed::from_thousandths(cpu),
        memory: pid as u64,
        virtual_memory: 0,
        status: RawStatus::Run,
        start_time: 0,
        parent: None,
        user_id: Some("user".to_string()),
    }
}

fn readings(count: u32) -> Readings {
    let mut processes = Vec::new();
    for i in 0..count {
        let name = if i % 10 == 3 { format!("Needle{}", i) } else { format!("proc{}", i) };
        processes.push(process(100 + i, &name, (i as i64 % 5) * 1000));
    }
    Readings {
        system: None,
        cpus: None,
        memory: None,
        disks: None,
        networks: None,
        temperatures: None,
        processes: Some(processes),
    }
}

fn app(count: u32) -> App {
    let mut app = App::new(Config::default(), 80, 24, true, &readings(0));
    app.update_data(&readings(count), 1_000);
    app
}

#[test]
fn a_new_application_starts_at_the_top() {
    let app = App::new(Config::default(), 80, 24, true, &readings(0));
    assert_eq!(app.selected_process_index, 0);
    assert_eq!(app.table_start_index, 0);
    assert_eq!(app.current_sort, SortKey::Cpu);
    assert!(app.sort_reverse);
    assert_eq!(app.filter_text, "");
    assert_eq!(app.visible_columns, vec!["PID", "NAME", "USER", "CPU%", "MEM%", "RSS", "STATE"]);
    assert!(app.current_snapshot.is_none());
    assert_eq!(app.mode(), Mode::Running);
    assert!(!app.should_quit());
    assert_eq!(app.layout.terminal_rect(), Rect::new(0, 0, 80, 24));
    assert_eq!(app.get_visible_rows(), 11);
    assert_eq!(app.update_count, 0);
    assert_eq!(app.render_count, 0);
}

#[test]
fn update_data_takes_the_snapshot() {
    let mut app = app(3);
    assert_eq!(app.update_count, 1);
    assert_eq!(app.last_update, 1_000);
    assert_eq!(app.current_snapshot.as_ref().unwrap().timestamp, 1_000);
    assert_eq!(app.current_snapshot.as_ref().unwrap().processes.len(), 3);
    app.update_data(&readings(5), 1_002);
    assert_eq!(app.update_count, 2);
    assert_eq!(app.current_snapshot.as_ref().unwrap().processes.len(), 5);
    assert_eq!(app.selected_process_index, 0);
}

#[test]
fn the_selection_moves_and_the_window_follows() {
    let mut app = app(20);
    app.handle_event(InputEvent::MoveDown);
    app.handle_event(InputEvent::MoveDown);
    app.handle_event(InputEvent::MoveDown);
    assert_eq!((app.selected_process_index, app.table_start_index), (3, 0));
    app.handle_event(InputEvent::MoveUp);
    assert_eq!((app.selected_process_index, app.table_start_index), (2, 0));
    app.handle_event(InputEvent::End);
    assert_eq!((app.selected_process_index, app.table_start_index), (19, 9));
    app.handle_event(InputEvent::MoveDown);
    assert_eq!((app.selected_process_index, app.table_start_index), (19, 9));
    app.handle_event(InputEvent::PageUp);
    assert_eq!((app.selected_process_index, app.table_start_index), (8, 8));
    app.handle_event(InputEvent::Home);
    assert_eq!((app.selected_process_index, app.table_start_index), (0, 0));
    app.handle_event(InputEvent::MoveUp);
    assert_eq!((app.selected_process_index, app.table_start_index), (0, 0));
    app.handle_event(InputEvent::PageDown);
    assert_eq!((app.selected_process_index, app.table_start_index), (11, 1));
    app.handle_event(InputEvent::PageDown);
    assert_eq!((app.selected_process_index, app.table_start_index), (19, 9));
    app.move_selection(-4);
    assert_eq!((app.selected_process_index, app.table_start_index), (15, 9));
    app.move_selection(isize::MAX);
    assert_eq!((app.selected_process_index, app.table_start_index), (19, 9));
    app.move_selection(isize::MIN);
    assert_eq!((app.selected_process_index, app.table_start_index), (0, 0));
}

#[test]
fn a_filter_pulls_the_selection_back_into_the_list() {
    let mut app = app(20);
    app.handle_event(InputEvent::End);
    assert_eq!(app.selected_process_index, 19);
    app.input_handler.handle_key_event(key(KeyCode::Char('/')));
    app.handle_event(InputEvent::StartFilter);
    assert_eq!(app.mode(), Mode::FilterEditing);
    for c in "NEEDLE".chars() {
        app.handle_event(InputEvent::FilterChar(c));
    }
    assert_eq!(app.filter_text, "NEEDLE");
    assert_eq!(app.filtered_count(), 2);
    assert_eq!((app.selected_process_index, app.table_start_index), (1, 1));
    app.handle_event(InputEvent::FilterChar('1'));
    assert_eq!(app.filtered_count(), 1);
    assert_eq!((app.selected_process_index, app.table_start_index), (0, 0));
    app.handle_event(InputEvent::FilterChar('x'));
    assert_eq!(app.filtered_count(), 0);
    assert_eq!((app.selected_process_index, app.table_start_index), (0, 0));
    app.handle_event(InputEvent::FilterBackspace);
    app.handle_event(InputEvent::FilterBackspace);
    assert_eq!(app.filter_text, "NEEDLE");
    app.handle_event(InputEvent::ClearFilter);
    assert_eq!(app.filter_text, "");
    assert!(!app.input_handler.is_in_filter_mode());
    assert_eq!(app.mode(), Mode::Running);
    assert_eq!(app.filtered_count(), 20);
    app.handle_event(InputEvent::FilterBackspace);
    assert_eq!(app.filter_text, "");
}

#[test]
fn without_a_snapshot_the_selection_stays_at_zero() {
    let mut app = App::new(Config::default(), 80, 24, false, &readings(0));
    app.handle_event(InputEvent::MoveDown);
    app.handle_event(InputEvent::PageDown);
    app.handle_event(InputEvent::End);
    assert_eq!((app.selected_process_index, app.table_start_index), (0, 0));
    assert_eq!(app.selected_pid(), None);
}

#[test]
fn the_sort_key_cycles_back_after_four_turns() {
    let mut app = app(5);
    let mut seen = Vec::new();
    for _ in 0..4 {
        app.handle_event(InputEvent::CycleSort);
        seen.push((app.current_sort, app.sort_reverse));
    }
    assert_eq!(
        seen,
        vec![
            (SortKey::Memory, true),
            (SortKey::Pid, false),
            (SortKey::Name, false),
            (SortKey::Cpu, true),
        ]
    );
}

#[test]
fn the_help_lies_over_the_commands() {
    let mut app = app(20);
    app.handle_event(InputEvent::MoveDown);
    app.handle_event(InputEvent::ShowHelp);
    assert!(app.show_help);
    assert_eq!(app.mode(), Mode::HelpShown);
    app.handle_event(InputEvent::MoveDown);
    app.handle_event(InputEvent::CycleSort);
    app.handle_event(InputEvent::FilterChar('x'));
    app.handle_event(InputEvent::ToggleTreeView);
    app.handle_event(InputEvent::End);
    assert_eq!(app.selected_process_index, 1);
    assert_eq!(app.current_sort, SortKey::Cpu);
    assert_eq!(app.filter_text, "");
    assert!(!app.tree_view);
    assert!(app.show_help);
    app.handle_event(InputEvent::ShowHelp);
    assert!(!app.show_help);
    app.handle_event(InputEvent::ShowHelp);
    app.handle_event(InputEvent::FilterChar('y'));
    app.handle_event(InputEvent::ClearFilter);
    assert!(!app.show_help);
    assert_eq!(app.mode(), Mode::Running);
    app.handle_event(InputEvent::ToggleTreeView);
    assert!(app.tree_view);
}

#[test]
fn quitting_is_final() {
    let mut app = app(3);
    assert!(app.needs_redraw_after_input(&InputEvent::MoveDown));
    assert!(!app.needs_redraw_after_input(&InputEvent::Quit));
    app.handle_event(InputEvent::ShowHelp);
    app.handle_event(InputEvent::Quit);
    assert!(app.should_quit());
    assert_eq!(app.mode(), Mode::Quitting);
    for event in [InputEvent::ShowHelp, InputEvent::ClearFilter, InputEvent::Tick, InputEvent::Unknown] {
        app.handle_event(event);
        assert_eq!(app.mode(), Mode::Quitting);
    }
    assert!(!app.refresh_due(1_000_000));
}

#[test]
fn a_resize_changes_the_layout_and_settles_the_window() {
    let mut app = app(40);
    app.handle_event(InputEvent::End);
    assert_eq!((app.selected_process_index, app.table_start_index), (39, 29));
    app.handle_event(InputEvent::Resize(100, 60));
    assert_eq!(app.layout.terminal_rect(), Rect::new(0, 0, 100, 60));
    assert_eq!(app.get_visible_rows(), 35);
    assert_eq!((app.selected_process_index, app.table_start_index), (39, 29));
    app.handle_event(InputEvent::Resize(80, 10));
    assert_eq!(app.get_visible_rows(), 0);
    assert_eq!((app.selected_process_index, app.table_start_index), (39, 39));
    app.handle_event(InputEvent::Tick);
    app.handle_event(InputEvent::Unknown);
    app.handle_event(InputEvent::ToggleColumns);
    app.handle_event(InputEvent::ChangeRefreshRate);
    app.handle_event(InputEvent::KillProcess);
    assert_eq!((app.selected_process_index, app.table_start_index), (39, 39));
}

#[test]
fn the_selected_row_names_the_process_to_end() {
    let mut app = app(6);
    // by processor usage, busiest first: shares 4, 3, 2, 1, 0 and 0 thousand
    assert_eq!(app.selected_pid(), Some(104));
    app.handle_event(InputEvent::MoveDown);
    assert_eq!(app.selected_pid(), Some(103));
    app.handle_event(InputEvent::End);
    assert_eq!(app.selected_pid(), Some(105));
    app.handle_event(InputEvent::CycleSort);
    app.handle_event(InputEvent::CycleSort);
    assert_eq!(app.selected_pid(), Some(105));
    app.handle_event(InputEvent::Home);
    assert_eq!(app.selected_pid(), Some(100));
}

#[test]
fn the_wait_is_the_rest_of_the_interval() {
    let app = app(1);
    assert_eq!(app.next_timeout(0), 2000);
    assert_eq!(app.next_timeout(1500), 500);
    assert_eq!(app.next_timeout(1999), 1);
    assert_eq!(app.next_timeout(2000), 10);
    assert_eq!(app.next_timeout(u64::MAX), 10);
    assert!(!app.refresh_due(1999));
    assert!(app.refresh_due(2000));
}

#[test]
fn the_screen_begins_in_the_corner_and_ends_with_the_footer() {
    let mut app = App::new(Config::default(), 80, 24, true, &readings(0));
    let mut canvas = Canvas::new();
    app.render(&mut canvas, 0);
    assert_eq!(app.render_count, 1);
    let hints = "q:quit ↑↓:navigate s:sort /:filter c:columns r:refresh ?:help k:kill";
    assert_eq!(
        canvas.ops,
        vec![
            DrawOp::MoveTo(0, 0),
            DrawOp::MoveTo(0, 23),
            DrawOp::SetForegroundColor(kacemon::Color::DarkGrey),
            DrawOp::SetBackgroundColor(kacemon::Color::Black),
            DrawOp::Print(format!("{:<80}", hints)),
        ]
    );
    app.input_handler.handle_key_event(key(KeyCode::Char('/')));
    app.handle_event(InputEvent::FilterChar('a'));
    app.handle_event(InputEvent::FilterChar('b'));
    let mut canvas = Canvas::new();
    app.render(&mut canvas, 0);
    assert_eq!(canvas.len(), 7);
    assert_eq!(canvas.ops[5], DrawOp::MoveTo(0, 23));
    assert_eq!(canvas.ops[6], DrawOp::Print("Filter: ab_".to_string()));
    assert_eq!(app.render_count, 2);
}

#[test]
fn the_screen_shows_the_snapshot_and_the_help() {
    let mut app = app(3);
    let mut canvas = Canvas::new();
    app.render(&mut canvas, 0);
    let plain = canvas.len();
    assert_eq!(canvas.ops[0], DrawOp::MoveTo(0, 0));
    assert_eq!(canvas.ops[1], DrawOp::MoveTo(0, 0));
    assert!(canvas.ops.contains(&DrawOp::Print(format!("{:<8}", "PID"))));
    assert!(canvas.ops.contains(&DrawOp::Print(format!("{:<8}", "102"))));
    app.handle_event(InputEvent::ShowHelp);
    let mut canvas = Canvas::new();
    app.render(&mut canvas, 0);
    assert!(canvas.len() > plain);
    assert_eq!(canvas.ops[canvas.len() - 1], DrawOp::Print("Press ? to close".to_string()));
}
