use daemon_console::command::{CommandHandlerType, CommandResult, Dispatch};
use daemon_console::editor::PromptFrame;
use daemon_console::events::EventDraft;
use daemon_console::keys::{Event, KeyCode, KeyEvent, KeyEventKind, KeyModifiers};
use daemon_console::logger::{LogLevel, LogRecord};
use daemon_console::keys::Polled;
use daemon_console::model::{Phase, EXIT_WINDOW_MILLIS};
use daemon_console::output::Output;
use daemon_console::{AppAction, ConsoleContext, Outcome, TerminalApp};
use std::time::Duration;

type App = TerminalApp<u32, String, u8, u16>;

fn key(code: KeyCode) -> Event {
    Event::Key(KeyEvent::press(code))
}

fn ctrl(c: char) -> Event {
    Event::Key(KeyEvent::control(c))
}

/// Types a text in which no character follows itself.
fn type_text(app: &mut App, text: &str) {
    let mut last = None;
    for c in text.chars() {
        assert_ne!(last, Some(c), "an exact repeat would be passed over");
        assert_eq!(app.process_event_at(key(KeyCode::Char(c)), 0), Outcome::Continue);
        last = Some(c);
    }
}

/// Types a line and presses Enter; answers every dispatch with `output`.
fn submit(app: &mut App, text: &str, output: &str) {
    type_text(app, text);
    match app.process_event_at(key(KeyCode::Enter), 0) {
        Outcome::Dispatch(Dispatch::RunSync { name, handler, .. }) => {
            app.register_command(&name, handler);
            app.complete_command(output);
        }
        Outcome::Dispatch(_) => {
            app.complete_command(output);
        }
        other => panic!("unexpected {:?}", other),
    }
}

fn prompt(line: &str, cursor_column: u16) -> Output {
    Output::Prompt(PromptFrame { line: line.to_string(), cursor_column })
}

fn stream(level: LogLevel, text: &str) -> LogRecord {
    LogRecord::new(level, text, Some("Stream"))
}

fn notice(level: LogLevel, text: &str) -> LogRecord {
    LogRecord::new(level, text, Some("Daemon Console"))
}

fn publications(outputs: &[Output]) -> usize {
    outputs.iter().filter(|o| matches!(o, Output::Publish(_))).count()
}

#[test]
fn new_console_is_fresh() {
    let app = App::new();
    assert_eq!(app.current_input(), "");
    assert_eq!(app.cursor_position(), 0);
    assert!(app.command_history().is_empty());
    assert_eq!(app.history_index(), None);
    assert_eq!(app.last_ctrl_c(), None);
    assert!(!app.should_exit());
    assert_eq!(app.phase(), Phase::Initializing);
    assert!(app.running_commands().is_empty());
    assert!(app.pending_outputs().is_empty());
    assert_eq!(app.unknown_command_handler(), None);
    assert_eq!(app.async_unknown_command_handler(), None);
    assert_eq!(app.editor().input(), "");
    let same = App::default();
    assert_eq!(same.phase(), Phase::Initializing);
    assert!(same.pending_outputs().is_empty());
}

#[test]
fn typing_draws_the_prompt_after_each_key() {
    let mut app = App::new();
    type_text(&mut app, "hi");
    assert_eq!(app.current_input(), "hi");
    assert_eq!(app.cursor_position(), 2);
    assert_eq!(app.take_outputs(), vec![prompt("> h", 3), prompt("> hi", 4)]);
    assert!(app.pending_outputs().is_empty());
}

#[test]
fn idempotent_re_render() {
    let mut app = App::new();
    type_text(&mut app, "a中b");
    app.process_event_at(key(KeyCode::Left), 0);
    app.take_outputs();
    app.render_input_line();
    app.render_input_line();
    let outputs = app.take_outputs();
    assert_eq!(outputs, vec![prompt("> a中b", 5), prompt("> a中b", 5)]);
    assert_eq!(app.current_input(), "a中b");
    assert_eq!(app.cursor_position(), 2);
}

#[test]
fn arrows_move_the_cursor_and_draw_only_when_it_moved() {
    let mut app = App::new();
    type_text(&mut app, "ab");
    app.take_outputs();
    assert_eq!(app.process_event_at(key(KeyCode::Right), 0), Outcome::Continue);
    assert!(app.pending_outputs().is_empty());
    app.process_event_at(key(KeyCode::Left), 0);
    app.process_event_at(key(KeyCode::Up), 0);
    app.process_event_at(key(KeyCode::Left), 0);
    app.process_event_at(key(KeyCode::Down), 0);
    app.process_event_at(key(KeyCode::Left), 0);
    assert_eq!(app.cursor_position(), 0);
    assert_eq!(
        app.take_outputs(),
        vec![prompt("> ab", 3), prompt("> ab", 3), prompt("> ab", 2), prompt("> ab", 2)]
    );
    app.process_event_at(key(KeyCode::Right), 0);
    assert_eq!(app.take_outputs(), vec![prompt("> ab", 3)]);
}

#[test]
fn an_arrow_reported_twice_moves_once() {
    let mut app = App::new();
    type_text(&mut app, "abc");
    app.take_outputs();
    assert_eq!(app.process_event_at(key(KeyCode::Left), 0), Outcome::Continue);
    assert_eq!(app.process_event_at(key(KeyCode::Left), 1), Outcome::Continue);
    assert_eq!(app.process_event_at(key(KeyCode::Left), 2), Outcome::Continue);
    assert_eq!(app.cursor_position(), 2);
    assert_eq!(app.take_outputs(), vec![prompt("> abc", 4)]);
}

#[test]
fn backspace_draws_only_when_it_deleted() {
    let mut app = App::new();
    app.process_event_at(key(KeyCode::Backspace), 0);
    assert!(app.pending_outputs().is_empty());
    type_text(&mut app, "ab");
    app.take_outputs();
    app.process_event_at(key(KeyCode::Backspace), 0);
    assert_eq!(app.current_input(), "a");
    assert_eq!(app.take_outputs(), vec![prompt("> a", 3)]);
    app.process_event_at(key(KeyCode::Backspace), 0);
    assert_eq!(app.current_input(), "a");
    assert!(app.pending_outputs().is_empty());
    app.process_event_at(key(KeyCode::Left), 0);
    app.process_event_at(key(KeyCode::Backspace), 0);
    assert_eq!(app.current_input(), "a");
    app.process_event_at(key(KeyCode::Right), 0);
    app.process_event_at(key(KeyCode::Backspace), 0);
    assert_eq!(app.current_input(), "");
}

#[test]
fn releases_and_other_events_are_passed_over() {
    let mut app = App::new();
    let release = Event::Key(KeyEvent {
        code: KeyCode::Char('x'),
        modifiers: KeyModifiers::none(),
        kind: KeyEventKind::Release,
    });
    assert_eq!(app.process_event_at(release, 0), Outcome::Continue);
    assert_eq!(app.process_event_at(Event::Other, 0), Outcome::Continue);
    assert_eq!(app.process_event_at(key(KeyCode::Other), 0), Outcome::Continue);
    assert_eq!(app.current_input(), "");
    assert!(app.pending_outputs().is_empty());
}

#[test]
fn an_exact_repeat_is_passed_over() {
    let mut app = App::new();
    let press = key(KeyCode::Char('a'));
    assert_eq!(app.process_event_at(press, 0), Outcome::Continue);
    assert_eq!(app.take_outputs(), vec![prompt("> a", 3)]);
    assert_eq!(app.process_event_at(press, 1), Outcome::Continue);
    assert_eq!(app.current_input(), "a");
    assert_eq!(app.cursor_position(), 1);
    assert_eq!(app.history_index(), None);
    assert!(app.command_history().is_empty());
    assert!(app.pending_outputs().is_empty());
    assert_eq!(app.process_event_at(press, 2), Outcome::Continue);
    assert_eq!(app.current_input(), "a");
}

#[test]
fn a_key_that_differs_in_kind_or_modifiers_is_no_repeat() {
    let mut app = App::new();
    let press = key(KeyCode::Char('x'));
    let held = Event::Key(KeyEvent {
        code: KeyCode::Char('x'),
        modifiers: KeyModifiers::none(),
        kind: KeyEventKind::Repeat,
    });
    let with_alt = Event::Key(KeyEvent {
        code: KeyCode::Char('x'),
        modifiers: KeyModifiers { alt: true, ..KeyModifiers::none() },
        kind: KeyEventKind::Repeat,
    });
    app.process_event_at(press, 0);
    app.process_event_at(held, 0);
    assert_eq!(app.current_input(), "xx");
    app.process_event_at(held, 0);
    assert_eq!(app.current_input(), "xx");
    app.process_event_at(with_alt, 0);
    assert_eq!(app.current_input(), "xxx");
    app.process_event_at(press, 0);
    assert_eq!(app.current_input(), "xxxx");
}

#[test]
fn another_key_in_between_lets_a_key_count_again() {
    let mut app = App::new();
    type_text(&mut app, "aba");
    assert_eq!(app.current_input(), "aba");
    app.process_event_at(key(KeyCode::Left), 0);
    app.process_event_at(key(KeyCode::Char('a')), 0);
    assert_eq!(app.current_input(), "abaa");
}

#[test]
fn a_release_in_between_does_not_clear_the_memory() {
    let mut app = App::new();
    let press = key(KeyCode::Char('a'));
    let release = Event::Key(KeyEvent {
        code: KeyCode::Char('a'),
        modifiers: KeyModifiers::none(),
        kind: KeyEventKind::Release,
    });
    app.process_event_at(press, 0);
    app.process_event_at(release, 0);
    app.process_event_at(Event::Other, 0);
    app.process_event_at(press, 0);
    assert_eq!(app.current_input(), "a");
}

#[test]
fn exit_chords_count_every_time() {
    let mut app = App::new();
    assert_eq!(app.process_event_at(ctrl('d'), 0), Outcome::Quit);
    assert_eq!(app.process_event_at(ctrl('d'), 0), Outcome::Quit);
    let mut app = App::new();
    assert_eq!(app.process_event_at(ctrl('c'), 10), Outcome::Continue);
    assert_eq!(app.last_ctrl_c(), Some(10));
    assert_eq!(app.process_event_at(ctrl('c'), 20), Outcome::Quit);
    let mut app = App::new();
    assert_eq!(app.process_event_at(ctrl('c'), 10), Outcome::Continue);
    assert_eq!(app.process_event_at(ctrl('c'), 6_000), Outcome::Continue);
    assert_eq!(app.last_ctrl_c(), Some(6_000));
    app.process_event_at(key(KeyCode::Char('c')), 0);
    app.process_event_at(ctrl('c'), 6_100);
    assert_eq!(app.current_input(), "");
    assert_eq!(app.process_event_at(key(KeyCode::Char('c')), 0), Outcome::Continue);
    assert_eq!(app.current_input(), "c");
}

#[test]
fn characters_with_other_modifiers_are_typed() {
    let mut app = App::new();
    let shifted = Event::Key(KeyEvent {
        code: KeyCode::Char('A'),
        modifiers: KeyModifiers { shift: true, ..KeyModifiers::none() },
        kind: KeyEventKind::Press,
    });
    let control_shift_c = Event::Key(KeyEvent {
        code: KeyCode::Char('c'),
        modifiers: KeyModifiers { shift: true, ..KeyModifiers::control() },
        kind: KeyEventKind::Press,
    });
    app.process_event_at(shifted, 0);
    assert_eq!(app.process_event_at(control_shift_c, 0), Outcome::Continue);
    assert_eq!(app.current_input(), "Ac");
    assert_eq!(app.last_ctrl_c(), None);
}

#[test]
fn history_round_trip_through_the_keys() {
    let mut app = App::new();
    submit(&mut app, "a", "");
    submit(&mut app, "b", "");
    submit(&mut app, "c", "");
    assert_eq!(app.command_history(), &vec!["a".to_string(), "b".to_string(), "c".to_string()]);
    // An arrow that follows itself is passed over, so another key stands
    // between the steps.
    app.process_event_at(key(KeyCode::Up), 0);
    app.process_event_at(key(KeyCode::Left), 0);
    app.process_event_at(key(KeyCode::Up), 0);
    app.process_event_at(key(KeyCode::Left), 0);
    app.process_event_at(key(KeyCode::Up), 0);
    assert_eq!(app.current_input(), "a");
    assert_eq!(app.history_index(), Some(0));
    app.process_event_at(key(KeyCode::Down), 0);
    assert_eq!(app.current_input(), "b");
    assert_eq!(app.history_index(), Some(1));
}

#[test]
fn history_up_reported_three_times_is_one_step() {
    let mut app = App::new();
    submit(&mut app, "a", "");
    submit(&mut app, "b", "");
    submit(&mut app, "c", "");
    app.process_event_at(key(KeyCode::Up), 0);
    app.process_event_at(key(KeyCode::Up), 0);
    app.process_event_at(key(KeyCode::Up), 0);
    assert_eq!(app.current_input(), "c");
    assert_eq!(app.history_index(), Some(2));
}

#[test]
fn empty_submit_is_a_no_op() {
    let mut app = App::new();
    app.register_command("list", 1);
    assert_eq!(app.process_event_at(key(KeyCode::Enter), 0), Outcome::Continue);
    assert!(app.command_history().is_empty());
    assert_eq!(app.take_outputs(), vec![Output::ClearLine, prompt("> ", 2)]);
    type_text(&mut app, " \t ");
    app.take_outputs();
    assert_eq!(app.handle_enter_key("> "), Outcome::Continue);
    assert!(app.command_history().is_empty());
    assert_eq!(app.current_input(), " \t ");
    let outputs = app.take_outputs();
    assert_eq!(outputs.len(), 2);
    assert_eq!(outputs[0], Output::ClearLine);
    assert!(matches!(outputs[1], Output::Prompt(_)));
    assert_eq!(publications(&outputs), 0);
    assert_eq!(app.command("list"), Some(&CommandHandlerType::PubSync(1)));
}

#[test]
fn blank_enter_ends_the_loop_when_exit_is_asked_for() {
    let mut app = App::new();
    app.set_should_exit(true);
    assert_eq!(app.process_event_at(key(KeyCode::Enter), 0), Outcome::Quit);
}

#[test]
fn enter_echoes_publishes_and_dispatches() {
    let mut app = App::new();
    app.register_command("hi", 4);
    type_text(&mut app, "hi Ada");
    app.take_outputs();
    let outcome = app.process_event_at(key(KeyCode::Enter), 0);
    assert_eq!(
        outcome,
        Outcome::Dispatch(Dispatch::RunSync {
            name: "hi".to_string(),
            handler: 4,
            args: vec!["Ada".to_string()],
        })
    );
    assert_eq!(
        app.take_outputs(),
        vec![
            Output::ClearLine,
            Output::Line("> hi Ada".to_string()),
            Output::Publish(EventDraft::UserConsoleInput { raw: "hi Ada".to_string() }),
        ]
    );
    assert_eq!(app.command_history(), &vec!["hi Ada".to_string()]);
    assert_eq!(app.current_input(), "");
    assert_eq!(app.command("hi"), None);
}

#[test]
fn enter_echoes_behind_the_given_prefix() {
    let mut app = App::new();
    type_text(&mut app, "x");
    app.take_outputs();
    let outcome = app.handle_enter_key("$ ");
    assert!(matches!(outcome, Outcome::Dispatch(Dispatch::NotFound { .. })));
    assert_eq!(app.take_outputs()[1], Output::Line("$ x".to_string()));
}

#[test]
fn completing_prints_the_output_line_by_line() {
    let mut app = App::new();
    type_text(&mut app, "x");
    app.process_event_at(key(KeyCode::Enter), 0);
    app.process_event_at(key(KeyCode::Up), 0);
    app.take_outputs();
    assert!(!app.complete_command("  first\r\n\tsecond\n\nlast  "));
    assert_eq!(
        app.take_outputs(),
        vec![
            Output::CarriageReturn,
            Output::Line("first".to_string()),
            Output::CarriageReturn,
            Output::Line("second".to_string()),
            Output::CarriageReturn,
            Output::Line("".to_string()),
            Output::CarriageReturn,
            Output::Line("last  ".to_string()),
            prompt("> ", 2),
        ]
    );
    assert_eq!(app.current_input(), "");
    assert_eq!(app.cursor_position(), 0);
    assert_eq!(app.history_index(), None);
}

#[test]
fn completing_with_no_output_prints_an_empty_line() {
    let mut app = App::new();
    assert!(!app.complete_command(""));
    assert_eq!(app.take_outputs(), vec![Output::Line(String::new()), prompt("> ", 2)]);
}

#[test]
fn completing_tells_whether_a_handler_asked_for_the_end() {
    let mut app = App::new();
    app.set_should_exit(true);
    assert!(app.complete_command("bye"));
    assert!(app.should_exit());
}

#[test]
fn ctrl_d_ends_the_loop() {
    let mut app = App::new();
    type_text(&mut app, "unfinished");
    app.take_outputs();
    assert_eq!(app.process_event_at(ctrl('d'), 0), Outcome::Quit);
    assert_eq!(app.process_event_at(ctrl('d'), 0), Outcome::Quit);
    assert!(app.handle_ctrl_d());
    assert_eq!(app.current_input(), "unfinished");
    assert!(app.pending_outputs().is_empty());
}

#[test]
fn double_ctrl_c_debounce() {
    let mut app = App::new();
    let (quit, said) = app.handle_ctrl_c_at(1_000);
    assert!(!quit);
    assert_eq!(said, notice(LogLevel::Info, "Press Ctrl+C again to exit."));
    assert_eq!(app.last_ctrl_c(), Some(1_000));
    let (quit, said) = app.handle_ctrl_c_at(4_000);
    assert!(quit);
    assert_eq!(said, notice(LogLevel::Warn, "Exiting application. Goodbye!"));

    let mut app = App::new();
    assert!(!app.handle_ctrl_c_at(1_000).0);
    let (quit, said) = app.handle_ctrl_c_at(7_000);
    assert!(!quit);
    assert_eq!(said, notice(LogLevel::Info, "Press Ctrl+C again to exit."));
    assert_eq!(app.last_ctrl_c(), Some(7_000));
    assert!(app.handle_ctrl_c_at(7_001).0);
}

#[test]
fn ctrl_c_window_is_five_seconds() {
    assert_eq!(EXIT_WINDOW_MILLIS, 5_000);
    let mut app = App::new();
    app.handle_ctrl_c_at(10);
    assert!(app.handle_ctrl_c_at(5_009).0);
    let mut app = App::new();
    app.handle_ctrl_c_at(10);
    assert!(!app.handle_ctrl_c_at(5_010).0);
    let mut app = App::new();
    app.handle_ctrl_c_at(10);
    assert!(app.handle_ctrl_c_at(3).0);
}

#[test]
fn ctrl_c_clears_a_text_first() {
    let mut app = App::new();
    type_text(&mut app, "half a line");
    let (quit, said) = app.handle_ctrl_c_at(100);
    assert!(!quit);
    assert_eq!(said, notice(LogLevel::Info, "Input cleared. Press Ctrl+C again to exit."));
    assert_eq!(app.current_input(), "");
    assert_eq!(app.cursor_position(), 0);
    assert_eq!(app.last_ctrl_c(), Some(100));
    assert!(app.handle_ctrl_c_at(200).0);
}

#[test]
fn ctrl_c_with_a_text_never_ends_the_console() {
    let mut app = App::new();
    app.handle_ctrl_c_at(100);
    type_text(&mut app, " ");
    assert!(!app.handle_ctrl_c_at(200).0);
    assert_eq!(app.last_ctrl_c(), Some(200));
}

#[test]
fn ctrl_c_key_prints_what_it_says() {
    let mut app = App::new();
    assert_eq!(app.process_event_at(ctrl('c'), 50), Outcome::Continue);
    assert_eq!(
        app.take_outputs(),
        vec![
            Output::ClearLine,
            Output::Log(notice(LogLevel::Info, "Press Ctrl+C again to exit.")),
            Output::Flush,
            prompt("> ", 2),
        ]
    );
    assert_eq!(app.process_event_at(ctrl('c'), 60), Outcome::Quit);
    assert_eq!(
        app.take_outputs()[1],
        Output::Log(notice(LogLevel::Warn, "Exiting application. Goodbye!"))
    );
}

#[test]
fn ctrl_c_reads_the_clock() {
    let mut app = App::new();
    let (quit, _) = app.handle_ctrl_c();
    assert!(!quit);
    let first = app.last_ctrl_c().unwrap();
    assert!(first < 10_000);
    let waited = std::time::Instant::now();
    while waited.elapsed() < Duration::from_millis(20) {
        std::hint::spin_loop();
    }
    assert!(app.uptime_millis() >= first + 15);
    assert_eq!(app.process_event(ctrl('c')), Outcome::Quit);
    assert_eq!(app.process_poll(Polled::Quiet), Outcome::Continue);
}

#[test]
fn polls() {
    let mut app = App::new();
    assert_eq!(app.process_poll_at(Polled::Quiet, 0), Outcome::Continue);
    assert_eq!(app.process_poll_at(Polled::Event(key(KeyCode::Char('q'))), 0), Outcome::Continue);
    assert_eq!(app.current_input(), "q");
    app.take_outputs();
    assert_eq!(app.process_poll_at(Polled::Failed, 0), Outcome::Quit);
    assert_eq!(app.current_input(), "q");
    assert!(app.pending_outputs().is_empty());
}

#[test]
fn direct_log_prints_and_publishes() {
    let mut app = App::new();
    type_text(&mut app, "typing");
    app.take_outputs();
    app.info("Application started successfully!");
    assert_eq!(
        app.take_outputs(),
        vec![
            Output::ClearLine,
            Output::Log(stream(LogLevel::Info, "Application started successfully!")),
            Output::Flush,
            prompt("> typing", 8),
            Output::Publish(EventDraft::TerminalLog(stream(
                LogLevel::Info,
                "Application started successfully!"
            ))),
        ]
    );
    assert_eq!(app.current_input(), "typing");
}

#[test]
fn each_level_logs_at_its_level() {
    let mut app = App::new();
    app.debug("d");
    app.warn("w");
    app.error("e");
    app.critical("c");
    app.log(LogLevel::Info, "i");
    let outputs = app.take_outputs();
    let levels: Vec<LogLevel> = outputs
        .iter()
        .filter_map(|o| match o {
            Output::Log(record) => Some(record.level),
            _ => None,
        })
        .collect();
    assert_eq!(
        levels,
        vec![LogLevel::Debug, LogLevel::Warn, LogLevel::Error, LogLevel::Critical, LogLevel::Info]
    );
    assert_eq!(publications(&outputs), 5);
    assert_eq!(outputs.len(), 25);
}

#[test]
fn action_suppression() {
    let mut app = App::new();
    app.apply_action(AppAction::Info("ok".to_string()));
    let outputs = app.take_outputs();
    assert_eq!(
        outputs,
        vec![
            Output::ClearLine,
            Output::Log(stream(LogLevel::Info, "ok")),
            Output::Flush,
            prompt("> ", 2),
        ]
    );
    assert_eq!(publications(&outputs), 0);
    app.info("direct");
    assert_eq!(publications(&app.take_outputs()), 1);
}

#[test]
fn every_log_action_is_printed_at_its_level_and_not_published() {
    let mut app = App::new();
    app.apply_actions(vec![
        AppAction::Debug("d".to_string()),
        AppAction::Warn("w".to_string()),
        AppAction::Error("e".to_string()),
        AppAction::Critical("c".to_string()),
        AppAction::Info("i".to_string()),
    ]);
    let outputs = app.take_outputs();
    let records: Vec<LogRecord> = outputs
        .iter()
        .filter_map(|o| match o {
            Output::Log(record) => Some(record.clone()),
            _ => None,
        })
        .collect();
    assert_eq!(
        records,
        vec![
            stream(LogLevel::Debug, "d"),
            stream(LogLevel::Warn, "w"),
            stream(LogLevel::Error, "e"),
            stream(LogLevel::Critical, "c"),
            stream(LogLevel::Info, "i"),
        ]
    );
    assert_eq!(publications(&outputs), 0);
    assert_eq!(outputs.len(), 20);
}

#[test]
fn register_action_binds_at_once_and_in_order() {
    let mut app = App::new();
    app.apply_actions(vec![
        AppAction::RegisterCommand("late".to_string(), 1),
        AppAction::Info("between".to_string()),
        AppAction::RegisterCommand("late".to_string(), 2),
    ]);
    assert_eq!(app.command("late"), Some(&CommandHandlerType::PubSync(2)));
    assert_eq!(app.take_outputs().len(), 4);
    app.apply_actions(vec![]);
    assert!(app.pending_outputs().is_empty());
}

#[test]
fn context_takes_down_what_a_background_command_asks() {
    let mut context: ConsoleContext<u32> = ConsoleContext::new();
    context.info("Wake up!");
    context.register_command("made-later", 9);
    context.debug("d");
    context.warn("w");
    context.error("e");
    context.critical("c");
    context.log(LogLevel::Warn, "again");
    let actions = context.take_actions();
    assert_eq!(
        actions,
        vec![
            AppAction::Info("Wake up!".to_string()),
            AppAction::RegisterCommand("made-later".to_string(), 9),
            AppAction::Debug("d".to_string()),
            AppAction::Warn("w".to_string()),
            AppAction::Error("e".to_string()),
            AppAction::Critical("c".to_string()),
            AppAction::Warn("again".to_string()),
        ]
    );
    assert!(context.take_actions().is_empty());
    let mut app = App::new();
    app.apply_actions(actions);
    assert_eq!(app.command("made-later"), Some(&CommandHandlerType::PubSync(9)));
    let outputs = app.take_outputs();
    assert_eq!(publications(&outputs), 0);
    assert_eq!(outputs[1], Output::Log(stream(LogLevel::Info, "Wake up!")));
}

#[test]
fn print_log_entry_keeps_the_input_line() {
    let mut app = App::new();
    type_text(&mut app, "ab");
    app.process_event_at(key(KeyCode::Left), 0);
    app.take_outputs();
    app.print_log_entry("already laid out");
    assert_eq!(
        app.take_outputs(),
        vec![
            Output::ClearLine,
            Output::Line("already laid out".to_string()),
            Output::Flush,
            prompt("> ab", 3),
        ]
    );
    app.clear_input_line();
    assert_eq!(app.take_outputs(), vec![Output::ClearLine]);
    app.print_record(LogRecord::new(LogLevel::Error, "e", None));
    assert_eq!(app.take_outputs()[1], Output::Log(LogRecord::new(LogLevel::Error, "e", None)));
}

#[test]
fn command_result_is_printed_line_by_line() {
    let mut app = App::new();
    app.handle_command_result(CommandResult {
        command: "wait 2".to_string(),
        output: "  finished after 2 seconds\n\tsecond line".to_string(),
    });
    assert_eq!(
        app.take_outputs(),
        vec![
            Output::ClearLine,
            Output::Line("finished after 2 seconds".to_string()),
            Output::Flush,
            prompt("> ", 2),
            Output::ClearLine,
            Output::Line("second line".to_string()),
            Output::Flush,
            prompt("> ", 2),
        ]
    );
    app.handle_command_result(CommandResult { command: "quiet".to_string(), output: String::new() });
    assert!(app.pending_outputs().is_empty());
}

#[test]
fn init_and_shutdown_of_the_terminal() {
    let mut app = App::new();
    app.init_terminal("welcome");
    assert_eq!(app.phase(), Phase::Running);
    assert_eq!(
        app.take_outputs(),
        vec![
            Output::RawMode(true),
            Output::MouseCapture(true),
            Output::CursorVisible(false),
            Output::Flush,
            Output::Line("welcome".to_string()),
            Output::Flush,
        ]
    );
    app.init_terminal("");
    assert_eq!(app.take_outputs().len(), 4);
    app.shutdown_terminal("bye");
    assert_eq!(app.phase(), Phase::Terminated);
    assert_eq!(
        app.take_outputs(),
        vec![Output::RawMode(false), Output::Line("bye".to_string()), Output::Flush]
    );
}

#[test]
fn a_run_from_start_to_end() {
    let rt = tokio::runtime::Builder::new_current_thread().enable_all().build().unwrap();
    let mut app = App::new();
    app.register_async_command("wait", "sleeper".to_string());
    app.start_run("App starting...");
    assert_eq!(app.phase(), Phase::Running);
    assert_eq!(
        app.take_outputs(),
        vec![
            Output::RawMode(true),
            Output::MouseCapture(true),
            Output::CursorVisible(false),
            Output::ClearLine,
            Output::Line("App starting...".to_string()),
            Output::Flush,
            prompt("> ", 2),
        ]
    );

    app.begin_tick(vec![AppAction::RegisterCommand("ping".to_string(), 1)], None);
    assert!(app.pending_outputs().is_empty());
    assert_eq!(app.command("ping"), Some(&CommandHandlerType::PubSync(1)));
    assert_eq!(app.process_poll_at(Polled::Quiet, 10), Outcome::Continue);
    assert!(!app.end_tick(false));
    assert_eq!(app.phase(), Phase::Running);

    type_text(&mut app, "wait 1");
    let outcome = app.process_poll_at(Polled::Event(key(KeyCode::Enter)), 20);
    if let Outcome::Dispatch(Dispatch::SpawnAsync { command, notice, .. }) = outcome {
        let handle = rt.spawn(async { "finished after 1 seconds".to_string() });
        app.track_running_command(daemon_console::RunningCommand { command, handle });
        assert_eq!(notice.text, "Async command 'wait' started in the background");
        assert!(!app.complete_command("started"));
    } else {
        panic!("unexpected {:?}", outcome);
    }
    assert!(!app.end_tick(false));
    app.take_outputs();
    rt.block_on(async { tokio::time::sleep(Duration::from_millis(20)).await });

    app.begin_tick(
        vec![AppAction::Info("Wake up!".to_string())],
        Some(CommandResult {
            command: "wait 1".to_string(),
            output: "finished after 1 seconds".to_string(),
        }),
    );
    assert!(app.running_commands().is_empty());
    let outputs = app.take_outputs();
    assert_eq!(outputs.len(), 8);
    assert_eq!(outputs[1], Output::Log(stream(LogLevel::Info, "Wake up!")));
    assert_eq!(outputs[5], Output::Line("finished after 1 seconds".to_string()));

    assert_eq!(app.process_poll_at(Polled::Event(ctrl('d')), 30), Outcome::Quit);
    assert!(app.end_tick(true));
    assert_eq!(app.phase(), Phase::ShuttingDown);
    assert!(app.finish_run("Daemon Console exiting. Goodbye!").is_empty());
    assert_eq!(app.phase(), Phase::Terminated);
    assert_eq!(
        app.take_outputs(),
        vec![
            Output::RawMode(false),
            Output::MouseCapture(false),
            Output::CursorVisible(true),
            Output::Line("Daemon Console exiting. Goodbye!".to_string()),
            Output::Flush,
        ]
    );
}

#[test]
fn a_run_without_banners() {
    let mut app = App::new();
    app.start_run("");
    assert_eq!(app.take_outputs().len(), 3);
    app.set_should_exit(true);
    assert!(app.end_tick(false));
    assert_eq!(app.phase(), Phase::ShuttingDown);
    assert!(app.finish_run("").is_empty());
    assert_eq!(
        app.take_outputs(),
        vec![
            Output::RawMode(false),
            Output::MouseCapture(false),
            Output::CursorVisible(true),
            Output::Flush,
        ]
    );
}

#[test]
fn a_failed_read_ends_the_run() {
    let mut app = App::new();
    app.start_run("");
    let outcome = app.process_poll_at(Polled::Failed, 5);
    assert_eq!(outcome, Outcome::Quit);
    assert!(app.end_tick(outcome == Outcome::Quit));
    assert_eq!(app.phase(), Phase::ShuttingDown);
}

#[test]
fn only_prompt_and_publication_may_fail() {
    let record = LogRecord::new(LogLevel::Info, "x", None);
    let fatal = [
        Output::RawMode(true),
        Output::RawMode(false),
        Output::MouseCapture(true),
        Output::CursorVisible(true),
        Output::ClearLine,
        Output::CarriageReturn,
        Output::Line("x".to_string()),
        Output::Log(record.clone()),
        Output::Flush,
    ];
    for output in fatal {
        assert!(output.must_succeed(), "{:?}", output);
    }
    assert!(!prompt("> ", 2).must_succeed());
    assert!(!Output::Publish(EventDraft::TerminalLog(record)).must_succeed());
    assert!(!Output::Publish(EventDraft::UserConsoleInput { raw: "x".to_string() }).must_succeed());
}

#[test]
fn clock_readings_saturate() {
    assert_eq!(daemon_console::utils::saturate_millis(0), 0);
    assert_eq!(daemon_console::utils::saturate_millis(5_000), 5_000);
    assert_eq!(daemon_console::utils::saturate_millis(u64::MAX as u128), u64::MAX);
    assert_eq!(daemon_console::utils::saturate_millis(u64::MAX as u128 + 1), u64::MAX);
    assert_eq!(daemon_console::utils::saturate_millis(u128::MAX), u64::MAX);
}

#[test]
fn loop_constants() {
    assert_eq!(daemon_console::events::EVENT_BUS_CAPACITY, 256);
    assert_eq!(daemon_console::model::POLL_WAIT_MILLIS, 50);
}

#[test]
fn finishing_a_run_stops_what_still_runs() {
    let rt = tokio::runtime::Builder::new_current_thread().enable_all().build().unwrap();
    let mut app = App::new();
    app.start_run("");
    for line in ["wait 60", "wait 90"] {
        let handle = rt.spawn(async {
            tokio::time::sleep(Duration::from_secs(60)).await;
            "never".to_string()
        });
        app.track_running_command(daemon_console::RunningCommand { command: line.to_string(), handle });
    }
    assert!(app.end_tick(true));
    let stopped = app.finish_run("bye");
    assert!(app.running_commands().is_empty());
    let lines: Vec<&str> = stopped.iter().map(|task| task.command.as_str()).collect();
    assert_eq!(lines, vec!["wait 60", "wait 90"]);
    for task in stopped {
        let ended = rt.block_on(task.handle);
        assert!(ended.unwrap_err().is_cancelled());
    }
}
