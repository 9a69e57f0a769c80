use daemon_console::command::{
    execute_command, retain_unfinished, CommandHandlerType, CommandRegistry, CommandResult,
    Dispatch, RunningCommand,
};
use daemon_console::keys::{Event, KeyCode, KeyEvent, Polled};
use daemon_console::logger::{LogLevel, LogRecord};
use daemon_console::output::Output;
use daemon_console::{Outcome, TerminalApp};
use std::sync::atomic::{AtomicBool, Ordering};
use std::sync::Arc;
use std::time::Duration;

type App = TerminalApp<u32, String, u8, u16>;
type Registry = CommandRegistry<u32, String>;

fn words(list: &[&str]) -> Vec<String> {
    list.iter().map(|w| w.to_string()).collect()
}

fn runtime() -> tokio::runtime::Runtime {
    tokio::runtime::Builder::new_multi_thread().worker_threads(2).enable_all().build().unwrap()
}

#[test]
fn handler_kinds() {
    let sync: CommandHandlerType<u32, String> = CommandHandlerType::PubSync(1);
    let background: CommandHandlerType<u32, String> = CommandHandlerType::PubAsync("a".to_string());
    assert!(sync.as_sync());
    assert!(!background.as_sync());
}

#[test]
fn registry_binds_each_name_to_one_handler() {
    let mut registry = Registry::new();
    assert!(!registry.contains("list"));
    assert_eq!(registry.get("list"), None);
    registry.insert("list", CommandHandlerType::PubSync(1));
    registry.insert("wait", CommandHandlerType::PubAsync("sleep".to_string()));
    assert!(registry.contains("list"));
    assert_eq!(registry.get("list"), Some(&CommandHandlerType::PubSync(1)));
    assert_eq!(registry.get("wait"), Some(&CommandHandlerType::PubAsync("sleep".to_string())));
    assert_eq!(registry.get("List"), None);
    registry.insert("list", CommandHandlerType::PubSync(2));
    assert_eq!(registry.get("list"), Some(&CommandHandlerType::PubSync(2)));
    registry.insert("list", CommandHandlerType::PubAsync("now async".to_string()));
    assert_eq!(registry.get("list"), Some(&CommandHandlerType::PubAsync("now async".to_string())));
    assert_eq!(registry.get("wait"), Some(&CommandHandlerType::PubAsync("sleep".to_string())));
}

#[test]
fn registry_remove_takes_the_binding_out() {
    let mut registry = Registry::new();
    registry.insert("a", CommandHandlerType::PubSync(1));
    registry.insert("b", CommandHandlerType::PubSync(2));
    registry.insert("c", CommandHandlerType::PubSync(3));
    assert_eq!(registry.remove("b"), Some(CommandHandlerType::PubSync(2)));
    assert_eq!(registry.remove("b"), None);
    assert!(!registry.contains("b"));
    assert_eq!(registry.get("a"), Some(&CommandHandlerType::PubSync(1)));
    assert_eq!(registry.get("c"), Some(&CommandHandlerType::PubSync(3)));
    assert_eq!(registry.remove("missing"), None);
    registry.insert("b", CommandHandlerType::PubSync(4));
    assert_eq!(registry.get("b"), Some(&CommandHandlerType::PubSync(4)));
}

#[test]
fn blank_line_dispatches_nothing() {
    let mut app = App::new();
    app.register_command("list", 1);
    assert_eq!(execute_command(&mut app, ""), Dispatch::Nothing);
    assert_eq!(execute_command(&mut app, "  \t "), Dispatch::Nothing);
    assert!(app.command("list").is_some());
    assert!(app.pending_outputs().is_empty());
}

#[test]
fn sync_command_is_handed_out_with_its_arguments() {
    let mut app = App::new();
    app.register_command("hello", 7);
    let due = execute_command(&mut app, "  hello   Ada  Lovelace ");
    assert_eq!(
        due,
        Dispatch::RunSync { name: "hello".to_string(), handler: 7, args: words(&["Ada", "Lovelace"]) }
    );
    assert_eq!(app.command("hello"), None);
}

#[test]
fn sync_command_without_arguments() {
    let mut app = App::new();
    app.register_command("help", 3);
    let due = execute_command(&mut app, "help");
    assert_eq!(due, Dispatch::RunSync { name: "help".to_string(), handler: 3, args: vec![] });
}

#[test]
fn exclusive_sync_handler_invocation() {
    let mut app = App::new();
    app.register_command("test", 1);
    let first = execute_command(&mut app, "test");
    let handler = match first {
        Dispatch::RunSync { name, handler, args } => {
            assert_eq!(name, "test");
            assert!(args.is_empty());
            handler
        }
        other => panic!("unexpected {:?}", other),
    };
    let history_before = app.command_history().len();
    let second = execute_command(&mut app, "test again");
    assert!(matches!(second, Dispatch::NotFound { .. }), "{:?}", second);
    assert_eq!(app.command("test"), None);
    assert_eq!(app.command_history().len(), history_before);
    app.register_command("test", handler);
    let third = execute_command(&mut app, "test");
    assert_eq!(third, Dispatch::RunSync { name: "test".to_string(), handler: 1, args: vec![] });
}

#[test]
fn handler_may_register_another_name_while_it_runs() {
    let mut app = App::new();
    app.register_command("outer", 1);
    let due = execute_command(&mut app, "outer");
    assert!(matches!(due, Dispatch::RunSync { handler: 1, .. }));
    app.register_command("inner", 2);
    app.register_command("outer", 1);
    assert_eq!(app.command("outer"), Some(&CommandHandlerType::PubSync(1)));
    assert_eq!(app.command("inner"), Some(&CommandHandlerType::PubSync(2)));
}

#[test]
fn handing_back_wins_over_what_the_handler_registered_under_its_own_name() {
    let mut app = App::new();
    app.register_command("self", 1);
    let due = execute_command(&mut app, "self");
    assert!(matches!(due, Dispatch::RunSync { handler: 1, .. }));
    app.register_command("self", 99);
    app.register_command("self", 1);
    assert_eq!(app.command("self"), Some(&CommandHandlerType::PubSync(1)));
}

#[test]
fn async_command_gets_a_copy_and_stays_bound() {
    let mut app = App::new();
    app.register_async_command("wait", "sleeper".to_string());
    let due = execute_command(&mut app, "wait 2");
    assert_eq!(
        due,
        Dispatch::SpawnAsync {
            command: "wait 2".to_string(),
            handler: "sleeper".to_string(),
            args: words(&["2"]),
            notice: LogRecord::new(
                LogLevel::Info,
                "Async command 'wait' started in the background",
                Some("CommandStatus")
            ),
        }
    );
    assert_eq!(app.command("wait"), Some(&CommandHandlerType::PubAsync("sleeper".to_string())));
}

#[test]
fn async_independence() {
    let mut app = App::new();
    app.register_async_command("wait", "sleeper".to_string());
    let first = execute_command(&mut app, "wait 2");
    let second = execute_command(&mut app, "wait 2");
    assert_eq!(first, second);
    assert!(matches!(first, Dispatch::SpawnAsync { .. }));
    let rt = runtime();
    let (tx, mut rx) = tokio::sync::mpsc::unbounded_channel::<CommandResult>();
    for due in [first, second] {
        if let Dispatch::SpawnAsync { command, args, .. } = due {
            let line = command.clone();
            let tx = tx.clone();
            let handle = rt.spawn(async move {
                tokio::time::sleep(Duration::from_millis(60)).await;
                let output = format!("finished after {} seconds", args[0]);
                let _ = tx.send(CommandResult { command: line, output: output.clone() });
                output
            });
            app.track_running_command(RunningCommand { command, handle });
        }
    }
    assert_eq!(app.running_commands().len(), 2);
    assert_eq!(app.running_commands()[0].command, "wait 2");

    // The loop goes on while both run: a key is taken at once.
    app.begin_tick(vec![], rx.try_recv().ok());
    assert_eq!(app.running_commands().len(), 2);
    let typed = Event::Key(KeyEvent::press(KeyCode::Char('x')));
    assert_eq!(app.process_poll_at(Polled::Event(typed), 0), Outcome::Continue);
    assert_eq!(app.current_input(), "x");
    assert!(!app.end_tick(false));
    app.take_outputs();

    rt.block_on(async { tokio::time::sleep(Duration::from_millis(300)).await });
    let mut printed = Vec::new();
    for _ in 0..3 {
        app.begin_tick(vec![], rx.try_recv().ok());
        for output in app.take_outputs() {
            if let Output::Line(text) = output {
                printed.push(text);
            }
        }
    }
    assert_eq!(printed, vec!["finished after 2 seconds", "finished after 2 seconds"]);
    assert!(app.running_commands().is_empty());
    assert_eq!(app.current_input(), "x");
}

#[test]
fn unknown_command_fallback_order() {
    let mut app = App::new();
    app.register_command("known", 1);
    app.set_unknown_command_handler(5);
    app.set_async_unknown_command_handler(6);
    assert_eq!(
        execute_command(&mut app, "nope at all"),
        Dispatch::AskAsyncUnknown { command: "nope at all".to_string() }
    );
    assert_eq!(app.unknown_command_handler(), Some(&5));
    assert_eq!(app.async_unknown_command_handler(), Some(&6));
}

#[test]
fn sync_unknown_hook_is_asked_without_the_async_one() {
    let mut app = App::new();
    app.set_unknown_command_handler(5);
    assert_eq!(
        execute_command(&mut app, " sudo rm "),
        Dispatch::AskUnknown { command: " sudo rm ".to_string() }
    );
}

#[test]
fn no_hook_gives_the_built_in_answer() {
    let mut app = App::new();
    assert_eq!(
        execute_command(&mut app, "nope"),
        Dispatch::NotFound {
            notice: LogRecord::new(
                LogLevel::Warn,
                "Command not found or registered: 'nope'",
                Some("CommandStatus")
            )
        }
    );
}

#[test]
fn clearing_the_hooks_clears_both() {
    let mut app = App::new();
    app.set_unknown_command_handler(5);
    app.set_async_unknown_command_handler(6);
    app.clear_unknown_command_handler();
    assert_eq!(app.unknown_command_handler(), None);
    assert_eq!(app.async_unknown_command_handler(), None);
    assert!(matches!(execute_command(&mut app, "x"), Dispatch::NotFound { .. }));
}

#[test]
fn a_registered_name_is_not_unknown() {
    let mut app = App::new();
    app.set_async_unknown_command_handler(6);
    app.register_command("list", 1);
    assert!(matches!(execute_command(&mut app, "list"), Dispatch::RunSync { .. }));
    assert!(matches!(execute_command(&mut app, "LIST"), Dispatch::AskAsyncUnknown { .. }));
}

#[test]
fn command_result_is_a_plain_value() {
    let result = CommandResult { command: "wait 2".to_string(), output: "done".to_string() };
    assert_eq!(result.clone(), result);
    assert_eq!(result.command, "wait 2");
}

#[test]
fn retain_unfinished_keeps_the_order() {
    let rt = runtime();
    let mut running = Vec::new();
    for name in ["a", "b", "c", "d"] {
        let handle = rt.spawn(async move { name.to_string() });
        running.push(RunningCommand { command: name.to_string(), handle });
    }
    let kept = retain_unfinished(running, &vec![true, false, true, false]);
    let names: Vec<&str> = kept.iter().map(|r| r.command.as_str()).collect();
    assert_eq!(names, vec!["b", "d"]);
    let none = retain_unfinished(kept, &vec![true, true]);
    assert!(none.is_empty());
    assert!(retain_unfinished(Vec::new(), &vec![]).is_empty());
}

#[test]
fn finished_tasks_are_reaped_and_running_ones_stay() {
    let rt = runtime();
    let mut app = App::new();
    let quick = rt.spawn(async { "quick".to_string() });
    let slow = rt.spawn(async {
        tokio::time::sleep(Duration::from_secs(5)).await;
        "slow".to_string()
    });
    let other = rt.spawn(async { "other".to_string() });
    app.track_running_command(RunningCommand { command: "quick".to_string(), handle: quick });
    app.track_running_command(RunningCommand { command: "slow 5".to_string(), handle: slow });
    app.track_running_command(RunningCommand { command: "other".to_string(), handle: other });
    rt.block_on(async { tokio::time::sleep(Duration::from_millis(100)).await });
    app.check_running_commands();
    let names: Vec<&str> = app.running_commands().iter().map(|r| r.command.as_str()).collect();
    assert_eq!(names, vec!["slow 5"]);
    assert!(app.pending_outputs().is_empty());
    app.reap_finished(&vec![false]);
    assert_eq!(app.running_commands().len(), 1);
    app.reap_finished(&vec![true]);
    assert!(app.running_commands().is_empty());
}

#[test]
fn abort_stops_what_still_runs() {
    let rt = runtime();
    let mut app = App::new();
    let reached = Arc::new(AtomicBool::new(false));
    let flag = reached.clone();
    let handle = rt.spawn(async move {
        tokio::time::sleep(Duration::from_millis(150)).await;
        flag.store(true, Ordering::SeqCst);
        "late".to_string()
    });
    app.track_running_command(RunningCommand { command: "late".to_string(), handle });
    let done = rt.spawn(async { "done".to_string() });
    rt.block_on(async { tokio::time::sleep(Duration::from_millis(20)).await });
    app.track_running_command(RunningCommand { command: "done".to_string(), handle: done });
    let mut stopped = app.abort_running_commands();
    assert!(app.running_commands().is_empty());
    assert_eq!(stopped.len(), 2);
    assert_eq!(stopped[0].command, "late");
    assert_eq!(stopped[1].command, "done");
    let done = stopped.pop().unwrap();
    let late = stopped.pop().unwrap();
    assert_eq!(rt.block_on(done.handle).unwrap(), "done");
    assert!(rt.block_on(late.handle).unwrap_err().is_cancelled());
    rt.block_on(async { tokio::time::sleep(Duration::from_millis(300)).await });
    assert!(!reached.load(Ordering::SeqCst));
    assert!(app.abort_running_commands().is_empty());
}
