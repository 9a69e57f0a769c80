//! The console: the line editor, the command registry, the bookkeeping of
//! commands in the background and the queue of outputs, under one roof.
//!
//! The console reads no keyboard and writes to no terminal. Its driver hands
//! it what happened (a key, an action from the action bus, the result of a
//! command) and carries out what the console puts in its queue of outputs.
//! What every operation does is said by the model in [`crate::model`].
use crate::command::{
    abort_task, retain_unfinished, task_finished, CommandHandlerType, CommandRegistry,
    CommandResult, Dispatch, RunningCommand, RunningCommandView,
};
use crate::editor::LineEditor;
use crate::events::EventDraft;
use crate::keys::{Event, KeyCode, KeyEvent, KeyEventKind, Polled};
use crate::logger::{LogLevel, LogRecord};
use crate::laws::lemma_actions_keep_running;
use crate::model::{AppActionView, ConsoleView, OutcomeView, Phase, EXIT_WINDOW_MILLIS};
use crate::output::{Output, OutputView};
use crate::text::{lines, split_whitespace, trim_start};
use crate::utils::{elapsed_since, monotonic_now, saturate_millis, whole_millis};
use vstd::prelude::*;
use vstd::string::*;

verus! {

/// Actions that can be sent from async commands to the main application
#[derive(Debug, PartialEq, Eq)]
pub enum AppAction<S> {
    /// Register a new command: (command_name, handler)
    RegisterCommand(String, S),
    /// Log an info message
    Info(String),
    /// Log a debug message
    Debug(String),
    /// Log a warn message
    Warn(String),
    /// Log an error message
    Error(String),
    /// Log a critical message
    Critical(String),
}

impl<S> View for AppAction<S> {
    type V = AppActionView<S>;

    open spec fn view(&self) -> AppActionView<S> {
        match *self {
            AppAction::RegisterCommand(name, handler) => AppActionView::RegisterCommand(
                name@,
                handler,
            ),
            AppAction::Info(message) => AppActionView::Info(message@),
            AppAction::Debug(message) => AppActionView::Debug(message@),
            AppAction::Warn(message) => AppActionView::Warn(message@),
            AppAction::Error(message) => AppActionView::Error(message@),
            AppAction::Critical(message) => AppActionView::Critical(message@),
        }
    }
}

impl<S> DeepView for AppAction<S> {
    type V = AppActionView<S>;

    open spec fn deep_view(&self) -> AppActionView<S> {
        self@
    }
}

/// What came of an event.
#[derive(Debug, PartialEq, Eq)]
pub enum Outcome<S, A> {
    /// The loop goes on.
    Continue,
    /// The loop ends.
    Quit,
    /// A line was submitted, and this is due for it. The driver does it and
    /// hands what comes out to [`TerminalApp::complete_command`].
    Dispatch(Dispatch<S, A>),
}

impl<S, A> View for Outcome<S, A> {
    type V = OutcomeView<S, A>;

    open spec fn view(&self) -> OutcomeView<S, A> {
        match *self {
            Outcome::Continue => OutcomeView::Continue,
            Outcome::Quit => OutcomeView::Quit,
            Outcome::Dispatch(due) => OutcomeView::Dispatch(due@),
        }
    }
}

/// Main terminal application structure managing state and command execution.
///
/// `S` is the type of the handlers that run in place, `A` that of the
/// handlers that run in the background, `U` and `V` those of the two hooks
/// for unknown commands.
pub struct TerminalApp<S, A, U, V> {
    editor: LineEditor,
    last_ctrl_c: Option<u64>,
    should_exit: bool,
    commands: CommandRegistry<S, A>,
    unknown_command_handler: Option<U>,
    async_unknown_command_handler: Option<V>,
    running_commands: Vec<RunningCommand>,
    last_key_event: Option<KeyEvent>,
    dispatch_event: bool,
    phase: Phase,
    outbox: Vec<Output>,
    started: std::time::Instant,
}

impl<S, A, U, V> View for TerminalApp<S, A, U, V> {
    type V = ConsoleView<S, A, U, V>;

    /// The console as a mathematical value. The instant at which the console
    /// was made is no part of it: it only serves to read the console's
    /// clock, and what the clock says comes into the rules as a reading.
    closed spec fn view(&self) -> ConsoleView<S, A, U, V> {
        ConsoleView {
            editor: self.editor@,
            last_ctrl_c: self.last_ctrl_c,
            should_exit: self.should_exit,
            commands: self.commands@,
            unknown_command_handler: self.unknown_command_handler,
            async_unknown_command_handler: self.async_unknown_command_handler,
            running_commands: self.running_commands.deep_view(),
            last_key_event: self.last_key_event,
            dispatch_event: self.dispatch_event,
            phase: self.phase,
            outbox: self.outbox.deep_view(),
        }
    }
}

impl<S, A, U, V> Default for TerminalApp<S, A, U, V> {
    fn default() -> (app: Self)
        ensures
            app@ == ConsoleView::<S, A, U, V>::fresh(),
    {
        Self::new()
    }
}

impl<S, A, U, V> TerminalApp<S, A, U, V> {
    /// Creates a new terminal application instance with default settings.
    pub fn new() -> (app: Self)
        ensures
            app@ == ConsoleView::<S, A, U, V>::fresh(),
    {
        let app = TerminalApp {
            editor: LineEditor::new(),
            last_ctrl_c: None,
            should_exit: false,
            commands: CommandRegistry::new(),
            unknown_command_handler: None,
            async_unknown_command_handler: None,
            running_commands: Vec::new(),
            last_key_event: None,
            dispatch_event: true,
            phase: Phase::Initializing,
            outbox: Vec::new(),
            started: monotonic_now(),
        };
        assert(app.running_commands.deep_view() =~= Seq::<RunningCommandView>::empty());
        assert(app.outbox.deep_view() =~= Seq::<OutputView>::empty());
        app
    }

    /// The line editor.
    pub fn editor(&self) -> (editor: &LineEditor)
        ensures
            editor@ == self@.editor,
    {
        &self.editor
    }

    /// The text being typed.
    pub fn current_input(&self) -> (text: &String)
        ensures
            text@ == self@.editor.input,
    {
        self.editor.input()
    }

    /// The cursor's offset in the text, in characters.
    pub fn cursor_position(&self) -> (offset: usize)
        ensures
            offset == self@.editor.cursor,
    {
        self.editor.cursor()
    }

    /// The lines submitted so far, oldest first.
    pub fn command_history(&self) -> (lines: &Vec<String>)
        ensures
            lines.deep_view() == self@.editor.history,
    {
        self.editor.history()
    }

    /// The index of the line of the history that is shown, if one is.
    pub fn history_index(&self) -> (index: Option<usize>)
        ensures
            match index {
                Some(i) => self@.editor.browsing == Some(i as nat),
                None => self@.editor.browsing is None,
            },
    {
        self.editor.history_index()
    }

    /// The reading of the console's clock at the last Control+C that was
    /// taken down.
    pub fn last_ctrl_c(&self) -> (reading: Option<u64>)
        ensures
            reading == self@.last_ctrl_c,
    {
        self.last_ctrl_c
    }

    /// Tells whether the console is to end after the current turn of the
    /// loop.
    pub fn should_exit(&self) -> (exit: bool)
        ensures
            exit == self@.should_exit,
    {
        self.should_exit
    }

    /// Says whether the console is to end after the current turn of the
    /// loop.
    pub fn set_should_exit(&mut self, exit: bool)
        ensures
            final(self)@ == (ConsoleView { should_exit: exit, ..old(self)@ }),
    {
        self.should_exit = exit;
    }

    /// The phase of the console's life.
    pub fn phase(&self) -> (phase: Phase)
        ensures
            phase == self@.phase,
    {
        self.phase
    }

    /// The handler that `name` is bound to, if it is bound.
    pub fn command(&self, name: &str) -> (handler: Option<&CommandHandlerType<S, A>>)
        ensures
            match handler {
                Some(h) => self@.commands.contains_key(name@) && self@.commands[name@] == *h,
                None => !self@.commands.contains_key(name@),
            },
    {
        self.commands.get(name)
    }

    /// The hook for unknown commands that runs in place, if one is set.
    pub fn unknown_command_handler(&self) -> (hook: Option<&U>)
        ensures
            match hook {
                Some(h) => self@.unknown_command_handler == Some(*h),
                None => self@.unknown_command_handler is None,
            },
    {
        self.unknown_command_handler.as_ref()
    }

    /// The hook for unknown commands that runs in the background, if one is
    /// set.
    pub fn async_unknown_command_handler(&self) -> (hook: Option<&V>)
        ensures
            match hook {
                Some(h) => self@.async_unknown_command_handler == Some(*h),
                None => self@.async_unknown_command_handler is None,
            },
    {
        self.async_unknown_command_handler.as_ref()
    }

    /// The commands that run in the background, oldest first.
    pub fn running_commands(&self) -> (running: &Vec<RunningCommand>)
        ensures
            running.deep_view() == self@.running_commands,
    {
        &self.running_commands
    }

    /// What is waiting for the driver, oldest first.
    pub fn pending_outputs(&self) -> (outputs: &Vec<Output>)
        ensures
            outputs.deep_view() == self@.outbox,
    {
        &self.outbox
    }

    /// Hands the queue of outputs to the driver and leaves it empty.
    pub fn take_outputs(&mut self) -> (outputs: Vec<Output>)
        ensures
            outputs.deep_view() == old(self)@.outbox,
            final(self)@ == old(self)@.drained(),
    {
        let mut outputs: Vec<Output> = Vec::new();
        core::mem::swap(&mut self.outbox, &mut outputs);
        assert(self.outbox.deep_view() =~= Seq::<OutputView>::empty());
        outputs
    }

    /// Puts one output in the queue.
    fn emit(&mut self, output: Output)
        ensures
            final(self)@ == old(self)@.emit(seq![output@]),
    {
        let ghost before = self.outbox.deep_view();
        self.outbox.push(output);
        assert(self.outbox.deep_view() =~= before + seq![output@]);
    }

    /// Registers a synchronous command with the terminal application
    pub fn register_command(&mut self, name: &str, handler: S)
        ensures
            final(self)@ == old(self)@.register_command(name@, handler),
    {
        self.commands.insert(name, CommandHandlerType::PubSync(handler));
    }

    /// Registers an asynchronous command with the terminal application
    pub fn register_async_command(&mut self, name: &str, handler: A)
        ensures
            final(self)@ == old(self)@.register_async_command(name@, handler),
    {
        self.commands.insert(name, CommandHandlerType::PubAsync(handler));
    }

    /// Sets a custom handler for unknown commands (synchronous).
    pub fn set_unknown_command_handler(&mut self, handler: U)
        ensures
            final(self)@ == (ConsoleView {
                unknown_command_handler: Some(handler),
                ..old(self)@
            }),
    {
        self.unknown_command_handler = Some(handler);
    }

    /// Sets a custom handler for unknown commands (asynchronous).
    pub fn set_async_unknown_command_handler(&mut self, handler: V)
        ensures
            final(self)@ == (ConsoleView {
                async_unknown_command_handler: Some(handler),
                ..old(self)@
            }),
    {
        self.async_unknown_command_handler = Some(handler);
    }

    /// Removes the custom unknown command handler.
    pub fn clear_unknown_command_handler(&mut self)
        ensures
            final(self)@ == old(self)@.clear_unknown_command_handler(),
    {
        self.unknown_command_handler = None;
        self.async_unknown_command_handler = None;
    }

    /// Clears the current input line.
    pub fn clear_input_line(&mut self)
        ensures
            final(self)@ == old(self)@.clear_input_line(),
    {
        self.emit(Output::ClearLine);
    }

    /// Renders the input line with prompt and cursor positioning.
    pub fn render_input_line(&mut self)
        ensures
            final(self)@ == old(self)@.render_input_line(),
    {
        let frame = self.editor.frame();
        self.emit(Output::Prompt(frame));
    }

    /// Prints a log entry while preserving the input line.
    ///
    /// Clears the current line, prints the log message, and re-renders the input line.
    pub fn print_log_entry(&mut self, log_line: &str)
        ensures
            final(self)@ == old(self)@.print_log_entry(log_line@),
    {
        self.emit(Output::ClearLine);
        self.emit(Output::Line(log_line.to_owned()));
        self.emit(Output::Flush);
        self.render_input_line();
        assert(self@.outbox =~= old(self)@.print_log_entry(log_line@).outbox);
    }

    /// Prints a log record, laid out when it is written, while preserving
    /// the input line.
    pub fn print_record(&mut self, record: LogRecord)
        ensures
            final(self)@ == old(self)@.print_record(record@),
    {
        self.emit(Output::ClearLine);
        self.emit(Output::Log(record));
        self.emit(Output::Flush);
        self.render_input_line();
        assert(self@.outbox =~= old(self)@.print_record(record@).outbox);
    }

    /// The record of a message that the console's own logging methods
    /// print.
    fn stream_record(level: LogLevel, message: &str) -> (record: LogRecord)
        ensures
            record@ == crate::model::stream_record(level, message@),
    {
        LogRecord::new(level, message, Some("Stream"))
    }

    /// Dispatches log events if event dispatching is enabled
    fn dispatch_log_events(&mut self, message: &str, level: LogLevel)
        ensures
            final(self)@ == if old(self)@.dispatch_event {
                old(self)@.emit(
                    seq![
                        OutputView::Publish(
                            crate::events::EventDraftView::TerminalLog(
                                crate::model::stream_record(level, message@),
                            ),
                        ),
                    ],
                )
            } else {
                old(self)@
            },
    {
        if self.dispatch_event {
            let record = Self::stream_record(level, message);
            self.emit(Output::Publish(EventDraft::TerminalLog(record)));
        }
    }

    /// Logs a message of the given level: prints it above the input line
    /// and, where log messages are published, publishes it.
    pub fn log(&mut self, level: LogLevel, message: &str)
        ensures
            final(self)@ == old(self)@.log(level, message@),
    {
        self.print_record(Self::stream_record(level, message));
        self.dispatch_log_events(message, level);
    }

    /// Log info-level messages.
    ///
    /// The message is printed above the input line, which is drawn anew
    /// below it.
    pub fn info(&mut self, message: &str)
        ensures
            final(self)@ == old(self)@.log(LogLevel::Info, message@),
    {
        self.log(LogLevel::Info, message);
    }

    /// Log debug-level messages.
    pub fn debug(&mut self, message: &str)
        ensures
            final(self)@ == old(self)@.log(LogLevel::Debug, message@),
    {
        self.log(LogLevel::Debug, message);
    }

    /// Log warn-level messages.
    pub fn warn(&mut self, message: &str)
        ensures
            final(self)@ == old(self)@.log(LogLevel::Warn, message@),
    {
        self.log(LogLevel::Warn, message);
    }

    /// Log error-level messages.
    pub fn error(&mut self, message: &str)
        ensures
            final(self)@ == old(self)@.log(LogLevel::Error, message@),
    {
        self.log(LogLevel::Error, message);
    }

    /// Log critical-level messages.
    pub fn critical(&mut self, message: &str)
        ensures
            final(self)@ == old(self)@.log(LogLevel::Critical, message@),
    {
        self.log(LogLevel::Critical, message);
    }

    /// Handles log actions with event dispatch switched off: the message is
    /// printed and not published.
    fn handle_log_action(&mut self, level: LogLevel, message: &str)
        ensures
            final(self)@ == old(self)@.log_action(level, message@),
    {
        let was = self.dispatch_event;
        self.dispatch_event = false;
        self.log(level, message);
        self.dispatch_event = was;
    }

    /// Carries out one action from the action bus.
    pub fn apply_action(&mut self, action: AppAction<S>)
        ensures
            final(self)@ == old(self)@.apply(action@),
    {
        match action {
            AppAction::RegisterCommand(name, handler) => {
                self.register_command(name.as_str(), handler);
            },
            AppAction::Info(message) => {
                self.handle_log_action(LogLevel::Info, message.as_str());
            },
            AppAction::Debug(message) => {
                self.handle_log_action(LogLevel::Debug, message.as_str());
            },
            AppAction::Warn(message) => {
                self.handle_log_action(LogLevel::Warn, message.as_str());
            },
            AppAction::Error(message) => {
                self.handle_log_action(LogLevel::Error, message.as_str());
            },
            AppAction::Critical(message) => {
                self.handle_log_action(LogLevel::Critical, message.as_str());
            },
        }
    }

    /// Carries out the actions that came over the action bus, in the order
    /// in which they came.
    pub fn apply_actions(&mut self, actions: Vec<AppAction<S>>)
        ensures
            final(self)@ == old(self)@.apply_all(actions.deep_view()),
    {
        let ghost all = actions.deep_view();
        let mut rest = actions;
        let mut turned: Vec<AppAction<S>> = Vec::new();
        // `turned` holds the actions newest first, so that the oldest can be
        // taken from its end.
        while rest.len() > 0
            invariant
                all == rest.deep_view() + turned.deep_view().reverse(),
            decreases rest.len(),
        {
            let action = rest.pop().unwrap();
            turned.push(action);
        }
        let ghost total = turned.len() as int;
        while turned.len() > 0
            invariant
                total == all.len(),
                turned.len() <= total,
                turned.deep_view() == all.reverse().take(turned.len() as int),
                self@ == old(self)@.apply_all(all.take(total - turned.len())),
            decreases turned.len(),
        {
            let ghost k = total - turned.len();
            let ghost t = turned.deep_view();
            let action = turned.pop().unwrap();
            assert(action@ == t.last());
            assert(all.take(k + 1).drop_last() =~= all.take(k));
            self.apply_action(action);
        }
        assert(all.take(total) =~= all);
    }

    /// Handles Ctrl+D key press, signaling application exit.
    pub fn handle_ctrl_d(&mut self) -> (quit: bool)
        ensures
            quit,
            final(self)@ == old(self)@,
    {
        true
    }

    /// Handles Ctrl+C key press with double-press confirmation, at the
    /// reading `now` of the console's clock, in milliseconds.
    ///
    /// Returns whether the console is to end, and what to tell the user.
    pub fn handle_ctrl_c_at(&mut self, now: u64) -> (verdict: (bool, LogRecord))
        ensures
            (final(self)@, verdict.0, verdict.1@) == old(self)@.ctrl_c(now),
    {
        if !self.editor.is_empty() {
            self.editor.clear();
            self.last_ctrl_c = Some(now);
            return (
                false,
                LogRecord::new(
                    LogLevel::Info,
                    "Input cleared. Press Ctrl+C again to exit.",
                    Some("Daemon Console"),
                ),
            );
        }
        match self.last_ctrl_c {
            Some(last) => {
                let elapsed: u64 = if now >= last {
                    now - last
                } else {
                    0
                };
                if elapsed < EXIT_WINDOW_MILLIS {
                    return (
                        true,
                        LogRecord::new(
                            LogLevel::Warn,
                            "Exiting application. Goodbye!",
                            Some("Daemon Console"),
                        ),
                    );
                }
            },
            None => {},
        }
        self.last_ctrl_c = Some(now);
        (
            false,
            LogRecord::new(LogLevel::Info, "Press Ctrl+C again to exit.", Some("Daemon Console")),
        )
    }

    /// The present reading of the console's clock: the milliseconds since
    /// the console was made, as [`saturate_millis`] brings them into 64 bits.
    /// What the clock says is not for a contract to promise.
    pub fn uptime_millis(&self) -> u64 {
        let span = elapsed_since(&self.started);
        saturate_millis(whole_millis(&span))
    }

    /// Handles Ctrl+C key press with double-press confirmation.
    ///
    /// The first press clears input, the second press within 5 seconds exits.
    pub fn handle_ctrl_c(&mut self) -> (verdict: (bool, LogRecord))
        ensures
            exists|now: u64| (final(self)@, verdict.0, verdict.1@) == old(self)@.ctrl_c(now),
    {
        let now = self.uptime_millis();
        self.handle_ctrl_c_at(now)
    }

    /// Prints what a command in the background handed back, line by line,
    /// each line without its leading white space.
    pub fn handle_command_result(&mut self, result: CommandResult)
        ensures
            final(self)@ == old(self)@.command_result(result@),
    {
        let rows = lines(result.output.as_str());
        let mut i: usize = 0;
        while i < rows.len()
            invariant
                i <= rows.len(),
                self@ == old(self)@.print_lines(rows.deep_view().take(i as int)),
            decreases rows.len() - i,
        {
            assert(rows.deep_view().take(i + 1).drop_last() =~= rows.deep_view().take(i as int));
            let row = trim_start(rows[i].as_str());
            self.print_log_entry(row.as_str());
            i = i + 1;
        }
        assert(rows.deep_view().take(i as int) =~= rows.deep_view());
    }

    /// Forgets the commands in the background whose flag in `finished` is
    /// set.
    pub fn reap_finished(&mut self, finished: &Vec<bool>)
        requires
            finished.len() == old(self)@.running_commands.len(),
        ensures
            final(self)@ == old(self)@.reap(finished@),
    {
        let mut running: Vec<RunningCommand> = Vec::new();
        core::mem::swap(&mut self.running_commands, &mut running);
        self.running_commands = retain_unfinished(running, finished);
    }

    /// Checks for completed running commands and cleans up finished tasks
    pub fn check_running_commands(&mut self)
        ensures
            old(self)@.reaps_to(final(self)@),
    {
        let mut finished: Vec<bool> = Vec::new();
        let mut i: usize = 0;
        while i < self.running_commands.len()
            invariant
                i <= self.running_commands.len(),
                finished.len() == i,
                *self == *old(self),
            decreases self.running_commands.len() - i,
        {
            finished.push(task_finished(&self.running_commands[i].handle));
            i = i + 1;
        }
        self.reap_finished(&finished);
    }

    /// Takes down a command that the driver has started in the background.
    pub fn track_running_command(&mut self, running: RunningCommand)
        ensures
            final(self)@ == old(self)@.track(running@),
    {
        let ghost before = self.running_commands.deep_view();
        self.running_commands.push(running);
        assert(self.running_commands.deep_view() =~= before.push(running@));
    }

    /// Asks every command in the background to stop and hands them out,
    /// oldest first: what is returned are the tasks that were asked to stop,
    /// all that the console kept track of. It keeps track of none any more,
    /// and waits for none.
    pub fn abort_running_commands(&mut self) -> (stopped: Vec<RunningCommand>)
        ensures
            stopped.deep_view() == old(self)@.running_commands,
            final(self)@ == (ConsoleView { running_commands: Seq::empty(), ..old(self)@ }),
    {
        let mut stopped: Vec<RunningCommand> = Vec::new();
        core::mem::swap(&mut self.running_commands, &mut stopped);
        assert(self.running_commands.deep_view() =~= Seq::<RunningCommandView>::empty());
        let mut i: usize = 0;
        while i < stopped.len()
            invariant
                i <= stopped.len(),
            decreases stopped.len() - i,
        {
            abort_task(&stopped[i].handle);
            i = i + 1;
        }
        stopped
    }

    /// Initializes the terminal with raw mode and displays startup messages.
    pub fn init_terminal(&mut self, startup_message: &str)
        ensures
            final(self)@ == old(self)@.init_terminal(startup_message@),
    {
        self.phase = Phase::Running;
        self.emit(Output::RawMode(true));
        self.emit(Output::MouseCapture(true));
        self.emit(Output::CursorVisible(false));
        self.emit(Output::Flush);
        if startup_message.unicode_len() > 0 {
            self.emit(Output::Line(startup_message.to_owned()));
            self.emit(Output::Flush);
        }
        assert(self@.outbox =~= old(self)@.init_terminal(startup_message@).outbox);
    }

    /// Shuts down the terminal and displays exit messages.
    pub fn shutdown_terminal(&mut self, exit_message: &str)
        ensures
            final(self)@ == old(self)@.shutdown_terminal(exit_message@),
    {
        self.phase = Phase::Terminated;
        self.emit(Output::RawMode(false));
        self.emit(Output::Line(exit_message.to_owned()));
        self.emit(Output::Flush);
        assert(self@.outbox =~= old(self)@.shutdown_terminal(exit_message@).outbox);
    }

    /// Starts the loop: sets the terminal up and prints `startup_message`
    /// above the prompt line if it is not empty.
    pub fn start_run(&mut self, startup_message: &str)
        ensures
            final(self)@ == old(self)@.start_run(startup_message@),
    {
        self.phase = Phase::Running;
        self.emit(Output::RawMode(true));
        self.emit(Output::MouseCapture(true));
        self.emit(Output::CursorVisible(false));
        assert(self@.outbox =~= old(self)@.outbox + seq![
            OutputView::RawMode(true),
            OutputView::MouseCapture(true),
            OutputView::CursorVisible(false),
        ]);
        if startup_message.unicode_len() > 0 {
            self.print_log_entry(startup_message);
        }
    }

    /// Starts a turn of the loop: carries out the actions that came over the
    /// action bus, in their order, forgets the commands in the background
    /// that have finished, and prints the result of at most one command in
    /// the background.
    pub fn begin_tick(&mut self, actions: Vec<AppAction<S>>, result: Option<CommandResult>)
        ensures
            old(self)@.begins_tick(
                actions.deep_view(),
                match result {
                    Some(r) => Some(r@),
                    None => None,
                },
                final(self)@,
            ),
    {
        self.apply_actions(actions);
        proof {
            lemma_actions_keep_running(old(self)@, actions.deep_view());
        }
        let ghost applied = self@;
        self.check_running_commands();
        let ghost finished = choose|finished: Seq<bool>|
            finished.len() == applied.running_commands.len() && self@ == #[trigger] applied.reap(
                finished,
            );
        match result {
            Some(r) => {
                self.handle_command_result(r);
            },
            None => {},
        }
        assert(self@ == old(self)@.begin_tick(
            actions.deep_view(),
            finished,
            match result {
                Some(r) => Some(r@),
                None => None,
            },
        ));
    }

    /// Ends a turn of the loop in which `quit` says whether the event asked
    /// for the end. Tells whether the loop ends.
    pub fn end_tick(&mut self, quit: bool) -> (ends: bool)
        ensures
            ends == old(self)@.ends(quit),
            final(self)@ == old(self)@.end_tick(quit),
    {
        if quit || self.should_exit {
            self.phase = Phase::ShuttingDown;
            true
        } else {
            false
        }
    }

    /// Ends the run: asks every command in the background to stop, restores
    /// the terminal and writes `exit_message` if it is not empty. What is
    /// returned are the tasks that were asked to stop, oldest first; no
    /// result of theirs is waited for.
    pub fn finish_run(&mut self, exit_message: &str) -> (stopped: Vec<RunningCommand>)
        ensures
            stopped.deep_view() == old(self)@.running_commands,
            final(self)@ == old(self)@.finish_run(exit_message@),
    {
        let stopped = self.abort_running_commands();
        self.phase = Phase::Terminated;
        self.emit(Output::RawMode(false));
        self.emit(Output::MouseCapture(false));
        self.emit(Output::CursorVisible(true));
        if exit_message.unicode_len() > 0 {
            self.emit(Output::Line(exit_message.to_owned()));
        }
        self.emit(Output::Flush);
        assert(self@.outbox =~= old(self)@.finish_run(exit_message@).outbox);
        stopped
    }
}

/// What comes out at once for a command that runs in the background.
fn started_notice(name: &str) -> (notice: LogRecord)
    ensures
        notice@ == crate::model::started_notice(name@),
{
    let mut text = String::new();
    text.append("Async command '");
    text.append(name);
    text.append("' started in the background");
    LogRecord::new(LogLevel::Info, text.as_str(), Some("CommandStatus"))
}

/// What comes out for a line whose command nobody knows.
fn not_found_notice(command: &str) -> (notice: LogRecord)
    ensures
        notice@ == crate::model::not_found_notice(command@),
{
    let mut text = String::new();
    text.append("Command not found or registered: '");
    text.append(command);
    text.append("'");
    LogRecord::new(LogLevel::Warn, text.as_str(), Some("CommandStatus"))
}

/// Executes a command by looking it up in the registered commands.
///
/// The console runs no handler: it says what is due for the line. A handler
/// that runs in place is taken out of the registry and handed to the caller,
/// who binds the name to it again when it has run. Of a handler that runs in
/// the background the caller gets a copy.
pub fn execute_command<S, A: Clone, U, V>(app: &mut TerminalApp<S, A, U, V>, command: &str) -> (due:
    Dispatch<S, A>)
    ensures
        final(app)@ == old(app)@.dispatch(command@).0,
        due@.copies(old(app)@.dispatch(command@).1),
{
    let mut words = split_whitespace(command);
    if words.len() == 0 {
        return Dispatch::Nothing;
    }
    let ghost all = words.deep_view();
    let name = words.remove(0);
    assert(words.deep_view() =~= all.skip(1));
    let sync: Option<bool> = match app.commands.get(name.as_str()) {
        Some(handler) => Some(handler.as_sync()),
        None => None,
    };
    match sync {
        Some(true) => {
            match app.commands.remove(name.as_str()) {
                Some(CommandHandlerType::PubSync(handler)) => Dispatch::RunSync {
                    name,
                    handler,
                    args: words,
                },
                _ => vstd::pervasive::unreached(),
            }
        },
        Some(false) => {
            let handler = match app.commands.get(name.as_str()) {
                Some(CommandHandlerType::PubAsync(handler)) => handler.clone(),
                _ => vstd::pervasive::unreached(),
            };
            Dispatch::SpawnAsync {
                command: command.to_owned(),
                handler,
                args: words,
                notice: started_notice(name.as_str()),
            }
        },
        None => {
            if app.async_unknown_command_handler.is_some() {
                Dispatch::AskAsyncUnknown { command: command.to_owned() }
            } else if app.unknown_command_handler.is_some() {
                Dispatch::AskUnknown { command: command.to_owned() }
            } else {
                Dispatch::NotFound { notice: not_found_notice(command) }
            }
        },
    }
}

impl<S, A: Clone, U, V> TerminalApp<S, A, U, V> {
    /// What the loop does after an event that submitted no line.
    fn verdict(&self) -> (outcome: Outcome<S, A>)
        ensures
            outcome@ == self@.verdict(),
    {
        if self.should_exit {
            Outcome::Quit
        } else {
            Outcome::Continue
        }
    }

    /// Handles the enter key press event, executing commands and managing input history
    ///
    /// A text that is not blank is submitted and echoed behind
    /// `input_prefix`, the submission is published, and the outcome says what
    /// is due for the line. A blank text only has the prompt line drawn
    /// anew.
    pub fn handle_enter_key(&mut self, input_prefix: &str) -> (outcome: Outcome<S, A>)
        ensures
            final(self)@ == old(self)@.enter(input_prefix@).0,
            outcome@.copies(old(self)@.enter(input_prefix@).1),
    {
        match self.editor.submit() {
            Some(line) => {
                let mut echo = String::new();
                echo.append(input_prefix);
                echo.append(line.as_str());
                self.emit(Output::ClearLine);
                self.emit(Output::Line(echo));
                self.emit(Output::Publish(EventDraft::UserConsoleInput { raw: line.clone() }));
                assert(self@.outbox =~= old(self)@.outbox + seq![
                    OutputView::ClearLine,
                    OutputView::Line(input_prefix@ + line@),
                    OutputView::Publish(
                        crate::events::EventDraftView::UserConsoleInput { raw: line@ },
                    ),
                ]);
                let due = execute_command(self, line.as_str());
                Outcome::Dispatch(due)
            },
            None => {
                self.clear_input_line();
                self.render_input_line();
                self.verdict()
            },
        }
    }

    /// Takes what came out of a submitted line: prints it line by line, each
    /// line without its leading white space, lets the editor start over and
    /// draws the prompt line anew. Tells whether the console is to end.
    pub fn complete_command(&mut self, output: &str) -> (exit: bool)
        ensures
            final(self)@ == old(self)@.complete(output@),
            exit == final(self)@.should_exit,
    {
        if output.unicode_len() > 0 {
            let rows = lines(output);
            let mut i: usize = 0;
            while i < rows.len()
                invariant
                    i <= rows.len(),
                    self@ == old(self)@.emit(
                        crate::model::output_lines(rows.deep_view().take(i as int)),
                    ),
                decreases rows.len() - i,
            {
                assert(rows.deep_view().take(i + 1).drop_last() =~= rows.deep_view().take(
                    i as int,
                ));
                let row = trim_start(rows[i].as_str());
                self.emit(Output::CarriageReturn);
                self.emit(Output::Line(row));
                assert(self@.outbox =~= old(self)@.outbox + crate::model::output_lines(
                    rows.deep_view().take(i + 1),
                ));
                i = i + 1;
            }
            assert(rows.deep_view().take(i as int) =~= rows.deep_view());
        } else {
            self.emit(Output::Line(String::new()));
        }
        self.editor.reset();
        self.render_input_line();
        self.should_exit
    }

    /// A key that went down, at the reading `now` of the console's clock.
    fn handle_key(&mut self, key: KeyEvent, now: u64) -> (outcome: Outcome<S, A>)
        ensures
            final(self)@ == old(self)@.key(key, now).0,
            outcome@.copies(old(self)@.key(key, now).1),
    {
        if key.chord('d') {
            return if self.handle_ctrl_d() {
                Outcome::Quit
            } else {
                Outcome::Continue
            };
        }
        if key.chord('c') {
            let (quit, notice) = self.handle_ctrl_c_at(now);
            self.print_record(notice);
            return if quit {
                Outcome::Quit
            } else {
                Outcome::Continue
            };
        }
        match key.code {
            KeyCode::Up => {
                self.editor.history_up();
                self.render_input_line();
                Outcome::Continue
            },
            KeyCode::Down => {
                self.editor.history_down();
                self.render_input_line();
                Outcome::Continue
            },
            KeyCode::Left => {
                if self.editor.move_left() {
                    self.render_input_line();
                }
                Outcome::Continue
            },
            KeyCode::Right => {
                if self.editor.move_right() {
                    self.render_input_line();
                }
                Outcome::Continue
            },
            KeyCode::Enter => self.handle_enter_key("> "),
            KeyCode::Char(c) => {
                self.editor.insert(c);
                self.render_input_line();
                Outcome::Continue
            },
            KeyCode::Backspace => {
                if self.editor.backspace() {
                    self.render_input_line();
                }
                Outcome::Continue
            },
            KeyCode::Other => Outcome::Continue,
        }
    }

    /// Processes a single terminal event, at the reading `now` of the
    /// console's clock, and returns what came of it.
    ///
    /// Only keys count. A key that goes up is passed over, and so is the
    /// exact repeat of the key event that the console acted on last, unless
    /// that is Control+C or Control+D.
    pub fn process_event_at(&mut self, event: Event, now: u64) -> (outcome: Outcome<S, A>)
        ensures
            final(self)@ == old(self)@.event(event, now).0,
            outcome@.copies(old(self)@.event(event, now).1),
    {
        let key = match event {
            Event::Key(key) => key,
            Event::Other => {
                return Outcome::Continue;
            },
        };
        if key.kind == KeyEventKind::Release {
            return Outcome::Continue;
        }
        let exit_chord = key.chord('c') || key.chord('d');
        match self.last_key_event {
            Some(last) => {
                if last.same_as(&key) && !exit_chord {
                    return Outcome::Continue;
                }
            },
            None => {},
        }
        self.last_key_event = Some(key);
        self.handle_key(key, now)
    }

    /// Processes a single terminal event and returns what came of it.
    pub fn process_event(&mut self, event: Event) -> (outcome: Outcome<S, A>)
        ensures
            exists|now: u64|
                final(self)@ == old(self)@.event(event, now).0 && outcome@.copies(
                    old(self)@.event(event, now).1,
                ),
    {
        let now = self.uptime_millis();
        self.process_event_at(event, now)
    }

    /// Takes what the terminal had when it was polled, at the reading `now`
    /// of the console's clock. A terminal that cannot be read ends the loop.
    pub fn process_poll_at(&mut self, polled: Polled, now: u64) -> (outcome: Outcome<S, A>)
        ensures
            final(self)@ == old(self)@.poll(polled, now).0,
            outcome@.copies(old(self)@.poll(polled, now).1),
    {
        match polled {
            Polled::Quiet => Outcome::Continue,
            Polled::Event(event) => self.process_event_at(event, now),
            Polled::Failed => Outcome::Quit,
        }
    }

    /// Takes what the terminal had when it was polled.
    pub fn process_poll(&mut self, polled: Polled) -> (outcome: Outcome<S, A>)
        ensures
            exists|now: u64|
                final(self)@ == old(self)@.poll(polled, now).0 && outcome@.copies(
                    old(self)@.poll(polled, now).1,
                ),
    {
        let now = self.uptime_millis();
        self.process_poll_at(polled, now)
    }
}

} // verus!
