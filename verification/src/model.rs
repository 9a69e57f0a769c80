//! The console as a mathematical value, and what each operation does to it.
//!
//! [`ConsoleView`] is the view of the console. Its functions are the
//! console's rules: what a keystroke, a submitted line, an action from the
//! action bus or a finished command changes, and what it puts in the queue of
//! outputs. The console that runs is proved to follow them.
use crate::command::{
    unfinished, CommandHandlerType, CommandResultView, DispatchView, RunningCommandView,
};
use crate::editor::EditorView;
use crate::events::EventDraftView;
use crate::keys::{Event, KeyCode, KeyEvent, KeyEventKind, Polled};
use crate::logger::{LogLevel, LogRecordView};
use crate::output::OutputView;
use crate::text::{lines_of, trim_start_of, words_of};
use vstd::prelude::*;

verus! {

/// Two presses of Control+C on an empty line end the console if less than
/// this many milliseconds lie between them.
pub const EXIT_WINDOW_MILLIS: u64 = 5000;

/// The loop waits this many milliseconds for an event of the terminal
/// before it goes on with its next turn.
pub const POLL_WAIT_MILLIS: u64 = 50;

/// The phases of a console's life.
#[derive(Debug, PartialEq, Eq, Copy, Clone, Structural)]
pub enum Phase {
    /// Made, and not started yet.
    Initializing,
    /// The terminal is set up and the loop runs.
    Running,
    /// The loop has ended and the terminal is not restored yet.
    ShuttingDown,
    /// The terminal is restored.
    Terminated,
}

/// The view of an action.
pub enum AppActionView<S> {
    RegisterCommand(Seq<char>, S),
    Info(Seq<char>),
    Debug(Seq<char>),
    Warn(Seq<char>),
    Error(Seq<char>),
    Critical(Seq<char>),
}

/// The view of what came of an event.
pub enum OutcomeView<S, A> {
    /// The loop goes on.
    Continue,
    /// The loop ends.
    Quit,
    /// A line was submitted, and this is due for it.
    Dispatch(DispatchView<S, A>),
}

/// The console as a mathematical value.
pub struct ConsoleView<S, A, U, V> {
    /// The line editor.
    pub editor: EditorView,
    /// The reading of the console's clock, in milliseconds, at the last
    /// Control+C that was taken down.
    pub last_ctrl_c: Option<u64>,
    /// Whether the console is to end after the current turn of the loop.
    pub should_exit: bool,
    /// The registry: which handler each command name is bound to.
    pub commands: Map<Seq<char>, CommandHandlerType<S, A>>,
    /// The hook for unknown commands that runs in place.
    pub unknown_command_handler: Option<U>,
    /// The hook for unknown commands that runs in the background.
    pub async_unknown_command_handler: Option<V>,
    /// The commands that run in the background, oldest first.
    pub running_commands: Seq<RunningCommandView>,
    /// The key event that the console acted on last.
    pub last_key_event: Option<KeyEvent>,
    /// Whether a log message is also published as an event.
    pub dispatch_event: bool,
    /// The phase of the console's life.
    pub phase: Phase,
    /// What is waiting for the driver, oldest first.
    pub outbox: Seq<OutputView>,
}

/// The record of a message that the console's own logging methods print.
pub open spec fn stream_record(level: LogLevel, message: Seq<char>) -> LogRecordView {
    LogRecordView { level, text: message, module_name: Some("Stream"@) }
}

/// What Control+C says when it drops the text.
pub open spec fn input_cleared_notice() -> LogRecordView {
    LogRecordView {
        level: LogLevel::Info,
        text: "Input cleared. Press Ctrl+C again to exit."@,
        module_name: Some("Daemon Console"@),
    }
}

/// What Control+C says when it ends the console.
pub open spec fn goodbye_notice() -> LogRecordView {
    LogRecordView {
        level: LogLevel::Warn,
        text: "Exiting application. Goodbye!"@,
        module_name: Some("Daemon Console"@),
    }
}

/// What Control+C says on an empty line when it does not end the console.
pub open spec fn press_again_notice() -> LogRecordView {
    LogRecordView {
        level: LogLevel::Info,
        text: "Press Ctrl+C again to exit."@,
        module_name: Some("Daemon Console"@),
    }
}

/// What comes out at once for a command that runs in the background.
pub open spec fn started_notice(name: Seq<char>) -> LogRecordView {
    LogRecordView {
        level: LogLevel::Info,
        text: "Async command '"@ + name + "' started in the background"@,
        module_name: Some("CommandStatus"@),
    }
}

/// What comes out for a line whose command nobody knows.
pub open spec fn not_found_notice(command: Seq<char>) -> LogRecordView {
    LogRecordView {
        level: LogLevel::Warn,
        text: "Command not found or registered: '"@ + command + "'"@,
        module_name: Some("CommandStatus"@),
    }
}

/// The outputs that print the lines of a command's output: for each line,
/// the cursor goes to the start, and the line is written without its
/// leading white space.
pub open spec fn output_lines(lines: Seq<Seq<char>>) -> Seq<OutputView>
    decreases lines.len(),
{
    if lines.len() == 0 {
        Seq::empty()
    } else {
        output_lines(lines.drop_last()) + seq![
            OutputView::CarriageReturn,
            OutputView::Line(trim_start_of(lines.last())),
        ]
    }
}

/// The milliseconds from the reading `last` to the reading `now`; none if
/// `now` is the earlier one.
pub open spec fn millis_between(last: u64, now: u64) -> int {
    if now >= last {
        now - last
    } else {
        0
    }
}

impl<S, A, U, V> ConsoleView<S, A, U, V> {
    /// The console as it is made.
    pub open spec fn fresh() -> Self {
        ConsoleView {
            editor: EditorView::fresh(),
            last_ctrl_c: None,
            should_exit: false,
            commands: Map::empty(),
            unknown_command_handler: None,
            async_unknown_command_handler: None,
            running_commands: Seq::empty(),
            last_key_event: None,
            dispatch_event: true,
            phase: Phase::Initializing,
            outbox: Seq::empty(),
        }
    }

    /// `outputs` join the queue.
    pub open spec fn emit(self, outputs: Seq<OutputView>) -> Self {
        ConsoleView { outbox: self.outbox + outputs, ..self }
    }

    /// The queue is handed to the driver.
    pub open spec fn drained(self) -> Self {
        ConsoleView { outbox: Seq::empty(), ..self }
    }

    /// The editor becomes `editor`.
    pub open spec fn edit(self, editor: EditorView) -> Self {
        ConsoleView { editor, ..self }
    }

    /// The prompt line is drawn anew.
    pub open spec fn render_input_line(self) -> Self {
        self.emit(seq![OutputView::Prompt(self.editor.frame())])
    }

    /// The prompt line is erased.
    pub open spec fn clear_input_line(self) -> Self {
        self.emit(seq![OutputView::ClearLine])
    }

    /// `line` is printed above the prompt line.
    pub open spec fn print_log_entry(self, line: Seq<char>) -> Self {
        self.emit(
            seq![
                OutputView::ClearLine,
                OutputView::Line(line),
                OutputView::Flush,
                OutputView::Prompt(self.editor.frame()),
            ],
        )
    }

    /// `record` is laid out and printed above the prompt line.
    pub open spec fn print_record(self, record: LogRecordView) -> Self {
        self.emit(
            seq![
                OutputView::ClearLine,
                OutputView::Log(record),
                OutputView::Flush,
                OutputView::Prompt(self.editor.frame()),
            ],
        )
    }

    /// A message is logged: it is printed and, where log messages are
    /// published, published.
    pub open spec fn log(self, level: LogLevel, message: Seq<char>) -> Self {
        let record = stream_record(level, message);
        let printed = self.print_record(record);
        if self.dispatch_event {
            printed.emit(seq![OutputView::Publish(EventDraftView::TerminalLog(record))])
        } else {
            printed
        }
    }

    /// A message that came over the action bus is logged: it is printed and
    /// not published.
    pub open spec fn log_action(self, level: LogLevel, message: Seq<char>) -> Self {
        self.print_record(stream_record(level, message))
    }

    /// `name` is bound to a handler that runs in place.
    pub open spec fn register_command(self, name: Seq<char>, handler: S) -> Self {
        ConsoleView {
            commands: self.commands.insert(name, CommandHandlerType::PubSync(handler)),
            ..self
        }
    }

    /// `name` is bound to a handler that runs in the background.
    pub open spec fn register_async_command(self, name: Seq<char>, handler: A) -> Self {
        ConsoleView {
            commands: self.commands.insert(name, CommandHandlerType::PubAsync(handler)),
            ..self
        }
    }

    /// Both hooks for unknown commands are taken away.
    pub open spec fn clear_unknown_command_handler(self) -> Self {
        ConsoleView {
            unknown_command_handler: None,
            async_unknown_command_handler: None,
            ..self
        }
    }

    /// An action from the action bus is carried out.
    pub open spec fn apply(self, action: AppActionView<S>) -> Self {
        match action {
            AppActionView::RegisterCommand(name, handler) => self.register_command(name, handler),
            AppActionView::Info(message) => self.log_action(LogLevel::Info, message),
            AppActionView::Debug(message) => self.log_action(LogLevel::Debug, message),
            AppActionView::Warn(message) => self.log_action(LogLevel::Warn, message),
            AppActionView::Error(message) => self.log_action(LogLevel::Error, message),
            AppActionView::Critical(message) => self.log_action(LogLevel::Critical, message),
        }
    }

    /// Actions are carried out in the order in which they came.
    pub open spec fn apply_all(self, actions: Seq<AppActionView<S>>) -> Self
        decreases actions.len(),
    {
        if actions.len() == 0 {
            self
        } else {
            self.apply_all(actions.drop_last()).apply(actions.last())
        }
    }

    /// The commands in the background whose flag in `finished` is set are
    /// forgotten.
    pub open spec fn reap(self, finished: Seq<bool>) -> Self {
        ConsoleView { running_commands: unfinished(self.running_commands, finished), ..self }
    }

    /// Whether `next` is this console after it has forgotten some of its
    /// commands in the background.
    pub open spec fn reaps_to(self, next: Self) -> bool {
        exists|finished: Seq<bool>|
            finished.len() == self.running_commands.len() && next == #[trigger] self.reap(
                finished,
            )
    }

    /// A command in the background is taken down.
    pub open spec fn track(self, running: RunningCommandView) -> Self {
        ConsoleView { running_commands: self.running_commands.push(running), ..self }
    }

    /// The lines `lines` are printed above the prompt line, each without its
    /// leading white space.
    pub open spec fn print_lines(self, lines: Seq<Seq<char>>) -> Self
        decreases lines.len(),
    {
        if lines.len() == 0 {
            self
        } else {
            self.print_lines(lines.drop_last()).print_log_entry(trim_start_of(lines.last()))
        }
    }

    /// What a command in the background handed back is printed.
    pub open spec fn command_result(self, result: CommandResultView) -> Self {
        self.print_lines(lines_of(result.output))
    }

    /// Control+C at the reading `now` of the console's clock: the console
    /// after it, whether the console is to end, and what to tell the user.
    ///
    /// With a text on the line, the text is dropped. On an empty line the
    /// console ends if the last Control+C taken down is less than
    /// [`EXIT_WINDOW_MILLIS`] old. In every other case the Control+C is
    /// taken down.
    pub open spec fn ctrl_c(self, now: u64) -> (Self, bool, LogRecordView) {
        if self.editor.input.len() > 0 {
            (
                ConsoleView {
                    editor: self.editor.clear(),
                    last_ctrl_c: Some(now),
                    ..self
                },
                false,
                input_cleared_notice(),
            )
        } else if self.last_ctrl_c is Some && millis_between(self.last_ctrl_c->0, now)
            < EXIT_WINDOW_MILLIS {
            (self, true, goodbye_notice())
        } else {
            (ConsoleView { last_ctrl_c: Some(now), ..self }, false, press_again_notice())
        }
    }

    /// What is due for the line `command`, and the console after the
    /// decision.
    ///
    /// The first word of the line names the command and the other words are
    /// its arguments. A handler that runs in place leaves the registry until
    /// it is handed back. A handler that runs in the background stays. With
    /// no handler of that name, the hook that runs in the background comes
    /// before the one that runs in place, and that one before the console's
    /// own answer.
    pub open spec fn dispatch(self, command: Seq<char>) -> (Self, DispatchView<S, A>) {
        let words = words_of(command);
        if words.len() == 0 {
            (self, DispatchView::Nothing)
        } else if self.commands.contains_key(words[0]) {
            match self.commands[words[0]] {
                CommandHandlerType::PubSync(handler) => (
                    ConsoleView { commands: self.commands.remove(words[0]), ..self },
                    DispatchView::RunSync { name: words[0], handler, args: words.skip(1) },
                ),
                CommandHandlerType::PubAsync(handler) => (
                    self,
                    DispatchView::SpawnAsync {
                        command,
                        handler,
                        args: words.skip(1),
                        notice: started_notice(words[0]),
                    },
                ),
            }
        } else if self.async_unknown_command_handler is Some {
            (self, DispatchView::AskAsyncUnknown { command })
        } else if self.unknown_command_handler is Some {
            (self, DispatchView::AskUnknown { command })
        } else {
            (self, DispatchView::NotFound { notice: not_found_notice(command) })
        }
    }

    /// What the loop does after an event that submitted no line.
    pub open spec fn verdict(self) -> OutcomeView<S, A> {
        if self.should_exit {
            OutcomeView::Quit
        } else {
            OutcomeView::Continue
        }
    }

    /// Enter, with `prefix` as the prompt to echo.
    ///
    /// A text that is not blank is submitted and echoed, the submission is
    /// published, and the line is dispatched. A blank text only has the
    /// prompt line drawn anew.
    pub open spec fn enter(self, prefix: Seq<char>) -> (Self, OutcomeView<S, A>) {
        match self.editor.submitted() {
            Some(line) => {
                let echoed = self.edit(self.editor.submit()).emit(
                    seq![
                        OutputView::ClearLine,
                        OutputView::Line(prefix + line),
                        OutputView::Publish(EventDraftView::UserConsoleInput { raw: line }),
                    ],
                );
                let (next, due) = echoed.dispatch(line);
                (next, OutcomeView::Dispatch(due))
            },
            None => {
                let drawn = self.clear_input_line().render_input_line();
                (drawn, drawn.verdict())
            },
        }
    }

    /// The text `output` came out of a submitted line: it is printed line by
    /// line, the editor starts over, and the prompt line is drawn anew.
    pub open spec fn complete(self, output: Seq<char>) -> Self {
        let printed = if output.len() > 0 {
            self.emit(output_lines(lines_of(output)))
        } else {
            self.emit(seq![OutputView::Line(Seq::empty())])
        };
        printed.edit(printed.editor.reset()).render_input_line()
    }

    /// A key that went down, at the reading `now` of the console's clock.
    pub open spec fn key(self, key: KeyEvent, now: u64) -> (Self, OutcomeView<S, A>) {
        if key.is_chord('d') {
            (self, OutcomeView::Quit)
        } else if key.is_chord('c') {
            let (next, quit, notice) = self.ctrl_c(now);
            (
                next.print_record(notice),
                if quit {
                    OutcomeView::Quit
                } else {
                    OutcomeView::Continue
                },
            )
        } else {
            match key.code {
                KeyCode::Up => (
                    self.edit(self.editor.history_up()).render_input_line(),
                    OutcomeView::Continue,
                ),
                KeyCode::Down => (
                    self.edit(self.editor.history_down()).render_input_line(),
                    OutcomeView::Continue,
                ),
                KeyCode::Left => (
                    if self.editor.cursor > 0 {
                        self.edit(self.editor.left()).render_input_line()
                    } else {
                        self
                    },
                    OutcomeView::Continue,
                ),
                KeyCode::Right => (
                    if self.editor.cursor < self.editor.input.len() {
                        self.edit(self.editor.right()).render_input_line()
                    } else {
                        self
                    },
                    OutcomeView::Continue,
                ),
                KeyCode::Enter => self.enter("> "@),
                KeyCode::Char(c) => (
                    self.edit(self.editor.insert(c)).render_input_line(),
                    OutcomeView::Continue,
                ),
                KeyCode::Backspace => (
                    if self.editor.cursor > 0 {
                        self.edit(self.editor.backspace()).render_input_line()
                    } else {
                        self
                    },
                    OutcomeView::Continue,
                ),
                KeyCode::Other => (self, OutcomeView::Continue),
            }
        }
    }

    /// Whether the console passes over `key`: a key that goes up, or the
    /// exact repeat (the same key, modifiers and kind) of the key event that
    /// the console acted on last, unless that is an exit chord. A terminal
    /// that reports a key twice thus has it taken once, while Control+C and
    /// Control+D count every time.
    pub open spec fn ignores(self, key: KeyEvent) -> bool {
        ||| key.kind == KeyEventKind::Release
        ||| (self.last_key_event == Some(key) && !key.is_exit_chord())
    }

    /// An event of the terminal, at the reading `now` of the console's
    /// clock. Only keys count. A key that is not passed over is remembered
    /// and acted on; a key that is passed over leaves the console as it is,
    /// its memory of the last key included.
    pub open spec fn event(self, event: Event, now: u64) -> (Self, OutcomeView<S, A>) {
        match event {
            Event::Other => (self, OutcomeView::Continue),
            Event::Key(key) => if self.ignores(key) {
                (self, OutcomeView::Continue)
            } else {
                ConsoleView { last_key_event: Some(key), ..self }.key(key, now)
            },
        }
    }

    /// What the terminal had when it was polled, at the reading `now` of the
    /// console's clock. A terminal that cannot be read ends the loop.
    pub open spec fn poll(self, polled: Polled, now: u64) -> (Self, OutcomeView<S, A>) {
        match polled {
            Polled::Quiet => (self, OutcomeView::Continue),
            Polled::Event(event) => self.event(event, now),
            Polled::Failed => (self, OutcomeView::Quit),
        }
    }

    /// The start of a turn of the loop: the actions that came in are carried
    /// out in their order, the finished commands are forgotten, and at most
    /// one result of a command in the background is printed.
    pub open spec fn begin_tick(
        self,
        actions: Seq<AppActionView<S>>,
        finished: Seq<bool>,
        result: Option<CommandResultView>,
    ) -> Self {
        let reaped = self.apply_all(actions).reap(finished);
        match result {
            Some(r) => reaped.command_result(r),
            None => reaped,
        }
    }

    /// Whether `next` is this console after the start of a turn of the loop
    /// in which some of its commands in the background had finished.
    pub open spec fn begins_tick(
        self,
        actions: Seq<AppActionView<S>>,
        result: Option<CommandResultView>,
        next: Self,
    ) -> bool {
        exists|finished: Seq<bool>|
            finished.len() == self.running_commands.len() && next == #[trigger] self.begin_tick(
                actions,
                finished,
                result,
            )
    }

    /// Whether the loop ends after a turn in which `quit` says whether the
    /// event asked for the end.
    pub open spec fn ends(self, quit: bool) -> bool {
        quit || self.should_exit
    }

    /// The end of a turn of the loop.
    pub open spec fn end_tick(self, quit: bool) -> Self {
        if self.ends(quit) {
            ConsoleView { phase: Phase::ShuttingDown, ..self }
        } else {
            self
        }
    }

    /// The terminal is set up, and `startup_message` is written if it is not
    /// empty.
    pub open spec fn init_terminal(self, startup_message: Seq<char>) -> Self {
        let set_up = ConsoleView { phase: Phase::Running, ..self }.emit(
            seq![
                OutputView::RawMode(true),
                OutputView::MouseCapture(true),
                OutputView::CursorVisible(false),
                OutputView::Flush,
            ],
        );
        if startup_message.len() > 0 {
            set_up.emit(seq![OutputView::Line(startup_message), OutputView::Flush])
        } else {
            set_up
        }
    }

    /// The terminal leaves raw mode, and `exit_message` is written.
    pub open spec fn shutdown_terminal(self, exit_message: Seq<char>) -> Self {
        ConsoleView { phase: Phase::Terminated, ..self }.emit(
            seq![OutputView::RawMode(false), OutputView::Line(exit_message), OutputView::Flush],
        )
    }

    /// The loop starts: the terminal is set up, and `startup_message` is
    /// printed above the prompt line if it is not empty.
    pub open spec fn start_run(self, startup_message: Seq<char>) -> Self {
        let set_up = ConsoleView { phase: Phase::Running, ..self }.emit(
            seq![
                OutputView::RawMode(true),
                OutputView::MouseCapture(true),
                OutputView::CursorVisible(false),
            ],
        );
        if startup_message.len() > 0 {
            set_up.print_log_entry(startup_message)
        } else {
            set_up
        }
    }

    /// The loop has ended: every command in the background has been asked to
    /// stop and none is kept track of any more, the terminal is restored,
    /// and `exit_message` is written if it is not empty.
    pub open spec fn finish_run(self, exit_message: Seq<char>) -> Self {
        let restored = ConsoleView {
            phase: Phase::Terminated,
            running_commands: Seq::empty(),
            ..self
        }.emit(
            seq![
                OutputView::RawMode(false),
                OutputView::MouseCapture(false),
                OutputView::CursorVisible(true),
            ],
        );
        if exit_message.len() > 0 {
            restored.emit(seq![OutputView::Line(exit_message), OutputView::Flush])
        } else {
            restored.emit(seq![OutputView::Flush])
        }
    }
}

impl<S, A: Clone> OutcomeView<S, A> {
    /// Whether `self` is `model` with, for a command that runs in the
    /// background, a copy of the model's handler in the handler's place.
    pub open spec fn copies(self, model: OutcomeView<S, A>) -> bool {
        match model {
            OutcomeView::Dispatch(due) => self matches OutcomeView::Dispatch(d) && d.copies(due),
            _ => self == model,
        }
    }
}

} // verus!
