//! What holds of every console, proved from the model.
use crate::command::{CommandHandlerType, DispatchView};
use crate::context::log_request;
use crate::editor::EditorView;
use crate::keys::{Event, KeyCode, KeyEvent, KeyEventKind};
use crate::logger::LogLevel;
use crate::model::{
    goodbye_notice, millis_between, press_again_notice, AppActionView, ConsoleView, OutcomeView,
    EXIT_WINDOW_MILLIS,
};
use crate::output::OutputView;
use crate::text::{is_blank, words_of};
use crate::width::{text_columns, PROMPT_COLUMNS};
use vstd::prelude::*;

verus! {

/// Drawing the prompt line changes nothing but the queue of outputs, so
/// drawing it twice in a row draws the same frame twice. The frame is the
/// prompt and the text, and its cursor column is the width of the prompt plus
/// the display widths of the characters before the cursor, in the sixteen
/// bits of a terminal column. Nothing else of the console goes into it.
pub proof fn lemma_render_twice_draws_same_frame<S, A, U, V>(console: ConsoleView<S, A, U, V>)
    requires
        console.editor.wf(),
    ensures
        ({
            let frame = console.editor.frame();
            let once = console.render_input_line();
            let twice = once.render_input_line();
            &&& once.drained() == console.drained()
            &&& twice.outbox == console.outbox + seq![
                OutputView::Prompt(frame),
                OutputView::Prompt(frame),
            ]
            &&& frame.line == "> "@ + console.editor.input
            &&& frame.cursor_column as int == (PROMPT_COLUMNS + text_columns(
                console.editor.input.take(console.editor.cursor as int),
            )) % 0x1_0000
        }),
{
    let frame = console.editor.frame();
    let once = console.render_input_line();
    let twice = once.render_input_line();
    assert(twice.outbox =~= console.outbox + seq![
        OutputView::Prompt(frame),
        OutputView::Prompt(frame),
    ]);
}

/// Two editors with the same text and the same cursor are drawn alike,
/// whatever their histories are.
pub proof fn lemma_frame_depends_on_text_and_cursor(a: EditorView, b: EditorView)
    requires
        a.input == b.input,
        a.cursor == b.cursor,
    ensures
        a.frame() == b.frame(),
{
}

/// The editor after the lines `lines` have been submitted one after the
/// other, each typed into an empty text.
pub open spec fn after_submitting(editor: EditorView, lines: Seq<Seq<char>>) -> EditorView
    decreases lines.len(),
{
    if lines.len() == 0 {
        editor
    } else {
        let before = after_submitting(editor, lines.drop_last());
        (EditorView { input: lines.last(), cursor: lines.last().len(), ..before }).submit()
    }
}

/// The editor after `count` steps towards older lines of the history.
pub open spec fn after_ups(editor: EditorView, count: nat) -> EditorView
    decreases count,
{
    if count == 0 {
        editor
    } else {
        after_ups(editor, (count - 1) as nat).history_up()
    }
}

/// Submitting lines that are not blank appends them to the history in their
/// order and leaves an empty text and no place held in the history.
pub proof fn lemma_submissions_join_history(editor: EditorView, lines: Seq<Seq<char>>)
    requires
        editor.wf(),
        forall|i: int| 0 <= i < lines.len() ==> !is_blank(#[trigger] lines[i]),
    ensures
        after_submitting(editor, lines).wf(),
        after_submitting(editor, lines).history == editor.history + lines,
        lines.len() > 0 ==> after_submitting(editor, lines) == (EditorView {
            input: Seq::empty(),
            cursor: 0,
            history: editor.history + lines,
            browsing: None,
        }),
    decreases lines.len(),
{
    if lines.len() == 0 {
        assert(editor.history + lines =~= editor.history);
    } else {
        lemma_submissions_join_history(editor, lines.drop_last());
        assert(!is_blank(lines[lines.len() - 1]));
        assert((editor.history + lines.drop_last()).push(lines.last()) =~= editor.history + lines);
        let after = after_submitting(editor, lines);
        assert forall|i: int| 0 <= i < after.history.len() implies !is_blank(
            #[trigger] after.history[i],
        ) by {
            if i < editor.history.len() {
                assert(after.history[i] == editor.history[i]);
            } else {
                assert(after.history[i] == lines[i - editor.history.len()]);
            }
        }
    }
}

/// From an editor that holds no place in its history, `count` steps towards
/// older lines show the line that stands `count` places from the history's
/// end; the oldest line if the history is shorter than that.
pub proof fn lemma_ups_walk_back(editor: EditorView, count: nat)
    requires
        editor.wf(),
        editor.browsing is None,
        editor.history.len() > 0,
        count > 0,
    ensures
        ({
            let n = editor.history.len();
            let at = if count <= n {
                (n - count) as nat
            } else {
                0
            };
            after_ups(editor, count) == editor.show(at)
        }),
    decreases count,
{
    if count > 1 {
        lemma_ups_walk_back(editor, (count - 1) as nat);
    } else {
        assert(after_ups(editor, 0) == editor);
    }
}

/// The history round trip. After the lines `lines`, none of them blank, have
/// been submitted to a fresh editor, as many steps towards older lines as
/// there are lines show the first of them, and one step towards newer lines
/// then shows the second.
pub proof fn lemma_history_round_trip(lines: Seq<Seq<char>>)
    requires
        lines.len() >= 2,
        forall|i: int| 0 <= i < lines.len() ==> !is_blank(#[trigger] lines[i]),
    ensures
        ({
            let submitted = after_submitting(EditorView::fresh(), lines);
            let oldest = after_ups(submitted, lines.len());
            &&& oldest.input == lines[0]
            &&& oldest.cursor == lines[0].len()
            &&& oldest.history_down().input == lines[1]
            &&& oldest.history_down().cursor == lines[1].len()
        }),
{
    let fresh = EditorView::fresh();
    lemma_submissions_join_history(fresh, lines);
    assert(fresh.history + lines =~= lines);
    let submitted = after_submitting(fresh, lines);
    lemma_ups_walk_back(submitted, lines.len());
}

/// Enter on a text that is empty or all white space is no submission: the
/// editor stays as it is, the history gets no line, the registry is not
/// touched, nothing is published and no command is due. The prompt line is
/// erased and drawn anew, and that is all.
pub proof fn lemma_blank_enter_changes_nothing<S, A, U, V>(
    console: ConsoleView<S, A, U, V>,
    prefix: Seq<char>,
)
    requires
        is_blank(console.editor.input),
    ensures
        ({
            let (next, outcome) = console.enter(prefix);
            &&& next.drained() == console.drained()
            &&& next.outbox == console.outbox + seq![
                OutputView::ClearLine,
                OutputView::Prompt(console.editor.frame()),
            ]
            &&& !(outcome is Dispatch)
            &&& console.editor.submit() == console.editor
        }),
{
    let (next, outcome) = console.enter(prefix);
    assert(next.outbox =~= console.outbox + seq![
        OutputView::ClearLine,
        OutputView::Prompt(console.editor.frame()),
    ]);
}

/// While a handler that runs in place is handed out, its name is not bound:
/// a second line with the same command does not get the handler, and gets
/// no handler that runs in place at all. Binding the name to the handler
/// again brings the registry back to what it was.
pub proof fn lemma_sync_handler_is_handed_out_once<S, A, U, V>(
    console: ConsoleView<S, A, U, V>,
    command: Seq<char>,
    again: Seq<char>,
)
    requires
        console.dispatch(command).1 is RunSync,
        words_of(again).len() > 0,
        words_of(again)[0] == words_of(command)[0],
    ensures
        ({
            let (during, due) = console.dispatch(command);
            let name = words_of(command)[0];
            &&& due matches DispatchView::RunSync { name: n, handler, args }
            &&& n == name
            &&& console.commands[name] == CommandHandlerType::<S, A>::PubSync(handler)
            &&& args == words_of(command).skip(1)
            &&& !during.commands.contains_key(name)
            &&& !(during.dispatch(again).1 is RunSync)
            &&& !(during.dispatch(again).1 is SpawnAsync)
            &&& during.dispatch(again).0 == during
            &&& during.register_command(name, handler) == console
        }),
{
    let (during, due) = console.dispatch(command);
    let name = words_of(command)[0];
    if let DispatchView::RunSync { handler, .. } = due {
        assert(during.commands.insert(name, CommandHandlerType::<S, A>::PubSync(handler))
            =~= console.commands);
    }
}

/// A name is bound to one handler at a time, and the last registration
/// wins: whatever the name was bound to before, a line that names it gets
/// the handler registered last.
pub proof fn lemma_last_registration_wins<S, A, U, V>(
    console: ConsoleView<S, A, U, V>,
    name: Seq<char>,
    earlier: CommandHandlerType<S, A>,
    handler: S,
    command: Seq<char>,
)
    requires
        words_of(command).len() > 0,
        words_of(command)[0] == name,
    ensures
        ({
            let before = ConsoleView {
                commands: console.commands.insert(name, earlier),
                ..console
            };
            let after = before.register_command(name, handler);
            &&& after.commands[name] == CommandHandlerType::<S, A>::PubSync(handler)
            &&& after.commands.dom() == before.commands.dom()
            &&& after.dispatch(command).1 == (DispatchView::<S, A>::RunSync {
                name,
                handler,
                args: words_of(command).skip(1),
            })
        }),
{
    let before = ConsoleView { commands: console.commands.insert(name, earlier), ..console };
    let after = before.register_command(name, handler);
    assert(after.commands.dom() =~= before.commands.dom());
}

/// A registration takes effect at once, also while another handler is
/// handed out: the next line that names the new command gets its handler,
/// and the handler that is out can still be handed back under its name.
pub proof fn lemma_registration_during_a_run<S, A, U, V>(
    console: ConsoleView<S, A, U, V>,
    running: Seq<char>,
    name: Seq<char>,
    handler: S,
    command: Seq<char>,
)
    requires
        console.dispatch(running).1 is RunSync,
        words_of(running)[0] != name,
        words_of(command).len() > 0,
        words_of(command)[0] == name,
    ensures
        ({
            let (during, due) = console.dispatch(running);
            let registered = during.register_command(name, handler);
            &&& registered.dispatch(command).1 == (DispatchView::<S, A>::RunSync {
                name,
                handler,
                args: words_of(command).skip(1),
            })
            &&& due matches DispatchView::RunSync { name: n, handler: h, args }
            &&& registered.register_command(n, h).commands == console.commands.insert(
                name,
                CommandHandlerType::<S, A>::PubSync(handler),
            )
        }),
{
    let (during, due) = console.dispatch(running);
    let registered = during.register_command(name, handler);
    if let DispatchView::RunSync { name: n, handler: h, .. } = due {
        assert(registered.register_command(n, h).commands =~= console.commands.insert(
            name,
            CommandHandlerType::<S, A>::PubSync(handler),
        ));
    }
}

/// Enter on a text that is not blank always has something due: the line
/// joins the history, and the outcome is a dispatch that is not empty.
pub proof fn lemma_submitted_line_is_dispatched<S, A, U, V>(
    console: ConsoleView<S, A, U, V>,
    prefix: Seq<char>,
)
    requires
        !is_blank(console.editor.input),
    ensures
        ({
            let (next, outcome) = console.enter(prefix);
            &&& outcome matches OutcomeView::Dispatch(due)
            &&& !(due is Nothing)
            &&& next.editor.history == console.editor.history.push(console.editor.input)
            &&& next.editor.input.len() == 0
            &&& next.editor.browsing is None
        }),
{
    crate::text::lemma_blank_has_no_words(console.editor.input);
}

/// A command that runs in the background leaves the console as it is, so
/// that the same line can be submitted again at once and is answered in the
/// same way.
pub proof fn lemma_async_command_stays_bound<S, A, U, V>(
    console: ConsoleView<S, A, U, V>,
    command: Seq<char>,
)
    requires
        console.dispatch(command).1 is SpawnAsync,
    ensures
        console.dispatch(command).0 == console,
        console.dispatch(command).0.dispatch(command) == console.dispatch(command),
{
}

/// Control+C on an empty line ends the console exactly if a Control+C has
/// been taken down less than the exit window ago. If it does not end the
/// console, it is taken down itself.
pub proof fn lemma_ctrl_c_on_empty_line<S, A, U, V>(console: ConsoleView<S, A, U, V>, now: u64)
    requires
        console.editor.input.len() == 0,
    ensures
        ({
            let (next, quit, notice) = console.ctrl_c(now);
            let recent = console.last_ctrl_c matches Some(last) && millis_between(last, now)
                < EXIT_WINDOW_MILLIS;
            &&& quit == recent
            &&& quit ==> next == console && notice == goodbye_notice()
            &&& !quit ==> next == (ConsoleView { last_ctrl_c: Some(now), ..console }) && notice
                == press_again_notice()
        }),
{
}

/// Control+C twice on an empty line. The first one ever does not end the
/// console and is taken down. One that follows within the exit window ends
/// it. One that follows later does not end it and is taken down in turn.
pub proof fn lemma_double_ctrl_c<S, A, U, V>(
    console: ConsoleView<S, A, U, V>,
    first: u64,
    second: u64,
)
    requires
        console.editor.input.len() == 0,
        console.last_ctrl_c is None,
    ensures
        ({
            let (one, quit_one, notice_one) = console.ctrl_c(first);
            let (two, quit_two, notice_two) = one.ctrl_c(second);
            &&& !quit_one
            &&& notice_one == press_again_notice()
            &&& one.last_ctrl_c == Some(first)
            &&& millis_between(first, second) < EXIT_WINDOW_MILLIS ==> quit_two && notice_two
                == goodbye_notice()
            &&& millis_between(first, second) >= EXIT_WINDOW_MILLIS ==> !quit_two && notice_two
                == press_again_notice() && two.last_ctrl_c == Some(second)
        }),
{
}

/// Control+C on a line with a text never ends the console: it drops the
/// text and is taken down.
pub proof fn lemma_ctrl_c_drops_text_first<S, A, U, V>(console: ConsoleView<S, A, U, V>, now: u64)
    requires
        console.editor.input.len() > 0,
    ensures
        ({
            let (next, quit, notice) = console.ctrl_c(now);
            &&& !quit
            &&& next.editor.input.len() == 0
            &&& next.editor.cursor == 0
            &&& next.last_ctrl_c == Some(now)
        }),
{
}

/// With no command of the line's name, the hook that runs in the background
/// is asked whenever it is set, whether or not the other hook is set too.
pub proof fn lemma_async_hook_comes_first<S, A, U, V>(
    console: ConsoleView<S, A, U, V>,
    command: Seq<char>,
)
    requires
        words_of(command).len() > 0,
        !console.commands.contains_key(words_of(command)[0]),
        console.async_unknown_command_handler is Some,
    ensures
        console.dispatch(command) == (console, DispatchView::<S, A>::AskAsyncUnknown { command }),
{
}

/// A log message that comes over the action bus is printed and not
/// published: the queue of outputs gets no publication, and whether log
/// messages are published stays as it was.
pub proof fn lemma_log_action_publishes_nothing<S, A, U, V>(
    console: ConsoleView<S, A, U, V>,
    level: LogLevel,
    message: Seq<char>,
)
    ensures
        ({
            let next = console.log_action(level, message);
            &&& next.drained() == console.drained()
            &&& next.outbox.len() == console.outbox.len() + 4
            &&& forall|i: int|
                console.outbox.len() <= i < next.outbox.len() ==> !(
                #[trigger] next.outbox[i]).is_publish()
            &&& forall|i: int| 0 <= i < console.outbox.len() ==> next.outbox[i] == console.outbox[i]
        }),
{
}

/// No action from the action bus publishes an event.
pub proof fn lemma_actions_publish_nothing<S, A, U, V>(
    console: ConsoleView<S, A, U, V>,
    action: AppActionView<S>,
)
    ensures
        ({
            let next = console.apply(action);
            &&& console.outbox.len() <= next.outbox.len()
            &&& forall|i: int|
                console.outbox.len() <= i < next.outbox.len() ==> !(
                #[trigger] next.outbox[i]).is_publish()
            &&& forall|i: int| 0 <= i < console.outbox.len() ==> next.outbox[i] == console.outbox[i]
            &&& next.dispatch_event == console.dispatch_event
        }),
{
    match action {
        AppActionView::RegisterCommand(..) => {},
        AppActionView::Info(message) => {
            lemma_log_action_publishes_nothing(console, LogLevel::Info, message);
        },
        AppActionView::Debug(message) => {
            lemma_log_action_publishes_nothing(console, LogLevel::Debug, message);
        },
        AppActionView::Warn(message) => {
            lemma_log_action_publishes_nothing(console, LogLevel::Warn, message);
        },
        AppActionView::Error(message) => {
            lemma_log_action_publishes_nothing(console, LogLevel::Error, message);
        },
        AppActionView::Critical(message) => {
            lemma_log_action_publishes_nothing(console, LogLevel::Critical, message);
        },
    }
}

/// What a command in the background asks its stand-in to log reaches the
/// console as an action that prints the message and publishes nothing.
pub proof fn lemma_context_log_is_printed_quietly<S, A, U, V>(
    console: ConsoleView<S, A, U, V>,
    level: LogLevel,
    message: Seq<char>,
)
    ensures
        console.apply(log_request::<S>(level, message)) == console.log_action(level, message),
{
}

/// The same message logged directly is published once, as long as log
/// messages are published.
pub proof fn lemma_direct_log_publishes_once<S, A, U, V>(
    console: ConsoleView<S, A, U, V>,
    level: LogLevel,
    message: Seq<char>,
)
    requires
        console.dispatch_event,
    ensures
        ({
            let next = console.log(level, message);
            &&& next.outbox.len() == console.outbox.len() + 5
            &&& next.outbox.last().is_publish()
            &&& forall|i: int|
                console.outbox.len() <= i < next.outbox.len() - 1 ==> !(
                #[trigger] next.outbox[i]).is_publish()
        }),
{
}

/// Actions leave the commands in the background as they are.
pub proof fn lemma_actions_keep_running<S, A, U, V>(
    console: ConsoleView<S, A, U, V>,
    actions: Seq<AppActionView<S>>,
)
    ensures
        console.apply_all(actions).running_commands == console.running_commands,
    decreases actions.len(),
{
    if actions.len() > 0 {
        lemma_actions_keep_running(console, actions.drop_last());
    }
}

/// The exact repeat of the key that the console acted on last is passed
/// over, unless it is an exit chord: the console stays as it is, text, cursor
/// and history included, and the loop goes on.
pub proof fn lemma_exact_repeat_is_passed_over<S, A, U, V>(
    console: ConsoleView<S, A, U, V>,
    key: KeyEvent,
    first: u64,
    second: u64,
)
    requires
        !console.ignores(key),
        !key.is_exit_chord(),
    ensures
        ({
            let (acted, _) = console.event(Event::Key(key), first);
            &&& acted.last_key_event == Some(key)
            &&& acted.event(Event::Key(key), second) == (acted, OutcomeView::<S, A>::Continue)
        }),
{
    lemma_key_keeps_remembered(ConsoleView { last_key_event: Some(key), ..console }, key, first);
}

/// A key that differs from the one acted on last in its code, its modifiers
/// or its kind, and that goes down, is acted on and remembered.
pub proof fn lemma_other_key_is_acted_on<S, A, U, V>(
    console: ConsoleView<S, A, U, V>,
    key: KeyEvent,
    now: u64,
)
    requires
        key.kind != KeyEventKind::Release,
        console.last_key_event != Some(key),
    ensures
        !console.ignores(key),
        console.event(Event::Key(key), now) == (ConsoleView {
            last_key_event: Some(key),
            ..console
        }).key(key, now),
        console.event(Event::Key(key), now).0.last_key_event == Some(key),
{
    lemma_key_keeps_remembered(ConsoleView { last_key_event: Some(key), ..console }, key, now);
}

/// An exit chord that goes down is never passed over, however often the
/// terminal reports it: Control+D ends the loop every time, and Control+C
/// is judged every time.
pub proof fn lemma_exit_chords_always_count<S, A, U, V>(
    console: ConsoleView<S, A, U, V>,
    key: KeyEvent,
    now: u64,
)
    requires
        key.is_exit_chord(),
        key.kind != KeyEventKind::Release,
    ensures
        !console.ignores(key),
        key.is_chord('d') ==> console.event(Event::Key(key), now).1 == OutcomeView::<S, A>::Quit,
        key.is_chord('c') ==> console.event(Event::Key(key), now).1 == (if console.ctrl_c(now).1 {
            OutcomeView::<S, A>::Quit
        } else {
            OutcomeView::<S, A>::Continue
        }),
{
}

/// A key that goes up changes nothing, and the console's memory of the last
/// key stays as it is.
pub proof fn lemma_release_changes_nothing<S, A, U, V>(
    console: ConsoleView<S, A, U, V>,
    key: KeyEvent,
    now: u64,
)
    requires
        key.kind == KeyEventKind::Release,
    ensures
        console.event(Event::Key(key), now) == (console, OutcomeView::<S, A>::Continue),
{
}

/// Handling a key does not change what the console remembers as the last
/// key event.
pub proof fn lemma_key_keeps_remembered<S, A, U, V>(
    console: ConsoleView<S, A, U, V>,
    key: KeyEvent,
    now: u64,
)
    ensures
        console.key(key, now).0.last_key_event == console.last_key_event,
{
}

/// The history only grows: whatever key goes down, the lines submitted
/// before are still there, in their places.
pub proof fn lemma_history_only_grows<S, A, U, V>(
    console: ConsoleView<S, A, U, V>,
    event: Event,
    now: u64,
)
    ensures
        console.editor.history.is_prefix_of(console.event(event, now).0.editor.history),
{
    assert(console.editor.history.is_prefix_of(console.editor.history));
    assert(console.editor.history.is_prefix_of(console.editor.history.push(console.editor.input)));
}

/// Every key leaves the editor well formed.
pub proof fn lemma_keys_keep_editor_well_formed<S, A, U, V>(
    console: ConsoleView<S, A, U, V>,
    event: Event,
    now: u64,
)
    requires
        console.editor.wf(),
    ensures
        console.event(event, now).0.editor.wf(),
{
    let e = console.editor;
    match event {
        Event::Other => {},
        Event::Key(key) => {
            if !console.ignores(key) && !key.is_chord('d') && !key.is_chord('c') {
                match key.code {
                    KeyCode::Enter => {
                        if !is_blank(e.input) {
                            let s = e.submit();
                            assert forall|i: int| 0 <= i < s.history.len() implies !is_blank(
                                #[trigger] s.history[i],
                            ) by {
                                if i < e.history.len() {
                                    assert(s.history[i] == e.history[i]);
                                }
                            }
                        }
                    },
                    _ => {},
                }
            }
        },
    }
}

} // verus!
