//! Commands: the registry that binds names to handlers, the bookkeeping of
//! commands that run in the background, and what a finished one hands back.
//!
//! The library never runs a handler. It stores handlers as values of the
//! caller's own types, `S` for one that runs in place and `A` for one that
//! runs in the background, and hands them out when a command is due.
pub use crate::console::execute_command;
use crate::logger::{LogRecord, LogRecordView};
use vstd::prelude::*;
use vstd::string::*;

verus! {

/// The handle of a task spawned on the tokio runtime.
#[verifier::external_type_specification]
#[verifier::external_body]
#[verifier::reject_recursive_types(T)]
pub struct ExJoinHandle<T>(tokio::task::JoinHandle<T>);

/// The error that awaiting a tokio task gives when the task was cancelled or
/// panicked. Nothing here names it; it is declared because a `JoinHandle` is
/// a future with this error in its output, and Verus takes the handle's type
/// only with that output known.
#[verifier::external_type_specification]
#[verifier::external_body]
pub struct ExJoinError(tokio::task::JoinError);

/// Result from command execution
#[derive(Debug, Clone, PartialEq, Eq)]
pub struct CommandResult {
    pub command: String,
    pub output: String,
}

/// The view of a [`CommandResult`].
pub struct CommandResultView {
    pub command: Seq<char>,
    pub output: Seq<char>,
}

impl View for CommandResult {
    type V = CommandResultView;

    open spec fn view(&self) -> CommandResultView {
        CommandResultView { command: self.command@, output: self.output@ }
    }
}

/// Either kind of command handler: one that runs in place, or one that runs
/// in the background.
#[derive(Debug, Clone, PartialEq, Eq)]
pub enum CommandHandlerType<S, A> {
    PubSync(S),
    PubAsync(A),
}

impl<S, A> CommandHandlerType<S, A> {
    /// Tells whether the handler runs in place.
    pub fn as_sync(&self) -> (sync: bool)
        ensures
            sync == (*self is PubSync),
    {
        match self {
            CommandHandlerType::PubSync(_) => true,
            CommandHandlerType::PubAsync(_) => false,
        }
    }
}

/// Status of running commands
#[derive(Debug)]
pub struct RunningCommand {
    pub command: String,
    pub handle: tokio::task::JoinHandle<String>,
}

/// The view of a [`RunningCommand`].
pub struct RunningCommandView {
    pub command: Seq<char>,
    pub handle: tokio::task::JoinHandle<String>,
}

impl View for RunningCommand {
    type V = RunningCommandView;

    open spec fn view(&self) -> RunningCommandView {
        RunningCommandView { command: self.command@, handle: self.handle }
    }
}

impl DeepView for RunningCommand {
    type V = RunningCommandView;

    open spec fn deep_view(&self) -> RunningCommandView {
        self@
    }
}

/// Tells whether a task has finished.
///
/// Wraps `tokio::task::JoinHandle::is_finished`, which reads the task's
/// state. What it returns depends on how far the task has run, so the
/// contract promises nothing of it.
#[verifier::external_body]
pub(crate) fn task_finished(handle: &tokio::task::JoinHandle<String>) -> bool {
    handle.is_finished()
}

/// Asks a task to stop.
///
/// Wraps `tokio::task::JoinHandle::abort`, which marks the task as cancelled
/// and returns nothing. A task that has finished is left as it is.
#[verifier::external_body]
pub(crate) fn abort_task(handle: &tokio::task::JoinHandle<String>) {
    handle.abort()
}

/// The entries of `running` that are to stay: those whose flag in `finished`
/// is not set, in their order.
pub open spec fn unfinished(running: Seq<RunningCommandView>, finished: Seq<bool>) -> Seq<
    RunningCommandView,
>
    recommends
        running.len() == finished.len(),
    decreases running.len(),
{
    if running.len() == 0 {
        Seq::empty()
    } else if finished.last() {
        unfinished(running.drop_last(), finished.drop_last())
    } else {
        unfinished(running.drop_last(), finished.drop_last()).push(running.last())
    }
}

/// Drops from `running` every entry whose flag in `finished` is set, and
/// keeps the others in their order.
pub fn retain_unfinished(running: Vec<RunningCommand>, finished: &Vec<bool>) -> (kept: Vec<
    RunningCommand,
>)
    requires
        running.len() == finished.len(),
    ensures
        kept.deep_view() == unfinished(running.deep_view(), finished@),
{
    let mut rest = running;
    let mut turned: Vec<RunningCommand> = Vec::new();
    let ghost all = running.deep_view();
    assert(finished@.take(rest.len() as int) =~= finished@);
    // Taken from the back, so that nothing has to move; `turned` holds what
    // stays, newest first.
    while rest.len() > 0
        invariant
            rest.len() <= finished.len(),
            rest.deep_view() == all.take(rest.len() as int),
            all.len() == finished.len(),
            unfinished(all, finished@) == unfinished(
                rest.deep_view(),
                finished@.take(rest.len() as int),
            ) + turned.deep_view().reverse(),
        decreases rest.len(),
    {
        let ghost n = rest.len() as int;
        let ghost before = rest.deep_view();
        let ghost flags = finished@.take(n);
        let done = finished[rest.len() - 1];
        let entry = rest.pop().unwrap();
        assert(rest.deep_view() =~= before.drop_last());
        assert(flags.drop_last() =~= finished@.take(n - 1));
        if !done {
            turned.push(entry);
        }
    }
    let mut kept: Vec<RunningCommand> = Vec::new();
    let ghost target = turned.deep_view().reverse();
    while turned.len() > 0
        invariant
            target == kept.deep_view() + turned.deep_view().reverse(),
        decreases turned.len(),
    {
        let entry = turned.pop().unwrap();
        kept.push(entry);
    }
    kept
}

/// One binding of the registry.
struct Binding<S, A> {
    name: String,
    handler: CommandHandlerType<S, A>,
}

/// The command registry: each name is bound to one handler.
///
/// The bindings stand in a vector in which no name occurs twice, and a
/// lookup walks it. A hash map keyed by strings would run faster, but of
/// such a map nothing could be proved: vstd's account of std's hash map
/// holds only for keys whose hashing it models, and those are the integers.
pub struct CommandRegistry<S, A> {
    entries: Vec<Binding<S, A>>,
}

impl<S, A> CommandRegistry<S, A> {
    /// Whether some entry carries the name `key`.
    spec fn has(self, key: Seq<char>) -> bool {
        exists|i: int| 0 <= i < self.entries.len() && #[trigger] self.entries[i].name@ == key
    }

    /// The index of an entry that carries the name `key`.
    spec fn index_of(self, key: Seq<char>) -> int {
        choose|i: int| 0 <= i < self.entries.len() && #[trigger] self.entries[i].name@ == key
    }

    /// No two entries carry the same name.
    spec fn distinct(self) -> bool {
        forall|i: int, j: int|
            0 <= i < self.entries.len() && 0 <= j < self.entries.len() && i != j ==> (
            #[trigger] self.entries[i].name@) != (#[trigger] self.entries[j].name@)
    }

    #[verifier::type_invariant]
    spec fn inv(self) -> bool {
        self.distinct()
    }

    /// With distinct names, the entry at `i` is the one that its name is
    /// bound to.
    proof fn lemma_entry(self, i: int)
        requires
            self.distinct(),
            0 <= i < self.entries.len(),
        ensures
            self@.contains_key(self.entries[i].name@),
            self@[self.entries[i].name@] == self.entries[i].handler,
            self.index_of(self.entries[i].name@) == i,
    {
        assert(self.has(self.entries[i].name@));
    }
}

impl<S, A> View for CommandRegistry<S, A> {
    type V = Map<Seq<char>, CommandHandlerType<S, A>>;

    closed spec fn view(&self) -> Map<Seq<char>, CommandHandlerType<S, A>> {
        Map::new(
            |key: Seq<char>| self.has(key),
            |key: Seq<char>| self.entries[self.index_of(key)].handler,
        )
    }
}

impl<S, A> CommandRegistry<S, A> {
    /// A registry without bindings.
    pub fn new() -> (registry: CommandRegistry<S, A>)
        ensures
            registry@ == Map::<Seq<char>, CommandHandlerType<S, A>>::empty(),
    {
        let registry = CommandRegistry { entries: Vec::new() };
        registry
    }

    /// The index of the entry that carries the name `key`, if there is one.
    fn position(&self, key: &String) -> (at: Option<usize>)
        ensures
            match at {
                Some(i) => i < self.entries.len() && self.entries[i as int].name@ == key@,
                None => !self.has(key@),
            },
    {
        let mut i: usize = 0;
        while i < self.entries.len()
            invariant
                i <= self.entries.len(),
                forall|j: int| 0 <= j < i ==> (#[trigger] self.entries[j].name@) != key@,
            decreases self.entries.len() - i,
        {
            if self.entries[i].name == *key {
                return Some(i);
            }
            i = i + 1;
        }
        None
    }

    /// Tells whether `name` is bound.
    pub fn contains(&self, name: &str) -> (bound: bool)
        ensures
            bound == self@.contains_key(name@),
    {
        let key = name.to_owned();
        self.position(&key).is_some()
    }

    /// The handler that `name` is bound to, if it is bound.
    pub fn get(&self, name: &str) -> (handler: Option<&CommandHandlerType<S, A>>)
        ensures
            match handler {
                Some(h) => self@.contains_key(name@) && self@[name@] == *h,
                None => !self@.contains_key(name@),
            },
    {
        proof {
            use_type_invariant(self);
        }
        let key = name.to_owned();
        match self.position(&key) {
            Some(i) => {
                proof {
                    self.lemma_entry(i as int);
                }
                Some(&self.entries[i].handler)
            },
            None => None,
        }
    }

    /// Binds `name` to `handler`. A binding that `name` had is replaced.
    pub fn insert(&mut self, name: &str, handler: CommandHandlerType<S, A>)
        ensures
            final(self)@ == old(self)@.insert(name@, handler),
    {
        proof {
            use_type_invariant(&*self);
        }
        let key = name.to_owned();
        let found = self.position(&key);
        let ghost before = *self;
        let mut entries: Vec<Binding<S, A>> = Vec::new();
        core::mem::swap(&mut self.entries, &mut entries);
        match found {
            Some(i) => {
                entries.remove(i);
            },
            None => {},
        }
        entries.push(Binding { name: key, handler });
        self.entries = entries;
        proof {
            let after = *self;
            let n = after.entries.len() as int;
            // Where each entry of `after` came from.
            let origin = |j: int|
                match found {
                    Some(i) => if j < i as int {
                        j
                    } else {
                        j + 1
                    },
                    None => j,
                };
            assert forall|j: int| 0 <= j < n - 1 implies 0 <= origin(j) < before.entries.len()
                && #[trigger] after.entries[j] == before.entries[origin(j)]
                && after.entries[j].name@ != name@ by {
                if found is None {
                    assert(!before.has(name@));
                }
            }
            assert(after.entries[n - 1].name@ == name@);
            assert(after.distinct());
            assert forall|k: Seq<char>| #[trigger]
                after@.contains_key(k) <==> before@.insert(name@, handler).contains_key(k) by {
                if after.has(k) {
                    let j = after.index_of(k);
                    if j < n - 1 {
                        assert(before.entries[origin(j)].name@ == k);
                    }
                }
                if k != name@ && before.has(k) {
                    let b = before.index_of(k);
                    let j = match found {
                        Some(i) => if b < i as int {
                            b
                        } else {
                            b - 1
                        },
                        None => b,
                    };
                    assert(origin(j) == b);
                    assert(after.entries[j].name@ == k);
                }
                if k == name@ {
                    assert(after.entries[n - 1].name@ == k);
                }
            }
            assert forall|k: Seq<char>| #[trigger] after@.contains_key(k) implies after@[k]
                == before@.insert(name@, handler)[k] by {
                let j = after.index_of(k);
                after.lemma_entry(j);
                if j < n - 1 {
                    before.lemma_entry(origin(j));
                }
            }
            assert(after@ =~= before@.insert(name@, handler));
        }
    }

    /// Takes the binding of `name` out of the registry and returns its
    /// handler. Without such a binding nothing changes.
    pub fn remove(&mut self, name: &str) -> (handler: Option<CommandHandlerType<S, A>>)
        ensures
            final(self)@ == old(self)@.remove(name@),
            match handler {
                Some(h) => old(self)@.contains_key(name@) && old(self)@[name@] == h,
                None => !old(self)@.contains_key(name@),
            },
    {
        proof {
            use_type_invariant(&*self);
        }
        let key = name.to_owned();
        let ghost before = *self;
        match self.position(&key) {
            None => {
                assert(self@ =~= before@.remove(name@));
                None
            },
            Some(i) => {
                let mut entries: Vec<Binding<S, A>> = Vec::new();
                core::mem::swap(&mut self.entries, &mut entries);
                let entry = entries.remove(i);
                self.entries = entries;
                proof {
                    let after = *self;
                    before.lemma_entry(i as int);
                    let origin = |j: int|
                        if j < i as int {
                            j
                        } else {
                            j + 1
                        };
                    assert forall|j: int| 0 <= j < after.entries.len() implies #[trigger]
                        after.entries[j] == before.entries[origin(j)] && after.entries[j].name@
                        != name@ by {}
                    assert(after.distinct());
                    assert forall|k: Seq<char>| #[trigger]
                        after@.contains_key(k) <==> before@.remove(name@).contains_key(k) by {
                        if after.has(k) {
                            let j = after.index_of(k);
                            assert(before.entries[origin(j)].name@ == k);
                        }
                        if k != name@ && before.has(k) {
                            let b = before.index_of(k);
                            let j = if b < i as int {
                                b
                            } else {
                                b - 1
                            };
                            assert(origin(j) == b);
                            assert(after.entries[j].name@ == k);
                        }
                    }
                    assert forall|k: Seq<char>| #[trigger] after@.contains_key(k) implies after@[k]
                        == before@.remove(name@)[k] by {
                        let j = after.index_of(k);
                        after.lemma_entry(j);
                        before.lemma_entry(origin(j));
                    }
                    assert(after@ =~= before@.remove(name@));
                }
                Some(entry.handler)
            },
        }
    }
}

/// What is due for a submitted line. The driver does what the variant names
/// and hands the text that comes out of it back to the console.
#[allow(inconsistent_fields)]
#[derive(Debug, PartialEq, Eq)]
pub enum Dispatch<S, A> {
    /// The line holds no word: nothing runs, and nothing comes out.
    Nothing,
    /// Run `handler` in place with the arguments `args`, then bind `name` to
    /// it again. Until then `name` is not bound.
    RunSync { name: String, handler: S, args: Vec<String> },
    /// Run `handler`, a copy of the one bound to the command's name, in the
    /// background with the arguments `args`, and keep track of it under
    /// `command`. What comes out at once is `notice`.
    SpawnAsync { command: String, handler: A, args: Vec<String>, notice: LogRecord },
    /// No command of that name: ask the hook for unknown commands that runs
    /// in the background.
    AskAsyncUnknown { command: String },
    /// No command of that name: ask the hook for unknown commands that runs
    /// in place.
    AskUnknown { command: String },
    /// No command of that name and no hook: what comes out is `notice`.
    NotFound { notice: LogRecord },
}

/// The view of a [`Dispatch`].
#[allow(inconsistent_fields)]
pub enum DispatchView<S, A> {
    Nothing,
    RunSync { name: Seq<char>, handler: S, args: Seq<Seq<char>> },
    SpawnAsync { command: Seq<char>, handler: A, args: Seq<Seq<char>>, notice: LogRecordView },
    AskAsyncUnknown { command: Seq<char> },
    AskUnknown { command: Seq<char> },
    NotFound { notice: LogRecordView },
}

impl<S, A> View for Dispatch<S, A> {
    type V = DispatchView<S, A>;

    open spec fn view(&self) -> DispatchView<S, A> {
        match *self {
            Dispatch::Nothing => DispatchView::Nothing,
            Dispatch::RunSync { name, handler, args } => DispatchView::RunSync {
                name: name@,
                handler,
                args: args.deep_view(),
            },
            Dispatch::SpawnAsync { command, handler, args, notice } => DispatchView::SpawnAsync {
                command: command@,
                handler,
                args: args.deep_view(),
                notice: notice@,
            },
            Dispatch::AskAsyncUnknown { command } => DispatchView::AskAsyncUnknown {
                command: command@,
            },
            Dispatch::AskUnknown { command } => DispatchView::AskUnknown { command: command@ },
            Dispatch::NotFound { notice } => DispatchView::NotFound { notice: notice@ },
        }
    }
}

impl<S, A: Clone> DispatchView<S, A> {
    /// Whether `self` is `model` with, for a command that runs in the
    /// background, a copy of the model's handler in the handler's place.
    pub open spec fn copies(self, model: DispatchView<S, A>) -> bool {
        match model {
            DispatchView::SpawnAsync { command, handler, args, notice } => {
                &&& self matches DispatchView::SpawnAsync {
                    command: c,
                    handler: h,
                    args: a,
                    notice: n,
                }
                &&& c == command
                &&& cloned(handler, h)
                &&& a == args
                &&& n == notice
            },
            _ => self == model,
        }
    }
}

} // verus!
