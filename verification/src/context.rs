//! The stand-in for the console that a command in the background works
//! against.
//!
//! A command in the background cannot have the console: the console belongs
//! to the loop. It gets a [`ConsoleContext`] instead, which takes down what
//! the command asks of the console as actions. The driver puts them on the
//! action bus, and the console carries them out in its next turn.
use crate::console::AppAction;
use crate::logger::LogLevel;
use crate::model::AppActionView;
use vstd::prelude::*;

verus! {

/// The action that asks the console to log `message` at the level `level`.
pub open spec fn log_request<S>(level: LogLevel, message: Seq<char>) -> AppActionView<S> {
    match level {
        LogLevel::Info => AppActionView::Info(message),
        LogLevel::Debug => AppActionView::Debug(message),
        LogLevel::Warn => AppActionView::Warn(message),
        LogLevel::Error => AppActionView::Error(message),
        LogLevel::Critical => AppActionView::Critical(message),
    }
}

/// The stand-in for the console in the background. `S` is the type of the
/// handlers that run in place.
pub struct ConsoleContext<S> {
    actions: Vec<AppAction<S>>,
}

impl<S> View for ConsoleContext<S> {
    type V = Seq<AppActionView<S>>;

    /// The actions taken down and not handed over yet, oldest first.
    closed spec fn view(&self) -> Seq<AppActionView<S>> {
        self.actions.deep_view()
    }
}

impl<S> ConsoleContext<S> {
    /// A stand-in that has taken down nothing.
    pub fn new() -> (context: Self)
        ensures
            context@ == Seq::<AppActionView<S>>::empty(),
    {
        let context = ConsoleContext { actions: Vec::new() };
        context
    }

    /// Takes down one action.
    fn push(&mut self, action: AppAction<S>)
        ensures
            final(self)@ == old(self)@.push(action@),
    {
        self.actions.push(action);
    }

    /// Asks the console to bind `name` to a handler that runs in place.
    pub fn register_command(&mut self, name: &str, handler: S)
        ensures
            final(self)@ == old(self)@.push(AppActionView::RegisterCommand(name@, handler)),
    {
        self.push(AppAction::RegisterCommand(name.to_owned(), handler));
    }

    /// Asks the console to log `message` at the level `level`.
    pub fn log(&mut self, level: LogLevel, message: &str)
        ensures
            final(self)@ == old(self)@.push(log_request(level, message@)),
    {
        let text = message.to_owned();
        let action = match level {
            LogLevel::Info => AppAction::Info(text),
            LogLevel::Debug => AppAction::Debug(text),
            LogLevel::Warn => AppAction::Warn(text),
            LogLevel::Error => AppAction::Error(text),
            LogLevel::Critical => AppAction::Critical(text),
        };
        self.push(action);
    }

    /// Asks the console to log an info-level message.
    pub fn info(&mut self, message: &str)
        ensures
            final(self)@ == old(self)@.push(log_request(LogLevel::Info, message@)),
    {
        self.log(LogLevel::Info, message);
    }

    /// Asks the console to log a debug-level message.
    pub fn debug(&mut self, message: &str)
        ensures
            final(self)@ == old(self)@.push(log_request(LogLevel::Debug, message@)),
    {
        self.log(LogLevel::Debug, message);
    }

    /// Asks the console to log a warn-level message.
    pub fn warn(&mut self, message: &str)
        ensures
            final(self)@ == old(self)@.push(log_request(LogLevel::Warn, message@)),
    {
        self.log(LogLevel::Warn, message);
    }

    /// Asks the console to log an error-level message.
    pub fn error(&mut self, message: &str)
        ensures
            final(self)@ == old(self)@.push(log_request(LogLevel::Error, message@)),
    {
        self.log(LogLevel::Error, message);
    }

    /// Asks the console to log a critical-level message.
    pub fn critical(&mut self, message: &str)
        ensures
            final(self)@ == old(self)@.push(log_request(LogLevel::Critical, message@)),
    {
        self.log(LogLevel::Critical, message);
    }

    /// Hands over the actions taken down, oldest first, and keeps none.
    pub fn take_actions(&mut self) -> (actions: Vec<AppAction<S>>)
        ensures
            actions.deep_view() == old(self)@,
            final(self)@ == Seq::<AppActionView<S>>::empty(),
    {
        let mut actions: Vec<AppAction<S>> = Vec::new();
        core::mem::swap(&mut self.actions, &mut actions);
        actions
    }
}

} // verus!
