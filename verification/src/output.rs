//! What the console asks of whoever drives it: the writes to the terminal and
//! the events to publish, in the order in which they are due.
//!
//! The console does no input or output of its own. Every operation appends
//! to a queue of [`Output`] values what it would have written, and the driver
//! takes the queue and carries it out.
use crate::editor::{PromptFrame, PromptFrameView};
use crate::events::{EventDraft, EventDraftView};
use crate::logger::{LogRecord, LogRecordView};
use vstd::prelude::*;

verus! {

/// One thing for the driver to do.
#[derive(Debug, Clone, PartialEq, Eq)]
pub enum Output {
    /// Switch the terminal's raw mode on or off.
    RawMode(bool),
    /// Switch the capture of the mouse on or off.
    MouseCapture(bool),
    /// Show or hide the cursor.
    CursorVisible(bool),
    /// Put the cursor at the start of its line and erase the line.
    ClearLine,
    /// Put the cursor at the start of its line.
    CarriageReturn,
    /// Write the text and end the line.
    Line(String),
    /// Lay the record out as a log text, write it and end the line.
    Log(LogRecord),
    /// Send out what has been written.
    Flush,
    /// Draw the prompt line: hide the cursor, erase the line, write the
    /// frame's text, put the cursor at the frame's column, show it, and send
    /// everything out. If any of this fails, show the cursor all the same.
    Prompt(PromptFrame),
    /// Publish the event, with the time at which it goes out.
    Publish(EventDraft),
}

/// The view of an [`Output`].
pub enum OutputView {
    RawMode(bool),
    MouseCapture(bool),
    CursorVisible(bool),
    ClearLine,
    CarriageReturn,
    Line(Seq<char>),
    Log(LogRecordView),
    Flush,
    Prompt(PromptFrameView),
    Publish(EventDraftView),
}

impl View for Output {
    type V = OutputView;

    open spec fn view(&self) -> OutputView {
        match *self {
            Output::RawMode(on) => OutputView::RawMode(on),
            Output::MouseCapture(on) => OutputView::MouseCapture(on),
            Output::CursorVisible(on) => OutputView::CursorVisible(on),
            Output::ClearLine => OutputView::ClearLine,
            Output::CarriageReturn => OutputView::CarriageReturn,
            Output::Line(text) => OutputView::Line(text@),
            Output::Log(record) => OutputView::Log(record@),
            Output::Flush => OutputView::Flush,
            Output::Prompt(frame) => OutputView::Prompt(frame@),
            Output::Publish(draft) => OutputView::Publish(draft@),
        }
    }
}

impl DeepView for Output {
    type V = OutputView;

    open spec fn deep_view(&self) -> OutputView {
        self@
    }
}

impl OutputView {
    /// Whether this output publishes an event.
    pub open spec fn is_publish(self) -> bool {
        self is Publish
    }

    /// Whether the run has to end when this output cannot be carried out. A
    /// prompt line that cannot be drawn is passed over, and publishing
    /// cannot fail: nobody may be listening. Any other write that fails is
    /// fatal.
    pub open spec fn must_succeed(self) -> bool {
        !(self is Prompt) && !(self is Publish)
    }
}

impl Output {
    /// Tells whether the run has to end when this output cannot be carried
    /// out.
    pub fn must_succeed(&self) -> (fatal: bool)
        ensures
            fatal == self@.must_succeed(),
    {
        match self {
            Output::Prompt(_) => false,
            Output::Publish(_) => false,
            _ => true,
        }
    }
}

} // verus!
