//! The line editor: the text being typed, the cursor in it, the lines
//! submitted so far and the place held while leafing through them.
//!
//! [`EditorView`] is the editor as a mathematical value and says what each
//! keystroke does. [`LineEditor`] is the editor that runs; each of its methods
//! is proved to do to its view what the model says.
use crate::text::{chars_of, is_blank, is_blank_text};
use crate::width::{cursor_column, cursor_column_of, measure};
use vstd::prelude::*;
use vstd::string::*;

verus! {

/// What to draw for the prompt line: the line's text, the prompt included,
/// and the column at which the cursor stands.
#[derive(Debug, Clone, PartialEq, Eq)]
pub struct PromptFrame {
    pub line: String,
    pub cursor_column: u16,
}

/// The view of a [`PromptFrame`].
pub struct PromptFrameView {
    pub line: Seq<char>,
    pub cursor_column: u16,
}

impl View for PromptFrame {
    type V = PromptFrameView;

    open spec fn view(&self) -> PromptFrameView {
        PromptFrameView { line: self.line@, cursor_column: self.cursor_column }
    }
}

/// The line editor as a mathematical value.
pub struct EditorView {
    /// The text being typed.
    pub input: Seq<char>,
    /// The cursor's offset in `input`, in characters.
    pub cursor: nat,
    /// The lines submitted so far, oldest first.
    pub history: Seq<Seq<char>>,
    /// The index in `history` of the line shown, while leafing through it.
    pub browsing: Option<nat>,
}

impl EditorView {
    /// What holds of every editor: the cursor stands in the text or at its
    /// end, the place held in the history exists, and no line of the history
    /// is blank.
    pub open spec fn wf(self) -> bool {
        &&& self.cursor <= self.input.len()
        &&& (self.browsing matches Some(i) ==> i < self.history.len())
        &&& forall|i: int| 0 <= i < self.history.len() ==> !is_blank(#[trigger] self.history[i])
    }

    /// The editor before anything was typed.
    pub open spec fn fresh() -> EditorView {
        EditorView { input: Seq::empty(), cursor: 0, history: Seq::empty(), browsing: None }
    }

    /// The cursor's offset, brought back into the text if it lies outside.
    pub open spec fn clamped_cursor(self) -> nat {
        if self.cursor <= self.input.len() {
            self.cursor
        } else {
            self.input.len()
        }
    }

    /// Typing `c`: it goes in at the cursor, which moves behind it.
    pub open spec fn insert(self, c: char) -> EditorView {
        let at = self.clamped_cursor();
        EditorView { input: self.input.insert(at as int, c), cursor: at + 1, ..self }
    }

    /// Backspace: the character before the cursor goes, and the cursor
    /// moves back by one. Nothing happens at the start of the text.
    pub open spec fn backspace(self) -> EditorView {
        if self.cursor == 0 {
            self
        } else {
            EditorView {
                input: if self.cursor <= self.input.len() {
                    self.input.remove(self.cursor - 1)
                } else {
                    self.input
                },
                cursor: (self.cursor - 1) as nat,
                ..self
            }
        }
    }

    /// The cursor moves left by one, unless it stands at the start.
    pub open spec fn left(self) -> EditorView {
        if self.cursor > 0 {
            EditorView { cursor: (self.cursor - 1) as nat, ..self }
        } else {
            self
        }
    }

    /// The cursor moves right by one, unless it stands at the end.
    pub open spec fn right(self) -> EditorView {
        if self.cursor < self.input.len() {
            EditorView { cursor: self.cursor + 1, ..self }
        } else {
            self
        }
    }

    /// The line `i` of the history is shown: it replaces the text, and the
    /// cursor stands at its end.
    pub open spec fn show(self, i: nat) -> EditorView {
        EditorView {
            input: self.history[i as int],
            cursor: self.history[i as int].len(),
            browsing: Some(i),
            ..self
        }
    }

    /// Towards older lines: from the text being typed to the newest line,
    /// from a line to the one before it. Nothing happens at the oldest line
    /// or with an empty history.
    pub open spec fn history_up(self) -> EditorView {
        if self.history.len() == 0 {
            self
        } else {
            match self.browsing {
                None => self.show((self.history.len() - 1) as nat),
                Some(i) => if i > 0 {
                    self.show((i - 1) as nat)
                } else {
                    self
                },
            }
        }
    }

    /// Towards newer lines: from a line to the one after it, from the newest
    /// line back to an empty text. Nothing happens while not leafing.
    pub open spec fn history_down(self) -> EditorView {
        match self.browsing {
            None => self,
            Some(i) => if i + 1 < self.history.len() {
                self.show(i + 1)
            } else {
                EditorView { input: Seq::empty(), cursor: 0, browsing: None, ..self }
            },
        }
    }

    /// The text is dropped and the cursor stands at the start; the place
    /// held in the history stays.
    pub open spec fn clear(self) -> EditorView {
        EditorView { input: Seq::empty(), cursor: 0, ..self }
    }

    /// The text is dropped, the cursor stands at the start and leafing ends.
    pub open spec fn reset(self) -> EditorView {
        EditorView { input: Seq::empty(), cursor: 0, browsing: None, ..self }
    }

    /// The text that Enter submits: the text as typed, unless it is blank.
    pub open spec fn submitted(self) -> Option<Seq<char>> {
        if is_blank(self.input) {
            None
        } else {
            Some(self.input)
        }
    }

    /// Enter: a text that is not blank joins the history, and the editor
    /// starts over. A blank text changes nothing.
    pub open spec fn submit(self) -> EditorView {
        if is_blank(self.input) {
            self
        } else {
            EditorView {
                input: Seq::empty(),
                cursor: 0,
                history: self.history.push(self.input),
                browsing: None,
            }
        }
    }

    /// What to draw for the prompt line: the prompt `"> "` and the text, with
    /// the cursor behind the prompt and the characters before it.
    pub open spec fn frame(self) -> PromptFrameView {
        PromptFrameView {
            line: "> "@ + self.input,
            cursor_column: cursor_column_of(self.input, self.cursor) as u16,
        }
    }
}

/// The line editor.
pub struct LineEditor {
    input: String,
    cursor: usize,
    history: Vec<String>,
    history_index: Option<usize>,
}

impl View for LineEditor {
    type V = EditorView;

    closed spec fn view(&self) -> EditorView {
        EditorView {
            input: self.input@,
            cursor: self.cursor as nat,
            history: self.history.deep_view(),
            browsing: match self.history_index {
                Some(i) => Some(i as nat),
                None => None,
            },
        }
    }
}

impl LineEditor {
    #[verifier::type_invariant]
    spec fn inv(self) -> bool {
        self@.wf()
    }

    /// An editor with no text and no history.
    pub fn new() -> (editor: LineEditor)
        ensures
            editor@ == EditorView::fresh(),
    {
        let editor = LineEditor {
            input: String::new(),
            cursor: 0,
            history: Vec::new(),
            history_index: None,
        };
        assert(editor.history.deep_view() =~= Seq::<Seq<char>>::empty());
        editor
    }

    /// The text being typed.
    pub fn input(&self) -> (text: &String)
        ensures
            text@ == self@.input,
    {
        &self.input
    }

    /// The cursor's offset in the text, in characters.
    pub fn cursor(&self) -> (offset: usize)
        ensures
            offset == self@.cursor,
            offset <= self@.input.len(),
    {
        proof {
            use_type_invariant(self);
        }
        self.cursor
    }

    /// The lines submitted so far, oldest first.
    pub fn history(&self) -> (lines: &Vec<String>)
        ensures
            lines.deep_view() == self@.history,
    {
        &self.history
    }

    /// The index of the line of the history that is shown, if one is.
    pub fn history_index(&self) -> (index: Option<usize>)
        ensures
            match index {
                Some(i) => self@.browsing == Some(i as nat) && i < self@.history.len(),
                None => self@.browsing is None,
            },
    {
        proof {
            use_type_invariant(self);
        }
        self.history_index
    }

    /// Tells whether the text is empty.
    pub fn is_empty(&self) -> (b: bool)
        ensures
            b == (self@.input.len() == 0),
    {
        self.input.as_str().unicode_len() == 0
    }

    /// Types `c` at the cursor.
    pub fn insert(&mut self, c: char)
        ensures
            final(self)@ == old(self)@.insert(c),
            final(self)@.wf(),
    {
        proof {
            use_type_invariant(&*self);
        }
        let len = self.input.as_str().unicode_len();
        if self.cursor > len {
            self.cursor = len;
        }
        let head = self.input.as_str().substring_char(0, self.cursor);
        let tail = self.input.as_str().substring_char(self.cursor, len);
        let mut next = String::new();
        next.append(head);
        crate::text::push_char(&mut next, c);
        next.append(tail);
        // Counting the new text shows that its length, and with it the new
        // cursor, fits in a `usize`.
        let _grown = next.as_str().unicode_len();
        self.input = next;
        self.cursor = self.cursor + 1;
    }

    /// Deletes the character before the cursor. Tells whether there was one.
    pub fn backspace(&mut self) -> (changed: bool)
        ensures
            final(self)@ == old(self)@.backspace(),
            changed == (old(self)@.cursor > 0),
            final(self)@.wf(),
    {
        proof {
            use_type_invariant(&*self);
        }
        if self.cursor == 0 {
            return false;
        }
        let len = self.input.as_str().unicode_len();
        let head = self.input.as_str().substring_char(0, self.cursor - 1);
        let tail = self.input.as_str().substring_char(self.cursor, len);
        let mut next = String::new();
        next.append(head);
        next.append(tail);
        self.cursor = self.cursor - 1;
        self.input = next;
        true
    }

    /// Moves the cursor left by one. Tells whether it moved.
    pub fn move_left(&mut self) -> (moved: bool)
        ensures
            final(self)@ == old(self)@.left(),
            moved == (old(self)@.cursor > 0),
            final(self)@.wf(),
    {
        proof {
            use_type_invariant(&*self);
        }
        if self.cursor > 0 {
            self.cursor = self.cursor - 1;
            true
        } else {
            false
        }
    }

    /// Moves the cursor right by one. Tells whether it moved.
    pub fn move_right(&mut self) -> (moved: bool)
        ensures
            final(self)@ == old(self)@.right(),
            moved == (old(self)@.cursor < old(self)@.input.len()),
            final(self)@.wf(),
    {
        proof {
            use_type_invariant(&*self);
        }
        let len = self.input.as_str().unicode_len();
        if self.cursor < len {
            self.cursor = self.cursor + 1;
            true
        } else {
            false
        }
    }

    /// Shows the line `i` of the history.
    fn show(&mut self, i: usize)
        requires
            i < old(self)@.history.len(),
        ensures
            final(self)@ == old(self)@.show(i as nat),
    {
        proof {
            use_type_invariant(&*self);
        }
        let line = self.history[i].clone();
        let len = line.as_str().unicode_len();
        self.cursor = 0;
        self.input = line;
        self.cursor = len;
        self.history_index = Some(i);
    }

    /// Leafs towards older lines.
    pub fn history_up(&mut self)
        ensures
            final(self)@ == old(self)@.history_up(),
            final(self)@.wf(),
    {
        proof {
            use_type_invariant(&*self);
        }
        if self.history.len() == 0 {
            return ;
        }
        match self.history_index {
            None => {
                let last = self.history.len() - 1;
                self.show(last);
            },
            Some(i) => {
                if i > 0 {
                    self.show(i - 1);
                }
            },
        }
        proof {
            use_type_invariant(&*self);
        }
    }

    /// Leafs towards newer lines.
    pub fn history_down(&mut self)
        ensures
            final(self)@ == old(self)@.history_down(),
            final(self)@.wf(),
    {
        proof {
            use_type_invariant(&*self);
        }
        match self.history_index {
            None => {},
            Some(i) => {
                if i < self.history.len() - 1 {
                    self.show(i + 1);
                } else {
                    self.cursor = 0;
                    self.input = String::new();
                    self.history_index = None;
                }
            },
        }
        proof {
            use_type_invariant(&*self);
        }
    }

    /// Drops the text; the place held in the history stays.
    pub fn clear(&mut self)
        ensures
            final(self)@ == old(self)@.clear(),
            final(self)@.wf(),
    {
        proof {
            use_type_invariant(&*self);
        }
        self.cursor = 0;
        self.input = String::new();
    }

    /// Drops the text and ends leafing.
    pub fn reset(&mut self)
        ensures
            final(self)@ == old(self)@.reset(),
            final(self)@.wf(),
    {
        proof {
            use_type_invariant(&*self);
        }
        self.cursor = 0;
        self.input = String::new();
        self.history_index = None;
    }

    /// Submits the text. A text that is not blank joins the history and is
    /// returned as it was typed, and the editor starts over. A blank text
    /// changes nothing and gives `None`.
    pub fn submit(&mut self) -> (line: Option<String>)
        ensures
            final(self)@ == old(self)@.submit(),
            match line {
                Some(text) => old(self)@.submitted() == Some(text@),
                None => old(self)@.submitted() is None,
            },
            final(self)@.wf(),
    {
        proof {
            use_type_invariant(&*self);
        }
        if is_blank_text(self.input.as_str()) {
            return None;
        }
        let line = self.input.clone();
        let ghost before = self.history.deep_view();
        self.history_index = None;
        let mut lines: Vec<String> = Vec::new();
        core::mem::swap(&mut self.history, &mut lines);
        lines.push(line.clone());
        assert(lines.deep_view() =~= before.push(line@));
        self.history = lines;
        self.cursor = 0;
        self.input = String::new();
        Some(line)
    }

    /// What to draw for the prompt line.
    pub fn frame(&self) -> (frame: PromptFrame)
        ensures
            frame@ == self@.frame(),
    {
        proof {
            use_type_invariant(self);
        }
        let chars = chars_of(self.input.as_str());
        let widths = measure(&chars, self.cursor);
        let mut line = String::new();
        line.append("> ");
        line.append(self.input.as_str());
        PromptFrame { line, cursor_column: cursor_column(&widths) }
    }
}

} // verus!
