//! Display width: how many terminal columns a character takes, and the
//! column at which the cursor stands on the prompt line.
use vstd::arithmetic::div_mod::lemma_add_mod_noop;
use vstd::prelude::*;

verus! {

/// The number of columns that the prompt `"> "` takes.
pub const PROMPT_COLUMNS: u16 = 2;

/// What `unicode_width::UnicodeWidthChar::width` returns for `c`.
pub uninterp spec fn unicode_width(c: char) -> Option<usize>;

/// Whether `c` is a control character (C0, DEL or C1).
pub open spec fn is_control(c: char) -> bool {
    let n = c as u32;
    n < 0x20 || 0x7F <= n < 0xA0
}

/// The columns that a character of measured width `w` takes: a character
/// without a width takes none.
pub open spec fn columns_of(w: Option<usize>) -> nat {
    match w {
        Some(n) => n as nat,
        None => 0,
    }
}

/// The columns that characters of the measured widths `widths` take together.
pub open spec fn columns_sum(widths: Seq<Option<usize>>) -> nat
    decreases widths.len(),
{
    if widths.len() == 0 {
        0
    } else {
        columns_sum(widths.drop_last()) + columns_of(widths.last())
    }
}

/// The measured width of each character of `s`.
pub open spec fn widths_of(s: Seq<char>) -> Seq<Option<usize>> {
    Seq::new(s.len(), |i: int| unicode_width(s[i]))
}

/// The columns that the text `s` takes: the sum of what its characters take.
pub open spec fn text_columns(s: Seq<char>) -> nat {
    columns_sum(widths_of(s))
}

/// The column of a cursor that stands behind the prompt and behind
/// characters of the measured widths `widths`. Terminal columns are 16 bits
/// wide and wrap around.
pub open spec fn column_behind(widths: Seq<Option<usize>>) -> int {
    (PROMPT_COLUMNS + columns_sum(widths)) % 0x1_0000
}

/// The column of the cursor on the prompt line for the text `input` and the
/// cursor offset `cursor`, counted in characters and clamped to the text.
pub open spec fn cursor_column_of(input: Seq<char>, cursor: nat) -> int {
    let at = if cursor <= input.len() {
        cursor as int
    } else {
        input.len() as int
    };
    column_behind(widths_of(input.take(at)))
}

/// The display width of one character.
///
/// Wraps `unicode_width::UnicodeWidthChar::width`. That function looks the
/// width up in the crate's tables and depends on nothing but `c`; it is
/// documented to return `None` exactly for control characters.
#[verifier::external_body]
pub(crate) fn char_width(c: char) -> (w: Option<usize>)
    ensures
        w == unicode_width(c),
        w is None <==> is_control(c),
{
    unicode_width::UnicodeWidthChar::width(c)
}

/// Measures the first `upto` characters of `chars`.
pub fn measure(chars: &Vec<char>, upto: usize) -> (widths: Vec<Option<usize>>)
    requires
        upto <= chars.len(),
    ensures
        widths@ == widths_of(chars@.take(upto as int)),
{
    let mut widths: Vec<Option<usize>> = Vec::new();
    let mut i: usize = 0;
    while i < upto
        invariant
            i <= upto <= chars.len(),
            widths@.len() == i,
            forall|j: int| 0 <= j < i ==> #[trigger] widths@[j] == unicode_width(chars@[j]),
        decreases upto - i,
    {
        widths.push(char_width(chars[i]));
        i = i + 1;
    }
    widths
}

/// The column of a cursor that stands behind the prompt and behind
/// characters of the given measured widths.
pub fn cursor_column(widths: &Vec<Option<usize>>) -> (col: u16)
    ensures
        col as int == column_behind(widths@),
{
    let mut acc: u32 = PROMPT_COLUMNS as u32;
    let mut i: usize = 0;
    while i < widths.len()
        invariant
            i <= widths.len(),
            acc < 0x1_0000,
            acc as int == column_behind(widths@.take(i as int)),
        decreases widths.len() - i,
    {
        let step: u32 = match widths[i] {
            Some(n) => (n % 0x1_0000) as u32,
            None => 0,
        };
        proof {
            let before = widths@.take(i as int);
            let after = widths@.take(i + 1);
            assert(after.drop_last() =~= before);
            let base = PROMPT_COLUMNS + columns_sum(before);
            let cols = columns_of(widths@[i as int]) as int;
            lemma_add_mod_noop(base, cols, 0x1_0000);
        }
        acc = (acc + step) % 0x1_0000;
        i = i + 1;
    }
    assert(widths@.take(i as int) =~= widths@);
    acc as u16
}

} // verus!
