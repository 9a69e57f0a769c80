//! Character-level text handling: whitespace, trimming, splitting a line into
//! words and a text into lines.
//!
//! Every function works on Unicode scalar values, never on bytes, and is
//! specified over `Seq<char>`, the view of `str` and `String`.
use vstd::prelude::*;
use vstd::string::*;

verus! {

/// Whether `c` has the Unicode property `White_Space`.
pub open spec fn is_space(c: char) -> bool {
    let n = c as u32;
    ||| 0x09 <= n <= 0x0D
    ||| n == 0x20
    ||| n == 0x85
    ||| n == 0xA0
    ||| n == 0x1680
    ||| 0x2000 <= n <= 0x200A
    ||| n == 0x2028
    ||| n == 0x2029
    ||| n == 0x202F
    ||| n == 0x205F
    ||| n == 0x3000
}

/// A text is blank when it is empty or holds white space only.
pub open spec fn is_blank(s: Seq<char>) -> bool {
    forall|i: int| 0 <= i < s.len() ==> is_space(#[trigger] s[i])
}

/// `s` without its leading white space.
pub open spec fn trim_start_of(s: Seq<char>) -> Seq<char>
    decreases s.len(),
{
    if s.len() > 0 && is_space(s[0]) {
        trim_start_of(s.drop_first())
    } else {
        s
    }
}

/// The word that is still open at the end of `s`: the longest suffix of `s`
/// without white space.
pub open spec fn open_word(s: Seq<char>) -> Seq<char>
    decreases s.len(),
{
    if s.len() == 0 || is_space(s.last()) {
        Seq::empty()
    } else {
        open_word(s.drop_last()).push(s.last())
    }
}

/// The words of `s` that white space has closed, in order.
pub open spec fn closed_words(s: Seq<char>) -> Seq<Seq<char>>
    decreases s.len(),
{
    if s.len() == 0 {
        Seq::empty()
    } else if is_space(s.last()) && open_word(s.drop_last()).len() > 0 {
        closed_words(s.drop_last()).push(open_word(s.drop_last()))
    } else {
        closed_words(s.drop_last())
    }
}

/// The words of `s`: its maximal runs of characters that are not white space,
/// from left to right.
pub open spec fn words_of(s: Seq<char>) -> Seq<Seq<char>> {
    if open_word(s).len() > 0 {
        closed_words(s).push(open_word(s))
    } else {
        closed_words(s)
    }
}

/// `line` without one carriage return at its end, if it has one.
pub open spec fn strip_cr(line: Seq<char>) -> Seq<char> {
    if line.len() > 0 && line.last() == '\r' {
        line.drop_last()
    } else {
        line
    }
}

/// What follows the last line feed of `s` (all of `s`, if it has none).
pub open spec fn open_line(s: Seq<char>) -> Seq<char>
    decreases s.len(),
{
    if s.len() == 0 || s.last() == '\n' {
        Seq::empty()
    } else {
        open_line(s.drop_last()).push(s.last())
    }
}

/// The lines of `s` that a line feed ends, in order, each without its line
/// feed and without a carriage return before it.
pub open spec fn closed_lines(s: Seq<char>) -> Seq<Seq<char>>
    decreases s.len(),
{
    if s.len() == 0 {
        Seq::empty()
    } else if s.last() == '\n' {
        closed_lines(s.drop_last()).push(strip_cr(open_line(s.drop_last())))
    } else {
        closed_lines(s.drop_last())
    }
}

/// The lines of `s`. A line ends at a line feed or at a carriage return
/// directly followed by one; the ending is not part of the line. A last line
/// without a line feed counts if it is not empty, and keeps a carriage return
/// at its end.
pub open spec fn lines_of(s: Seq<char>) -> Seq<Seq<char>> {
    if open_line(s).len() > 0 {
        closed_lines(s).push(open_line(s))
    } else {
        closed_lines(s)
    }
}

/// Whether `s` holds a line feed.
pub open spec fn has_line_feed(s: Seq<char>) -> bool {
    exists|i: int| 0 <= i < s.len() && #[trigger] s[i] == '\n'
}

/// The texts of `parts`, one after the other, with `sep` between neighbours.
pub open spec fn join_with(parts: Seq<Seq<char>>, sep: Seq<char>) -> Seq<char>
    decreases parts.len(),
{
    if parts.len() == 0 {
        Seq::empty()
    } else if parts.len() == 1 {
        parts[0]
    } else {
        join_with(parts.drop_last(), sep) + sep + parts.last()
    }
}

/// Appends one character to a string.
///
/// Wraps `String::push`, which is documented to append the given `char` to
/// the end of the string.
#[verifier::external_body]
pub(crate) fn push_char(s: &mut String, c: char)
    ensures
        final(s)@ == old(s)@.push(c),
{
    s.push(c)
}

/// Tells whether `c` is white space.
pub fn is_whitespace(c: char) -> (b: bool)
    ensures
        b == is_space(c),
{
    let n: u32 = c as u32;
    (0x09 <= n && n <= 0x0D) || n == 0x20 || n == 0x85 || n == 0xA0 || n == 0x1680 || (0x2000 <= n
        && n <= 0x200A) || n == 0x2028 || n == 0x2029 || n == 0x202F || n == 0x205F || n == 0x3000
}

/// The characters of `s`.
pub fn chars_of(s: &str) -> (v: Vec<char>)
    ensures
        v@ == s@,
{
    let mut v: Vec<char> = Vec::new();
    for c in it: s.chars()
        invariant
            v@ == s@.take(it.index() as int),
            it.seq() == s@,
    {
        v.push(c);
    }
    v
}

/// The string made of `v[from..to]`.
pub fn string_of(v: &Vec<char>, from: usize, to: usize) -> (s: String)
    requires
        from <= to <= v.len(),
    ensures
        s@ == v@.subrange(from as int, to as int),
{
    let mut s = String::new();
    let mut i: usize = from;
    while i < to
        invariant
            from <= i <= to <= v.len(),
            s@ == v@.subrange(from as int, i as int),
        decreases to - i,
    {
        push_char(&mut s, v[i]);
        i = i + 1;
    }
    s
}

/// Tells whether `s` is blank.
pub fn is_blank_text(s: &str) -> (b: bool)
    ensures
        b == is_blank(s@),
{
    let v = chars_of(s);
    let mut i: usize = 0;
    while i < v.len()
        invariant
            i <= v.len(),
            v@ == s@,
            forall|j: int| 0 <= j < i ==> is_space(#[trigger] s@[j]),
        decreases v.len() - i,
    {
        if !is_whitespace(v[i]) {
            return false;
        }
        i = i + 1;
    }
    true
}

/// Tells whether `s` holds a line feed.
pub fn contains_line_feed(s: &str) -> (b: bool)
    ensures
        b == has_line_feed(s@),
{
    let v = chars_of(s);
    let mut i: usize = 0;
    while i < v.len()
        invariant
            i <= v.len(),
            v@ == s@,
            forall|j: int| 0 <= j < i ==> #[trigger] s@[j] != '\n',
        decreases v.len() - i,
    {
        if v[i] == '\n' {
            return true;
        }
        i = i + 1;
    }
    false
}

/// `s` without its leading white space.
pub fn trim_start(s: &str) -> (t: String)
    ensures
        t@ == trim_start_of(s@),
{
    let v = chars_of(s);
    let mut i: usize = 0;
    assert(s@.skip(0) =~= s@);
    while i < v.len() && is_whitespace(v[i])
        invariant
            i <= v.len(),
            v@ == s@,
            trim_start_of(s@) == trim_start_of(s@.skip(i as int)),
        decreases v.len() - i,
    {
        assert(s@.skip(i as int).drop_first() =~= s@.skip(i + 1));
        i = i + 1;
    }
    string_of(&v, i, v.len())
}

/// Splits `s` into its words.
pub fn split_whitespace(s: &str) -> (words: Vec<String>)
    ensures
        words.deep_view() == words_of(s@),
{
    let v = chars_of(s);
    let mut words: Vec<String> = Vec::new();
    let mut start: usize = 0;
    let mut i: usize = 0;
    while i < v.len()
        invariant
            start <= i <= v.len(),
            v@ == s@,
            words.deep_view() == closed_words(s@.take(i as int)),
            open_word(s@.take(i as int)) == s@.subrange(start as int, i as int),
        decreases v.len() - i,
    {
        assert(s@.take(i + 1).drop_last() =~= s@.take(i as int));
        if is_whitespace(v[i]) {
            if start < i {
                let word = string_of(&v, start, i);
                words.push(word);
            }
            start = i + 1;
        }
        i = i + 1;
    }
    assert(s@.take(i as int) =~= s@);
    if start < i {
        let word = string_of(&v, start, i);
        words.push(word);
    }
    words
}

/// Splits `s` into its lines.
pub fn lines(s: &str) -> (out: Vec<String>)
    ensures
        out.deep_view() == lines_of(s@),
{
    let v = chars_of(s);
    let mut out: Vec<String> = Vec::new();
    let mut start: usize = 0;
    let mut i: usize = 0;
    while i < v.len()
        invariant
            start <= i <= v.len(),
            v@ == s@,
            out.deep_view() == closed_lines(s@.take(i as int)),
            open_line(s@.take(i as int)) == s@.subrange(start as int, i as int),
        decreases v.len() - i,
    {
        assert(s@.take(i + 1).drop_last() =~= s@.take(i as int));
        if v[i] == '\n' {
            let end: usize = if start < i && v[i - 1] == '\r' {
                i - 1
            } else {
                i
            };
            assert(s@.subrange(start as int, end as int) =~= strip_cr(
                s@.subrange(start as int, i as int),
            ));
            let line = string_of(&v, start, end);
            out.push(line);
            start = i + 1;
        }
        i = i + 1;
    }
    assert(s@.take(i as int) =~= s@);
    if start < i {
        let line = string_of(&v, start, i);
        out.push(line);
    }
    out
}

/// Whether `word` has at least one character and holds no white space.
pub open spec fn is_solid(word: Seq<char>) -> bool {
    word.len() > 0 && forall|j: int| 0 <= j < word.len() ==> !is_space(#[trigger] word[j])
}

/// The word that is open at the end of a text holds no white space, and
/// there is one exactly if the text ends in a character that is not white
/// space.
pub proof fn lemma_open_word_is_solid(s: Seq<char>)
    ensures
        forall|j: int| 0 <= j < open_word(s).len() ==> !is_space(#[trigger] open_word(s)[j]),
        open_word(s).len() > 0 <==> s.len() > 0 && !is_space(s.last()),
    decreases s.len(),
{
    if s.len() > 0 && !is_space(s.last()) {
        lemma_open_word_is_solid(s.drop_last());
    }
}

/// Every closed word of a text has at least one character and holds no
/// white space.
proof fn lemma_closed_words_are_solid(s: Seq<char>)
    ensures
        forall|i: int| 0 <= i < closed_words(s).len() ==> is_solid(#[trigger] closed_words(s)[i]),
    decreases s.len(),
{
    if s.len() > 0 {
        let init = s.drop_last();
        lemma_closed_words_are_solid(init);
        lemma_open_word_is_solid(init);
        assert forall|i: int| 0 <= i < closed_words(s).len() implies is_solid(
            #[trigger] closed_words(s)[i],
        ) by {
            if i < closed_words(init).len() {
                assert(closed_words(s)[i] == closed_words(init)[i]);
            } else {
                assert(closed_words(s)[i] == open_word(init));
            }
        }
    }
}

/// Every word of a text has at least one character and holds no white
/// space.
pub proof fn lemma_words_are_solid(s: Seq<char>)
    ensures
        forall|i: int| 0 <= i < words_of(s).len() ==> is_solid(#[trigger] words_of(s)[i]),
{
    lemma_closed_words_are_solid(s);
    lemma_open_word_is_solid(s);
}

/// A text has no word exactly if it is blank.
pub proof fn lemma_blank_has_no_words(s: Seq<char>)
    ensures
        is_blank(s) <==> words_of(s).len() == 0,
    decreases s.len(),
{
    lemma_open_word_is_solid(s);
    if s.len() > 0 {
        let init = s.drop_last();
        lemma_blank_has_no_words(init);
        lemma_open_word_is_solid(init);
        if is_blank(init) && is_space(s.last()) {
            assert forall|i: int| 0 <= i < s.len() implies is_space(#[trigger] s[i]) by {
                if i < init.len() {
                    assert(s[i] == init[i]);
                }
            }
        }
    }
}

/// What follows the last line feed of a text holds no line feed.
proof fn lemma_open_line_holds_no_line_feed(s: Seq<char>)
    ensures
        !has_line_feed(open_line(s)),
        !has_line_feed(strip_cr(open_line(s))),
    decreases s.len(),
{
    if s.len() > 0 && s.last() != '\n' {
        let init = s.drop_last();
        lemma_open_line_holds_no_line_feed(init);
    }
}

/// No closed line of a text holds a line feed.
proof fn lemma_closed_lines_hold_no_line_feed(s: Seq<char>)
    ensures
        forall|i: int|
            0 <= i < closed_lines(s).len() ==> !has_line_feed(#[trigger] closed_lines(s)[i]),
    decreases s.len(),
{
    if s.len() > 0 {
        let init = s.drop_last();
        lemma_closed_lines_hold_no_line_feed(init);
        lemma_open_line_holds_no_line_feed(init);
        assert forall|i: int| 0 <= i < closed_lines(s).len() implies !has_line_feed(
            #[trigger] closed_lines(s)[i],
        ) by {
            if i < closed_lines(init).len() {
                assert(closed_lines(s)[i] == closed_lines(init)[i]);
            } else {
                assert(closed_lines(s)[i] == strip_cr(open_line(init)));
            }
        }
    }
}

/// No line of a text holds a line feed.
pub proof fn lemma_lines_hold_no_line_feed(s: Seq<char>)
    ensures
        forall|i: int| 0 <= i < lines_of(s).len() ==> !has_line_feed(#[trigger] lines_of(s)[i]),
{
    lemma_closed_lines_hold_no_line_feed(s);
    lemma_open_line_holds_no_line_feed(s);
}

/// A text without a line feed is its own single line, unless it is empty.
pub proof fn lemma_one_line(s: Seq<char>)
    requires
        !has_line_feed(s),
    ensures
        open_line(s) == s,
        closed_lines(s).len() == 0,
        s.len() > 0 ==> lines_of(s) == seq![s],
        s.len() == 0 ==> lines_of(s).len() == 0,
    decreases s.len(),
{
    if s.len() > 0 {
        lemma_one_line(s.drop_last());
    }
}

} // verus!
