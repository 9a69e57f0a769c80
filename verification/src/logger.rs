//! Log lines: a severity, a text and an optional module name, laid out with
//! the time of day and with colour codes for the terminal.
//!
//! The layout is this library's own and is verified. The time of day and the
//! escape codes come from outside: each is read once for a line and handed to
//! [`compose_log_message`], whose contract is exact.
use crate::text::{
    contains_line_feed, has_line_feed, join_with, lemma_one_line, lines, lines_of,
};
use crate::utils::{is_clock_text, read_local_clock};
use std::fmt::Write;
use vstd::prelude::*;
use vstd::string::*;

verus! {

/// Log level enumeration for categorizing log messages.
#[derive(Debug, PartialEq, Eq, Copy, Clone, Structural)]
pub enum LogLevel {
    Info,
    Warn,
    Error,
    Debug,
    Critical,
}

/// A foreground colour of the terminal's palette.
#[derive(Debug, PartialEq, Eq, Copy, Clone, Structural)]
pub enum Tint {
    Green,
    Yellow,
    Red,
    DarkGrey,
    /// The palette entry of the given number.
    Ansi(u8),
}

/// A way to set text off.
#[derive(Debug, PartialEq, Eq, Copy, Clone, Structural)]
pub enum Emphasis {
    Bold,
    Italic,
}

/// What the outside world contributes to one log line.
#[derive(Debug, Clone, PartialEq, Eq)]
pub struct LogStamp {
    /// The local time of day.
    pub clock: String,
    /// The code that switches the level's emphasis on.
    pub emphasis: String,
    /// The code that sets the level's colour.
    pub color: String,
    /// The code that resets colour and emphasis.
    pub reset: String,
}

/// The view of a [`LogStamp`].
pub struct LogStampView {
    pub clock: Seq<char>,
    pub emphasis: Seq<char>,
    pub color: Seq<char>,
    pub reset: Seq<char>,
}

impl View for LogStamp {
    type V = LogStampView;

    open spec fn view(&self) -> LogStampView {
        LogStampView {
            clock: self.clock@,
            emphasis: self.emphasis@,
            color: self.color@,
            reset: self.reset@,
        }
    }
}

impl DeepView for LogStamp {
    type V = LogStampView;

    open spec fn deep_view(&self) -> LogStampView {
        self@
    }
}

/// The view of an optional text.
pub open spec fn text_view(t: Option<&str>) -> Option<Seq<char>> {
    match t {
        Some(s) => Some(s@),
        None => None,
    }
}

/// The view of an optional string.
pub open spec fn string_view(t: Option<String>) -> Option<Seq<char>> {
    match t {
        Some(s) => Some(s@),
        None => None,
    }
}

/// The word that names a level in a log line.
pub open spec fn level_word(level: LogLevel) -> Seq<char> {
    match level {
        LogLevel::Info => "INFO"@,
        LogLevel::Warn => "WARN"@,
        LogLevel::Error => "ERROR"@,
        LogLevel::Debug => "DEBUG"@,
        LogLevel::Critical => "CRITICAL"@,
    }
}

/// The colour of a level.
pub open spec fn tint_of(level: LogLevel) -> Tint {
    match level {
        LogLevel::Info => Tint::Green,
        LogLevel::Warn => Tint::Yellow,
        LogLevel::Error => Tint::Red,
        LogLevel::Debug => Tint::DarkGrey,
        LogLevel::Critical => Tint::Ansi(5),
    }
}

/// The emphasis of a level: debug lines are italic, all others carry a bold
/// tag.
pub open spec fn emphasis_of(level: LogLevel) -> Emphasis {
    match level {
        LogLevel::Debug => Emphasis::Italic,
        _ => Emphasis::Bold,
    }
}

/// What stands before the level in a line's tag: the module name and a
/// slash, or nothing.
pub open spec fn module_prefix(module_name: Option<Seq<char>>) -> Seq<char> {
    match module_name {
        Some(name) => name + "/"@,
        None => Seq::empty(),
    }
}

/// One log line.
///
/// A debug line is `COLOR ITALIC [clock] [module/DEBUG] ITALIC message RESET`.
/// Every other line is
/// `[clock] BOLD [module/ COLOR LEVEL RESET BOLD ] RESET message RESET`.
/// The blanks between the codes above only set them apart; the blanks of the
/// line itself are those of the literals below.
pub open spec fn log_line(
    stamp: LogStampView,
    level: LogLevel,
    message: Seq<char>,
    module_name: Option<Seq<char>>,
) -> Seq<char> {
    if level == LogLevel::Debug {
        stamp.color + stamp.emphasis + "["@ + stamp.clock + "] ["@ + module_prefix(module_name)
            + level_word(level) + "] "@ + stamp.emphasis + message + stamp.reset
    } else {
        "["@ + stamp.clock + "] "@ + stamp.emphasis + "["@ + module_prefix(module_name)
            + stamp.color + level_word(level) + stamp.reset + stamp.emphasis + "]"@ + stamp.reset
            + " "@ + message + stamp.reset
    }
}

/// The texts that [`format_multiline_message`] hands to [`log_message`], in
/// order: the message itself if it holds no line feed, else its lines.
pub open spec fn message_parts(message: Seq<char>) -> Seq<Seq<char>> {
    if has_line_feed(message) {
        lines_of(message)
    } else {
        seq![message]
    }
}

/// The parts of a message are its lines, but for the empty message, which
/// has no line and is laid out as one log line all the same.
pub proof fn lemma_message_parts_are_lines(message: Seq<char>)
    ensures
        message.len() > 0 ==> message_parts(message) == lines_of(message),
        message.len() == 0 ==> message_parts(message) == seq![message] && lines_of(message).len()
            == 0,
{
    if !has_line_feed(message) {
        lemma_one_line(message);
    }
}

/// The log lines of a message, one for each of its parts, each with its own
/// stamp, joined by line feeds.
pub open spec fn log_text(
    stamps: Seq<LogStampView>,
    level: LogLevel,
    message: Seq<char>,
    module_name: Option<Seq<char>>,
) -> Seq<char> {
    let parts = message_parts(message);
    join_with(
        Seq::new(parts.len(), |i: int| log_line(stamps[i], level, parts[i], module_name)),
        "\n"@,
    )
}

/// The decimal digits of `n`.
pub open spec fn decimal(n: nat) -> Seq<char>
    decreases n,
{
    if n < 10 {
        seq![('0' as u8 + n as u8) as char]
    } else {
        decimal(n / 10).push(('0' as u8 + (n % 10) as u8) as char)
    }
}

/// The escape sequence "select graphic rendition" with the parameters `params`.
pub open spec fn sgr(params: Seq<char>) -> Seq<char> {
    seq!['\u{1b}', '['] + params + seq!['m']
}

/// The parameters that set the foreground colour `tint`.
pub open spec fn tint_params(tint: Tint) -> Seq<char> {
    match tint {
        Tint::Green => "38;5;10"@,
        Tint::Yellow => "38;5;11"@,
        Tint::Red => "38;5;9"@,
        Tint::DarkGrey => "38;5;8"@,
        Tint::Ansi(n) => "38;5;"@ + decimal(n as nat),
    }
}

/// The parameter that switches `emphasis` on.
pub open spec fn emphasis_params(emphasis: Emphasis) -> Seq<char> {
    match emphasis {
        Emphasis::Bold => "1"@,
        Emphasis::Italic => "3"@,
    }
}

/// What the code for a foreground colour can be: the escape sequence for the
/// colour; the sequence without parameters, where colours are switched off;
/// or nothing, on a console that takes no escape sequences.
pub open spec fn is_color_code(code: Seq<char>, tint: Tint) -> bool {
    ||| code == sgr(tint_params(tint))
    ||| code == sgr(Seq::empty())
    ||| code.len() == 0
}

/// What the code for an emphasis can be: its escape sequence, or nothing on
/// a console that takes no escape sequences.
pub open spec fn is_emphasis_code(code: Seq<char>, emphasis: Emphasis) -> bool {
    ||| code == sgr(emphasis_params(emphasis))
    ||| code.len() == 0
}

/// What the code for a reset can be: its escape sequence, or nothing on a
/// console that takes no escape sequences.
pub open spec fn is_reset_code(code: Seq<char>) -> bool {
    ||| code == sgr("0"@)
    ||| code.len() == 0
}

/// Whether `stamp` is one that the outside world can contribute to a line of
/// the level `level`.
pub open spec fn stamp_fits(stamp: LogStampView, level: LogLevel) -> bool {
    &&& is_clock_text(stamp.clock)
    &&& is_emphasis_code(stamp.emphasis, emphasis_of(level))
    &&& is_color_code(stamp.color, tint_of(level))
    &&& is_reset_code(stamp.reset)
}

/// Whether `line` is the log line of the given level, message and module name
/// for some stamp that fits.
pub open spec fn is_log_line(
    line: Seq<char>,
    level: LogLevel,
    message: Seq<char>,
    module_name: Option<Seq<char>>,
) -> bool {
    exists|stamp: LogStampView|
        stamp_fits(stamp, level) && line == log_line(stamp, level, message, module_name)
}

/// Whether `text` holds the log lines of the given level, message and module
/// name, each for some stamp that fits.
pub open spec fn is_log_text(
    text: Seq<char>,
    level: LogLevel,
    message: Seq<char>,
    module_name: Option<Seq<char>>,
) -> bool {
    exists|stamps: Seq<LogStampView>|
        {
            &&& stamps.len() == message_parts(message).len()
            &&& forall|i: int| 0 <= i < stamps.len() ==> stamp_fits(#[trigger] stamps[i], level)
            &&& text == log_text(stamps, level, message, module_name)
        }
}

/// The terminal code that sets the foreground colour `tint`.
///
/// Wraps the `Display` of `crossterm::style::SetForegroundColor`. It writes
/// `ESC [ params m`, where the parameters are `38;5;` and the palette number
/// of the colour (10 for green, 11 for yellow, 9 for red, 8 for dark grey),
/// or are left out when the variable `NO_COLOR` switches colours off. On a
/// console without escape sequences it sets the colour through the
/// console's own interface and writes nothing; where that fails it reports
/// an error, and the code stays empty.
#[verifier::external_body]
fn foreground_code(tint: Tint) -> (code: String)
    ensures
        is_color_code(code@, tint),
{
    let color = match tint {
        Tint::Green => crossterm::style::Color::Green,
        Tint::Yellow => crossterm::style::Color::Yellow,
        Tint::Red => crossterm::style::Color::Red,
        Tint::DarkGrey => crossterm::style::Color::DarkGrey,
        Tint::Ansi(n) => crossterm::style::Color::AnsiValue(n),
    };
    let mut code = String::new();
    let _ = write!(code, "{}", crossterm::style::SetForegroundColor(color));
    code
}

/// The terminal code that switches `emphasis` on.
///
/// Wraps the `Display` of `crossterm::style::Attribute`, which writes
/// `ESC [ 1 m` for bold and `ESC [ 3 m` for italic, and nothing on a console
/// without escape sequences.
#[verifier::external_body]
fn emphasis_code(emphasis: Emphasis) -> (code: String)
    ensures
        is_emphasis_code(code@, emphasis),
{
    let attribute = match emphasis {
        Emphasis::Bold => crossterm::style::Attribute::Bold,
        Emphasis::Italic => crossterm::style::Attribute::Italic,
    };
    let mut code = String::new();
    let _ = write!(code, "{}", attribute);
    code
}

/// The terminal code that resets colour and emphasis.
///
/// Wraps the `Display` of `crossterm::style::ResetColor`, which writes
/// `ESC [ 0 m`. On a console without escape sequences it resets the colour
/// through the console's own interface and writes nothing; where that
/// fails it reports an error, and the code stays empty.
#[verifier::external_body]
fn reset_code() -> (code: String)
    ensures
        is_reset_code(code@),
{
    let mut code = String::new();
    let _ = write!(code, "{}", crossterm::style::ResetColor);
    code
}

/// The word that names `level` in a log line.
pub fn level_name(level: LogLevel) -> (word: &'static str)
    ensures
        word@ == level_word(level),
{
    match level {
        LogLevel::Info => "INFO",
        LogLevel::Warn => "WARN",
        LogLevel::Error => "ERROR",
        LogLevel::Debug => "DEBUG",
        LogLevel::Critical => "CRITICAL",
    }
}

/// The colour of `level`.
pub fn level_tint(level: LogLevel) -> (tint: Tint)
    ensures
        tint == tint_of(level),
{
    match level {
        LogLevel::Info => Tint::Green,
        LogLevel::Warn => Tint::Yellow,
        LogLevel::Error => Tint::Red,
        LogLevel::Debug => Tint::DarkGrey,
        LogLevel::Critical => Tint::Ansi(5),
    }
}

/// The emphasis of `level`.
pub fn level_emphasis(level: LogLevel) -> (emphasis: Emphasis)
    ensures
        emphasis == emphasis_of(level),
{
    match level {
        LogLevel::Debug => Emphasis::Italic,
        _ => Emphasis::Bold,
    }
}

/// Reads the clock and the terminal codes for one line of the level `level`.
pub fn take_stamp(level: LogLevel) -> (stamp: LogStamp)
    ensures
        stamp_fits(stamp@, level),
{
    LogStamp {
        clock: read_local_clock().time_of_day,
        emphasis: emphasis_code(level_emphasis(level)),
        color: foreground_code(level_tint(level)),
        reset: reset_code(),
    }
}

/// Lays out one log line from a stamp, a level, a message and an optional
/// module name.
pub fn compose_log_message(
    stamp: &LogStamp,
    level: LogLevel,
    message: &str,
    module_name: Option<&str>,
) -> (line: String)
    ensures
        line@ == log_line(stamp@, level, message@, text_view(module_name)),
{
    let mut prefix = String::new();
    match module_name {
        Some(name) => {
            prefix.append(name);
            prefix.append("/");
        },
        None => {},
    }
    let mut line = String::new();
    match level {
        LogLevel::Debug => {
            line.append(stamp.color.as_str());
            line.append(stamp.emphasis.as_str());
            line.append("[");
            line.append(stamp.clock.as_str());
            line.append("] [");
            line.append(prefix.as_str());
            line.append(level_name(level));
            line.append("] ");
            line.append(stamp.emphasis.as_str());
            line.append(message);
            line.append(stamp.reset.as_str());
        },
        _ => {
            line.append("[");
            line.append(stamp.clock.as_str());
            line.append("] ");
            line.append(stamp.emphasis.as_str());
            line.append("[");
            line.append(prefix.as_str());
            line.append(stamp.color.as_str());
            line.append(level_name(level));
            line.append(stamp.reset.as_str());
            line.append(stamp.emphasis.as_str());
            line.append("]");
            line.append(stamp.reset.as_str());
            line.append(" ");
            line.append(message);
            line.append(stamp.reset.as_str());
        },
    }
    line
}

/// Formats a log message with timestamp, level indicator, and color coding.
///
/// The line is [`log_line`] for the stamp that was read for it.
pub fn log_message(level: LogLevel, message: &str, module_name: Option<&str>) -> (line: String)
    ensures
        is_log_line(line@, level, message@, text_view(module_name)),
{
    let stamp = take_stamp(level);
    compose_log_message(&stamp, level, message, module_name)
}

/// Joins texts with line feeds.
pub fn join_lines(parts: &Vec<String>) -> (text: String)
    ensures
        text@ == join_with(parts.deep_view(), "\n"@),
{
    let mut text = String::new();
    let mut i: usize = 0;
    while i < parts.len()
        invariant
            i <= parts.len(),
            text@ == join_with(parts.deep_view().take(i as int), "\n"@),
        decreases parts.len() - i,
    {
        let ghost before = parts.deep_view().take(i as int);
        let ghost after = parts.deep_view().take(i + 1);
        assert(after.drop_last() =~= before);
        if i > 0 {
            text.append("\n");
        }
        text.append(parts[i].as_str());
        i = i + 1;
    }
    assert(parts.deep_view().take(i as int) =~= parts.deep_view());
    text
}

/// Lays out the log lines of a message from one stamp for each of its
/// parts.
pub fn compose_multiline_message(
    stamps: &Vec<LogStamp>,
    level: LogLevel,
    message: &str,
    module_name: Option<&str>,
) -> (text: String)
    requires
        stamps.len() == message_parts(message@).len(),
    ensures
        text@ == log_text(stamps.deep_view(), level, message@, text_view(module_name)),
{
    let parts: Vec<String> = if contains_line_feed(message) {
        lines(message)
    } else {
        let mut one: Vec<String> = Vec::new();
        one.push(message.to_owned());
        one
    };
    let mut rows: Vec<String> = Vec::new();
    let mut i: usize = 0;
    while i < parts.len()
        invariant
            i <= parts.len(),
            stamps.len() == parts.len(),
            rows.len() == i,
            forall|j: int|
                0 <= j < i ==> #[trigger] rows[j]@ == log_line(
                    stamps[j]@,
                    level,
                    parts[j]@,
                    text_view(module_name),
                ),
        decreases parts.len() - i,
    {
        let row = compose_log_message(&stamps[i], level, parts[i].as_str(), module_name);
        rows.push(row);
        i = i + 1;
    }
    assert(rows.deep_view() =~= Seq::new(
        message_parts(message@).len(),
        |i: int|
            log_line(
                stamps.deep_view()[i],
                level,
                message_parts(message@)[i],
                text_view(module_name),
            ),
    ));
    join_lines(&rows)
}

/// Format multi-line messages with log-levels.
///
/// A message without a line feed becomes one log line. Any other message
/// becomes one log line for each of its lines, joined by line feeds. Each
/// line is stamped when it is laid out.
pub fn format_multiline_message(level: LogLevel, message: &str, module_name: Option<&str>) -> (text:
    String)
    ensures
        is_log_text(text@, level, message@, text_view(module_name)),
{
    let count: usize = if contains_line_feed(message) {
        lines(message).len()
    } else {
        1
    };
    let mut stamps: Vec<LogStamp> = Vec::new();
    let mut i: usize = 0;
    while i < count
        invariant
            i <= count,
            stamps.len() == i,
            forall|j: int| 0 <= j < i ==> stamp_fits(#[trigger] stamps[j]@, level),
        decreases count - i,
    {
        stamps.push(take_stamp(level));
        i = i + 1;
    }
    let text = compose_multiline_message(&stamps, level, message, module_name);
    text
}

/// A log message that has not been laid out yet: what one of the macros
/// `get_info!`, `get_warn!` and so on would be called with.
#[derive(Debug, Clone, PartialEq, Eq)]
pub struct LogRecord {
    pub level: LogLevel,
    pub text: String,
    pub module_name: Option<String>,
}

/// The view of a [`LogRecord`].
pub struct LogRecordView {
    pub level: LogLevel,
    pub text: Seq<char>,
    pub module_name: Option<Seq<char>>,
}

impl View for LogRecord {
    type V = LogRecordView;

    open spec fn view(&self) -> LogRecordView {
        LogRecordView {
            level: self.level,
            text: self.text@,
            module_name: string_view(self.module_name),
        }
    }
}

impl DeepView for LogRecord {
    type V = LogRecordView;

    open spec fn deep_view(&self) -> LogRecordView {
        self@
    }
}

impl LogRecord {
    /// A record of the given level, text and module name.
    pub fn new(level: LogLevel, text: &str, module_name: Option<&str>) -> (record: LogRecord)
        ensures
            record@ == (LogRecordView {
                level,
                text: text@,
                module_name: text_view(module_name),
            }),
    {
        let module_name = match module_name {
            Some(name) => Some(name.to_owned()),
            None => None,
        };
        LogRecord { level, text: text.to_owned(), module_name }
    }

    /// Lays the record out, as [`format_multiline_message`] does.
    pub fn render(&self) -> (text: String)
        ensures
            is_log_text(text@, self@.level, self@.text, self@.module_name),
    {
        match &self.module_name {
            Some(name) => format_multiline_message(
                self.level,
                self.text.as_str(),
                Some(name.as_str()),
            ),
            None => format_multiline_message(self.level, self.text.as_str(), None),
        }
    }
}

} // verus!
