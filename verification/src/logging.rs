//! Where log lines go, and how much of them fits.
//!
//! While the dialog is on the screen, a log line that would go to the terminal is written into
//! the first row instead, cut to the width of the screen, so that it does not get into the
//! password field. Otherwise it goes to the standard output as it is.
use crate::text::to_chars;
use unicode_width::UnicodeWidthChar;
use vstd::prelude::*;

verus! {

/// How many columns a terminal is taken to have when it does not say.
pub const DEFAULT_COLUMNS: u16 = 80;

/// What `UnicodeWidthChar::width` of unicode-width gives for a character.
pub uninterp spec fn char_columns(c: char) -> Option<usize>;

/// `UnicodeWidthChar::width` of unicode-width: how many columns `c` takes on a screen, nothing
/// for a control character. It looks the character up in tables and depends on nothing else.
/// Said of it here is that it is none exactly for the control characters, and one for the
/// printable characters of ASCII; the tables themselves are not written out.
#[verifier::external_body]
fn char_width(c: char) -> (columns: Option<usize>)
    ensures
        columns == char_columns(c),
        columns is None <==> (c < '\u{20}' || '\u{7f}' <= c < '\u{a0}'),
        '\u{20}' <= c < '\u{7f}' ==> columns == Some(1usize),
{
    UnicodeWidthChar::width(c)
}

/// Whether the dialog is on the screen.
#[derive(Debug)]
pub struct LogSink {
    tui_active: bool,
}

impl LogSink {
    /// Whether the dialog is on the screen.
    pub closed spec fn tui_active(&self) -> bool {
        self.tui_active
    }

    /// No dialog is on the screen yet.
    pub fn new() -> (sink: LogSink)
        ensures
            !sink.tui_active(),
    {
        LogSink { tui_active: false }
    }
}

/// Notes whether the dialog is on the screen.
pub fn set_tui_active(sink: &mut LogSink, active: bool)
    ensures
        final(sink).tui_active() == active,
{
    sink.tui_active = active;
}

/// Where a log line goes.
#[derive(Debug)]
pub enum LogOutput {
    /// To the standard output, as a line.
    Line(String),
    /// Into the first row of the screen.
    Corner(String),
}

/// The kind and the text of a `LogOutput`.
#[verifier::ext_equal]
pub enum LogOutputView {
    Line(Seq<char>),
    Corner(Seq<char>),
}

impl View for LogOutput {
    type V = LogOutputView;

    open spec fn view(&self) -> LogOutputView {
        match self {
            LogOutput::Line(t) => LogOutputView::Line(t@),
            LogOutput::Corner(t) => LogOutputView::Corner(t@),
        }
    }
}

/// How many columns a text takes, character by character; control characters take none.
pub open spec fn columns(s: Seq<char>) -> nat
    decreases s.len(),
{
    if s.len() == 0 {
        0
    } else {
        columns(s.drop_last()) + (match char_columns(s.last()) {
            Some(w) => w as nat,
            None => 0,
        })
    }
}

/// Whether `t` is the longest beginning of `s` that is not wider than `max`.
pub open spec fn fitted(s: Seq<char>, max: nat, t: Seq<char>) -> bool {
    &&& t.is_prefix_of(s)
    &&& columns(t) <= max
    &&& t.len() < s.len() ==> columns(s.take(t.len() as int + 1)) > max
}

/// The longest beginning of `msg` that is not wider than `max` columns.
pub fn truncate(msg: &str, max: usize) -> (text: String)
    ensures
        fitted(msg@, max as nat, text@),
{
    let chars = to_chars(msg);
    let n = chars.len();
    let mut text = String::new();
    let mut width: usize = 0;
    for i in 0..n
        invariant
            n == chars@.len(),
            chars@ == msg@,
            text@ == msg@.take(i as int),
            width == columns(text@),
            width <= max,
    {
        let c = chars[i];
        let cw: usize = match char_width(c) {
            Some(w) => w,
            None => 0,
        };
        proof {
            assert(msg@.take(i + 1).drop_last() =~= msg@.take(i as int));
            assert(msg@.take(i + 1).last() == c);
            assert(columns(msg@.take(i + 1)) == width + cw);
        }
        if cw > max - width {
            return text;
        }
        text.push(c);
        assert(text@ =~= msg@.take(i + 1));
        width = width + cw;
    }
    assert(msg@.take(n as int) =~= msg@);
    text
}

/// The width that a log line in the corner may have: one column less than the screen.
pub open spec fn corner_width(cols: Option<u16>) -> nat {
    let c = match cols {
        Some(c) => c,
        None => DEFAULT_COLUMNS,
    };
    if c > 0 {
        (c - 1) as nat
    } else {
        0
    }
}

/// Decides where the log line `msg` goes. `cols` is the width of the terminal, if it is known.
pub fn log_line(sink: &LogSink, stdout_is_terminal: bool, cols: Option<u16>, msg: &str) -> (out:
    LogOutput)
    ensures
        if sink.tui_active() && stdout_is_terminal {
            out@ matches LogOutputView::Corner(t) && fitted(msg@, corner_width(cols), t)
        } else {
            out@ == LogOutputView::Line(msg@)
        },
{
    if sink.tui_active && stdout_is_terminal {
        let c: u16 = match cols {
            Some(c) => c,
            None => DEFAULT_COLUMNS,
        };
        let max: usize = c.saturating_sub(1) as usize;
        LogOutput::Corner(truncate(msg, max))
    } else {
        LogOutput::Line(msg.to_owned())
    }
}

/// A beginning of a text is never wider than the text.
proof fn lemma_prefix_is_narrower(s: Seq<char>, n: int)
    requires
        0 <= n <= s.len(),
    ensures
        columns(s.take(n)) <= columns(s),
    decreases s.len() - n,
{
    if n == s.len() {
        assert(s.take(n) =~= s);
    } else {
        lemma_prefix_is_narrower(s, n + 1);
        assert(s.take(n + 1).drop_last() =~= s.take(n));
    }
}

/// There is one longest beginning that fits: no two texts are cut the same way differently.
pub proof fn law_truncation_is_unique(s: Seq<char>, max: nat, a: Seq<char>, b: Seq<char>)
    requires
        fitted(s, max, a),
        fitted(s, max, b),
    ensures
        a == b,
{
    let (short, long) = if a.len() <= b.len() {
        (a, b)
    } else {
        (b, a)
    };
    if short.len() < long.len() {
        assert(long =~= s.take(long.len() as int));
        lemma_prefix_is_narrower(long, short.len() as int + 1);
        assert(long.take(short.len() as int + 1) =~= s.take(short.len() as int + 1));
    }
    assert(a =~= s.take(a.len() as int));
    assert(b =~= s.take(b.len() as int));
}

/// A line that fits is not cut.
pub proof fn law_short_lines_are_whole(s: Seq<char>, max: nat, t: Seq<char>)
    requires
        columns(s) <= max,
        fitted(s, max, t),
    ensures
        t == s,
{
    if t.len() < s.len() {
        lemma_prefix_is_narrower(s, t.len() as int + 1);
    }
    assert(t =~= s.take(t.len() as int));
    assert(s.take(s.len() as int) =~= s);
}

/// Widths add up, character by character: a text of characters of one column is as wide as it is
/// long, and a control character takes nothing.
pub proof fn law_widths_add_up(a: Seq<char>, b: Seq<char>, c: char)
    ensures
        columns(a + b) == columns(a) + columns(b),
        columns(seq![c]) == (match char_columns(c) {
            Some(w) => w as nat,
            None => 0,
        }),
        columns(Seq::empty()) == 0,
    decreases b.len(),
{
    reveal_with_fuel(columns, 2);
    assert(seq![c].drop_last() =~= Seq::<char>::empty());
    if b.len() == 0 {
        assert(a + b =~= a);
    } else {
        law_widths_add_up(a, b.drop_last(), c);
        assert((a + b).drop_last() =~= a + b.drop_last());
    }
}

/// A line is cut only because more of it would not fit, and to a beginning of it.
pub proof fn law_what_is_cut(s: Seq<char>, max: nat, t: Seq<char>, n: int)
    requires
        fitted(s, max, t),
    ensures
        t.len() <= s.len() && t == s.take(t.len() as int),
        columns(t) <= max,
        t.len() < n <= s.len() ==> columns(s.take(n)) > max,
{
    assert(t =~= s.take(t.len() as int));
    if t.len() < n <= s.len() {
        let m = t.len() as int + 1;
        lemma_prefix_is_narrower(s.take(n), m);
        assert(s.take(n).take(m) =~= s.take(m));
    }
}

/// A line in the corner leaves one column of the screen free, and a screen of unknown width has 80.
pub proof fn law_width_of_the_corner(cols: u16)
    ensures
        corner_width(Some(cols)) == (if cols == 0 {
            0
        } else {
            cols - 1
        }),
        corner_width(None) == 79,
{
}

/// Nothing of a line is lost in its view.
pub proof fn law_views_hold_everything(text: String)
    ensures
        LogOutput::Line(text)@ == LogOutputView::Line(text@),
        LogOutput::Corner(text)@ == LogOutputView::Corner(text@),
{
}

/// What the calls about logs give and change: a line is cut only where it goes into the dialog's
/// screen.
pub proof fn law_calls_about_logs()
    ensures
        forall|msg: &str, max: usize, text: String| #[trigger]
            call_ensures(truncate, (msg, max), text) ==> fitted(msg@, max as nat, text@),
        forall|m: &mut LogSink, active: bool| #[trigger]
            call_ensures(set_tui_active, (m, active), ()) ==> final(m).tui_active() == active,
        forall|sink: LogSink| #[trigger]
            call_ensures(LogSink::new, (), sink) ==> !sink.tui_active(),
        forall|sink: &LogSink, terminal: bool, cols: Option<u16>, msg: &str, out: LogOutput| #[trigger]
            call_ensures(log_line, (sink, terminal, cols, msg), out) ==> {
                &&& !(sink.tui_active() && terminal) ==> out@ == LogOutputView::Line(msg@)
                &&& sink.tui_active() && terminal ==> (out@ matches LogOutputView::Corner(t) && fitted(
                    msg@,
                    corner_width(cols),
                    t,
                ))
            },
{
}

} // verus!
