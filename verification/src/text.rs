//! Text helpers shared by the other modules, stated over sequences of characters.
use vstd::prelude::*;

verus! {

/// `String::push` of std: the character is appended at the end of the string.
pub assume_specification[ String::push ](s: &mut String, c: char)
    ensures
        final(s)@ == old(s)@.push(c),
;

/// Whether `pattern` stands in `text` at position `at`.
pub open spec fn occurs_at(text: Seq<char>, pattern: Seq<char>, at: int) -> bool {
    &&& 0 <= at <= text.len() - pattern.len()
    &&& text.subrange(at, at + pattern.len()) == pattern
}

/// Whether `pattern` stands somewhere in `text`.
pub open spec fn occurs_in(text: Seq<char>, pattern: Seq<char>) -> bool {
    exists|at: int| occurs_at(text, pattern, at)
}

/// A line's content without the one carriage return that may stand before its line feed.
pub open spec fn without_carriage_return(line: Seq<char>) -> Seq<char> {
    if line.len() > 0 && line.last() == '\r' {
        line.drop_last()
    } else {
        line
    }
}

/// The lines of `text`: each ends at a line feed, or at a carriage return followed by one,
/// and the last line needs no ending.
pub open spec fn text_lines(text: Seq<char>) -> Seq<Seq<char>>
    decreases text.len(),
{
    if text.len() == 0 {
        Seq::empty()
    } else if text.contains('\n') {
        let end = text.index_of_first('\n')->Some_0;
        if 0 <= end < text.len() {
            seq![without_carriage_return(text.take(end))] + text_lines(text.skip(end + 1))
        } else {
            Seq::empty()
        }
    } else {
        seq![text]
    }
}

/// The characters of `s`, in order.
pub fn to_chars(s: &str) -> (out: Vec<char>)
    ensures
        out@ == s@,
{
    let mut out: Vec<char> = Vec::new();
    for c in it: s.chars()
        invariant
            out@ == it.seq().take(it.index() as int),
            it.seq() == s@,
    {
        out.push(c);
    }
    out
}

/// The text made of the characters of `chars`, in order.
pub fn from_chars(chars: &[char]) -> (out: String)
    ensures
        out@ == chars@,
{
    let mut out = String::new();
    for i in 0..chars.len()
        invariant
            out@ == chars@.take(i as int),
    {
        out.push(chars[i]);
        assert(out@ =~= chars@.take(i + 1));
    }
    assert(chars@.take(chars@.len() as int) =~= chars@);
    out
}

/// Whether two texts hold the same characters.
pub fn str_eq(a: &str, b: &str) -> (r: bool)
    ensures
        r == (a@ == b@),
{
    a.to_owned() == b.to_owned()
}

/// `a` followed by `b`.
pub fn join2(a: &str, b: &str) -> (out: String)
    ensures
        out@ == a@ + b@,
{
    a.to_owned().concat(b)
}

/// `a`, `b` and `c`, one after the other.
pub fn join3(a: &str, b: &str, c: &str) -> (out: String)
    ensures
        out@ == a@ + b@ + c@,
{
    a.to_owned().concat(b).concat(c)
}

/// Whether `pattern` stands in `chars` at position `at`.
fn matches_at(chars: &Vec<char>, pattern: &Vec<char>, at: usize) -> (r: bool)
    requires
        at + pattern@.len() <= chars@.len(),
    ensures
        r == occurs_at(chars@, pattern@, at as int),
{
    let n = pattern.len();
    let total = chars.len();
    for i in 0..n
        invariant
            n == pattern@.len(),
            total == chars@.len(),
            at + n <= total,
            forall|k: int| 0 <= k < i ==> chars@[at + k] == pattern@[k],
    {
        if chars[at + i] != pattern[i] {
            assert(chars@.subrange(at as int, at + n)[i as int] != pattern@[i as int]);
            return false;
        }
    }
    assert(chars@.subrange(at as int, at + n) =~= pattern@);
    true
}

/// Whether `pattern` stands somewhere in `text`.
pub fn contains(text: &str, pattern: &str) -> (r: bool)
    ensures
        r == occurs_in(text@, pattern@),
{
    let chars = to_chars(text);
    let pat = to_chars(pattern);
    if pat.len() > chars.len() {
        return false;
    }
    let last: usize = chars.len() - pat.len();
    let mut at: usize = 0;
    while at <= last
        invariant
            chars@ == text@,
            pat@ == pattern@,
            pat@.len() <= chars@.len(),
            last == chars@.len() - pat@.len(),
            at <= last + 1,
            forall|k: int| 0 <= k < at ==> !occurs_at(chars@, pat@, k),
        decreases last + 1 - at,
    {
        if matches_at(&chars, &pat, at) {
            return true;
        }
        if at == last {
            assert forall|k: int| !occurs_at(chars@, pat@, k) by {}
            return false;
        }
        at = at + 1;
    }
    false
}

/// What follows `prefix` in `text`, when `text` begins with it.
pub fn strip_prefix(text: &str, prefix: &str) -> (rest: Option<String>)
    ensures
        rest is Some <==> occurs_at(text@, prefix@, 0),
        rest matches Some(r) ==> text@ == prefix@ + r@,
{
    let chars = to_chars(text);
    let pat = to_chars(prefix);
    if pat.len() > chars.len() || !matches_at(&chars, &pat, 0) {
        return None;
    }
    let rest = text.substring_char(pat.len(), chars.len());
    assert(text@ =~= prefix@ + rest@);
    Some(rest.to_owned())
}

/// The lines of `text`.
pub fn lines(text: &str) -> (out: Vec<String>)
    ensures
        out@.len() == text_lines(text@).len(),
        forall|i: int| 0 <= i < out@.len() ==> (#[trigger] out@[i])@ == text_lines(text@)[i],
{
    let chars = to_chars(text);
    let n = chars.len();
    let mut out: Vec<String> = Vec::new();
    let ghost mut done: Seq<Seq<char>> = Seq::empty();
    let mut start: usize = 0;
    let mut i: usize = 0;
    assert(text@.skip(0) =~= text@);
    while i < n
        invariant
            n == chars@.len(),
            chars@ == text@,
            start <= i <= n,
            forall|k: int| start <= k < i ==> chars@[k] != '\n',
            out@.len() == done.len(),
            forall|k: int| 0 <= k < out@.len() ==> (#[trigger] out@[k])@ == done[k],
            text_lines(text@) == done + text_lines(text@.skip(start as int)),
        decreases n - i,
    {
        if chars[i] == '\n' {
            let ghost rest = text@.skip(start as int);
            let ghost len = i - start;
            let end: usize = if i > start && chars[i - 1] == '\r' { i - 1 } else { i };
            out.push(text.substring_char(start, end).to_owned());
            proof {
                assert(rest[len] == '\n');
                assert(rest.contains('\n'));
                rest.index_of_first_ensures('\n');
                let e = rest.index_of_first('\n')->Some_0;
                assert(e == len) by {
                    if e < len {
                        assert(rest[e] == chars@[start + e]);
                    }
                }
                assert(rest.take(len) =~= text@.subrange(start as int, i as int));
                let line = without_carriage_return(rest.take(len));
                assert(line =~= text@.subrange(start as int, end as int));
                assert(rest.skip(len + 1) =~= text@.skip(i + 1));
                assert(text_lines(rest) == seq![line] + text_lines(rest.skip(len + 1)));
                let before = done;
                done = done.push(line);
                assert(before + (seq![line] + text_lines(text@.skip(i + 1))) =~= done
                    + text_lines(text@.skip(i + 1)));
            }
            start = i + 1;
        }
        i = i + 1;
    }
    if start < n {
        out.push(text.substring_char(start, n).to_owned());
        proof {
            let rest = text@.skip(start as int);
            assert(!rest.contains('\n')) by {
                assert forall|k: int| 0 <= k < rest.len() implies rest[k] != '\n' by {
                    assert(rest[k] == chars@[start + k]);
                }
            }
            assert(rest =~= text@.subrange(start as int, n as int));
            done = done.push(rest);
        }
    }
    proof {
        assert(start == n ==> text@.skip(start as int).len() == 0);
        assert(text_lines(text@) =~= done);
    }
    out
}

/// A pattern stands in a text exactly when the text is something, the pattern, and something.
pub proof fn law_occurrences(before: Seq<char>, pattern: Seq<char>, after: Seq<char>, text: Seq<char>)
    ensures
        occurs_at(before + pattern + after, pattern, before.len() as int),
        occurs_in(before + pattern + after, pattern),
        occurs_in(text, pattern) ==> exists|a: Seq<char>, b: Seq<char>|
            text == #[trigger] (a + pattern + b),
        forall|at: int| #[trigger]
            occurs_at(text, pattern, at) ==> text == text.take(at) + pattern + text.skip(
                at + pattern.len(),
            ),
{
    let all = before + pattern + after;
    let at = before.len() as int;
    assert(all.subrange(at, at + pattern.len()) =~= pattern);
    assert(occurs_at(all, pattern, at));
    assert forall|at: int| #[trigger] occurs_at(text, pattern, at) implies text == text.take(at)
        + pattern + text.skip(at + pattern.len()) by {
        assert forall|i: int| 0 <= i < pattern.len() implies pattern[i] == #[trigger] text[at + i] by {
            assert(text.subrange(at, at + pattern.len())[i] == text[at + i]);
        }
        assert(text =~= text.take(at) + pattern + text.skip(at + pattern.len()));
    }
    if occurs_in(text, pattern) {
        let at = choose|at: int| occurs_at(text, pattern, at);
        assert(text == text.take(at) + pattern + text.skip(at + pattern.len()));
    }
}

/// A line, its ending and the rest of a text are that line and the lines of the rest; a last line
/// needs no ending, and no text has no lines. An ending is a line feed, or a carriage return and a
/// line feed.
pub proof fn law_line_by_line(line: Seq<char>, rest: Seq<char>)
    requires
        !line.contains('\n'),
    ensures
        text_lines(Seq::empty()) == Seq::<Seq<char>>::empty(),
        line.len() > 0 ==> text_lines(line) == seq![line],
        (line.len() == 0 || line.last() != '\r') ==> text_lines(line + seq!['\n'] + rest) == seq![line]
            + text_lines(rest),
        text_lines(line + seq!['\r', '\n'] + rest) == seq![line] + text_lines(rest),
{
    let a = line + seq!['\n'] + rest;
    lemma_first_line(a, line, rest);
    let cr = line.push('\r');
    assert(!cr.contains('\n')) by {
        if cr.contains('\n') {
            let k = cr.index_of('\n');
            assert(line[k] == '\n');
        }
    }
    let b = line + seq!['\r', '\n'] + rest;
    assert(b =~= cr + seq!['\n'] + rest);
    lemma_first_line(b, cr, rest);
    assert(cr.drop_last() =~= line);
}

/// What comes before the first line feed is the first line.
proof fn lemma_first_line(text: Seq<char>, line: Seq<char>, rest: Seq<char>)
    requires
        !line.contains('\n'),
        text == line + seq!['\n'] + rest,
    ensures
        text_lines(text) == seq![without_carriage_return(line)] + text_lines(rest),
{
    assert(text[line.len() as int] == '\n');
    assert(text.contains('\n'));
    text.index_of_first_ensures('\n');
    let end = text.index_of_first('\n')->Some_0;
    if end < line.len() {
        assert(line[end] == '\n');
    }
    assert(end == line.len());
    assert(text.take(end) =~= line);
    assert(text.skip(end + 1) =~= rest);
}

/// What the calls about texts give.
pub proof fn law_calls_about_texts()
    ensures
        forall|s: &str, out: Vec<char>| #[trigger] call_ensures(to_chars, (s,), out) ==> out@ == s@,
        forall|chars: &[char], out: String| #[trigger]
            call_ensures(from_chars, (chars,), out) ==> out@ == chars@,
        forall|a: &str, b: &str, r: bool| #[trigger]
            call_ensures(str_eq, (a, b), r) ==> (r <==> a@ == b@),
        forall|a: &str, b: &str, out: String| #[trigger]
            call_ensures(join2, (a, b), out) ==> out@ == a@ + b@,
        forall|a: &str, b: &str, c: &str, out: String| #[trigger]
            call_ensures(join3, (a, b, c), out) ==> out@ == a@ + b@ + c@,
        forall|text: &str, pattern: &str, r: bool| #[trigger]
            call_ensures(contains, (text, pattern), r) ==> (r <==> occurs_in(text@, pattern@)),
        forall|text: &str, prefix: &str, rest: Option<String>| #[trigger]
            call_ensures(strip_prefix, (text, prefix), rest) ==> {
                &&& rest is Some <==> occurs_at(text@, prefix@, 0)
                &&& rest is Some ==> text@ == prefix@ + rest->Some_0@
            },
        forall|text: &str, out: Vec<String>, i: int|
            #![trigger call_ensures(lines, (text,), out), out@[i]]
            call_ensures(lines, (text,), out) ==> out@.len() == text_lines(text@).len() && (0 <= i
                < out@.len() ==> out@[i]@ == text_lines(text@)[i]),
{
}

} // verus!
