//! Text and path helpers shared by the rest of the library.
use vstd::prelude::*;

use crate::tasks::TaskError;

verus! {

/// `s` with every trailing occurrence of `c` removed.
pub open spec fn trim_end_char(s: Seq<char>, c: char) -> Seq<char>
    decreases s.len(),
{
    if s.len() > 0 && s.last() == c {
        trim_end_char(s.drop_last(), c)
    } else {
        s
    }
}

/// `s` with every leading occurrence of `c` removed.
pub open spec fn trim_start_char(s: Seq<char>, c: char) -> Seq<char>
    decreases s.len(),
{
    if s.len() > 0 && s[0] == c {
        trim_start_char(s.subrange(1, s.len() as int), c)
    } else {
        s
    }
}

/// Whether `c` is whitespace as `char::is_whitespace` defines it: the
/// characters with the Unicode property White_Space.
pub open spec fn is_white_space(c: char) -> bool {
    ||| c == '\u{9}'
    ||| c == '\u{a}'
    ||| c == '\u{b}'
    ||| c == '\u{c}'
    ||| c == '\u{d}'
    ||| c == '\u{20}'
    ||| c == '\u{85}'
    ||| c == '\u{a0}'
    ||| c == '\u{1680}'
    ||| c == '\u{2000}'
    ||| c == '\u{2001}'
    ||| c == '\u{2002}'
    ||| c == '\u{2003}'
    ||| c == '\u{2004}'
    ||| c == '\u{2005}'
    ||| c == '\u{2006}'
    ||| c == '\u{2007}'
    ||| c == '\u{2008}'
    ||| c == '\u{2009}'
    ||| c == '\u{200a}'
    ||| c == '\u{2028}'
    ||| c == '\u{2029}'
    ||| c == '\u{202f}'
    ||| c == '\u{205f}'
    ||| c == '\u{3000}'
}

/// `s` without trailing whitespace.
pub open spec fn trim_white_end(s: Seq<char>) -> Seq<char>
    decreases s.len(),
{
    if s.len() > 0 && is_white_space(s.last()) {
        trim_white_end(s.drop_last())
    } else {
        s
    }
}

/// `s` without leading whitespace.
pub open spec fn trim_white_start(s: Seq<char>) -> Seq<char>
    decreases s.len(),
{
    if s.len() > 0 && is_white_space(s[0]) {
        trim_white_start(s.drop_first())
    } else {
        s
    }
}

/// What `str::trim` leaves of a text: the text without leading and trailing
/// whitespace.
pub open spec fn trimmed(s: Seq<char>) -> Seq<char> {
    trim_white_start(trim_white_end(s))
}

/// Relies on `str::trim`, which removes leading and trailing whitespace.
#[verifier::external_body]
pub(crate) fn trim_text(s: &str) -> (r: String)
    ensures
        r@ == trimmed(s@),
{
    s.trim().to_string()
}

/// Two path fragments joined by exactly one separator at the seam.
pub open spec fn joined(a: Seq<char>, b: Seq<char>) -> Seq<char> {
    trim_end_char(a, '/') + seq!['/'] + trim_start_char(b, '/')
}

/// Whether two strings hold the same characters.
pub fn same_text(a: &str, b: &str) -> (r: bool)
    ensures
        r == (a@ == b@),
{
    let n = a.unicode_len();
    if n != b.unicode_len() {
        return false;
    }
    let mut i: usize = 0;
    while i < n
        invariant
            n == a@.len(),
            n == b@.len(),
            i <= n,
            a@.subrange(0, i as int) == b@.subrange(0, i as int),
        decreases n - i,
    {
        if a.get_char(i) != b.get_char(i) {
            return false;
        }
        assert(a@.subrange(0, i + 1) == a@.subrange(0, i as int).push(a@[i as int]));
        assert(b@.subrange(0, i + 1) == b@.subrange(0, i as int).push(b@[i as int]));
        i = i + 1;
    }
    assert(a@ == a@.subrange(0, n as int));
    assert(b@ == b@.subrange(0, n as int));
    true
}

/// Joins two path fragments: trailing `/` of `a` and leading `/` of `b` are
/// dropped and a single `/` is put between them.
pub fn join_paths(a: &str, b: &str) -> (r: String)
    ensures
        r@ == joined(a@, b@),
{
    let mut end = a.unicode_len();
    assert(a@.subrange(0, end as int) == a@);
    while end > 0 && a.get_char(end - 1) == '/'
        invariant
            end <= a@.len(),
            trim_end_char(a@.subrange(0, end as int), '/') == trim_end_char(a@, '/'),
        decreases end,
    {
        assert(a@.subrange(0, end as int).drop_last() == a@.subrange(0, end - 1));
        end = end - 1;
    }
    assert(trim_end_char(a@.subrange(0, end as int), '/') == a@.subrange(0, end as int));
    let n = b.unicode_len();
    let mut start: usize = 0;
    assert(b@.subrange(0, n as int) == b@);
    while start < n && b.get_char(start) == '/'
        invariant
            n == b@.len(),
            start <= n,
            trim_start_char(b@.subrange(start as int, n as int), '/') == trim_start_char(b@, '/'),
        decreases n - start,
    {
        assert(b@.subrange(start as int, n as int).subrange(1, n - start) == b@.subrange(start + 1, n as int));
        start = start + 1;
    }
    assert(trim_start_char(b@.subrange(start as int, n as int), '/') == b@.subrange(start as int, n as int));
    let mut r = String::from_str(a.substring_char(0, end));
    proof {
        reveal_strlit("/");
    }
    r.append("/");
    r.append(b.substring_char(start, n));
    r
}


/// `line` without the carriage return that ends it, if any.
pub open spec fn without_cr(line: Seq<char>) -> Seq<char> {
    if line.len() > 0 && line.last() == '\r' {
        line.drop_last()
    } else {
        line
    }
}

/// The lines of `s` after a line begun with `cur`: a line feed ends a line
/// (and a carriage return just before it is dropped); a last line without a
/// line feed counts where it is not empty.
pub open spec fn lines_from(s: Seq<char>, cur: Seq<char>) -> Seq<Seq<char>>
    decreases s.len(),
{
    if s.len() == 0 {
        if cur.len() > 0 {
            seq![cur]
        } else {
            Seq::empty()
        }
    } else if s[0] == '\n' {
        seq![without_cr(cur)] + lines_from(s.drop_first(), Seq::empty())
    } else {
        lines_from(s.drop_first(), cur.push(s[0]))
    }
}

/// The lines of a text as `str::lines` yields them: split at `\n` or `\r\n`,
/// with no empty line after a final line ending.
pub open spec fn lines_of(s: Seq<char>) -> Seq<Seq<char>> {
    lines_from(s, Seq::empty())
}

/// Relies on `str::lines`: the lines of `s`.
#[verifier::external_body]
pub(crate) fn text_lines(s: &str) -> (r: Vec<String>)
    ensures
        r@.len() == lines_of(s@).len(),
        forall|i: int| 0 <= i < r@.len() ==> #[trigger] r@[i]@ == lines_of(s@)[i],
{
    s.lines().map(|l| l.to_string()).collect()
}

/// Lines joined back into one text, with a line feed between each two.
pub open spec fn joined_lines(ls: Seq<Seq<char>>) -> Seq<char>
    decreases ls.len(),
{
    if ls.len() == 0 {
        Seq::empty()
    } else if ls.len() == 1 {
        ls[0]
    } else {
        joined_lines(ls.drop_last()) + seq!['\n'] + ls.last()
    }
}

/// Whether `text` holds `line` as one of its lines.
pub fn contains_line(text: &str, line: &str) -> (r: bool)
    ensures
        r == lines_of(text@).contains(line@),
{
    let lines = text_lines(text);
    let mut i: usize = 0;
    while i < lines.len()
        invariant
            i <= lines@.len(),
            lines@.len() == lines_of(text@).len(),
            forall|k: int| 0 <= k < lines@.len() ==> #[trigger] lines@[k]@ == lines_of(text@)[k],
            forall|k: int| 0 <= k < i ==> lines_of(text@)[k] != line@,
        decreases lines.len() - i,
    {
        if same_text(lines[i].as_str(), line) {
            assert(lines_of(text@)[i as int] == line@);
            return true;
        }
        i = i + 1;
    }
    assert(!lines_of(text@).contains(line@));
    false
}

/// Whether the regular expression `pattern` is accepted by the regex crate.
pub uninterp spec fn regex_valid(pattern: Seq<char>) -> bool;

/// Whether the regular expression `pattern` matches somewhere in `text`.
pub uninterp spec fn regex_matches(pattern: Seq<char>, text: Seq<char>) -> bool;

/// `text` with the leftmost-first match of `pattern` replaced by `rep`, in
/// which `$N` and `$name` stand for capture groups.
pub uninterp spec fn regex_replaced(pattern: Seq<char>, text: Seq<char>, rep: Seq<char>) -> Seq<
    char,
>;

#[verifier::external_type_specification]
#[verifier::external_body]
pub struct ExRegex(regex::Regex);

#[verifier::external_type_specification]
#[verifier::external_body]
pub struct ExRegexError(regex::Error);

/// Relies on `regex::Regex::new`: compiles `pattern`, or fails when the
/// pattern is not a valid regular expression.
#[verifier::external_body]
fn compile_regex(pattern: &str) -> (r: Result<regex::Regex, regex::Error>)
    ensures
        r is Ok <==> regex_valid(pattern@),
{
    regex::Regex::new(pattern)
}

/// A compiled regular expression, applied line by line.
pub struct LinePattern {
    source: String,
    compiled: regex::Regex,
}

impl LinePattern {
    /// The pattern's text.
    pub closed spec fn view(&self) -> Seq<char> {
        self.source@
    }

    /// Compiles `pattern`; fails exactly when it is not a valid regular
    /// expression.
    pub fn new(pattern: &str) -> (r: Result<LinePattern, TaskError>)
        ensures
            r is Ok <==> regex_valid(pattern@),
            r matches Ok(p) ==> p@ == pattern@,
            r matches Err(e) ==> e.message@ == "invalid regular expression: "@ + pattern@,
    {
        match compile_regex(pattern) {
            Ok(compiled) => Ok(LinePattern { source: String::from_str(pattern), compiled }),
            Err(_) => {
                let mut m = String::from_str("invalid regular expression: ");
                m.append(pattern);
                Err(TaskError { message: m })
            },
        }
    }

    /// Relies on `regex::Regex::is_match`: whether the pattern matches
    /// somewhere in `text`.
    #[verifier::external_body]
    pub(crate) fn is_match(&self, text: &str) -> (r: bool)
        ensures
            r == regex_matches(self@, text@),
    {
        self.compiled.is_match(text)
    }

    /// Relies on `regex::Regex::replace`: the leftmost-first match replaced by
    /// `rep`; the text unchanged where nothing matches.
    #[verifier::external_body]
    fn replace_first(&self, text: &str, rep: &str) -> (r: String)
        ensures
            r@ == regex_replaced(self@, text@, rep@),
            !regex_matches(self@, text@) ==> r@ == text@,
    {
        self.compiled.replace(text, rep).into_owned()
    }
}

/// A line after [`replace_lines`]: rewritten where the pattern matches.
pub open spec fn replaced_line(pattern: Seq<char>, line: Seq<char>, rep: Seq<char>) -> Seq<char> {
    if regex_matches(pattern, line) {
        regex_replaced(pattern, line, rep)
    } else {
        line
    }
}

/// The lines of `text`, each rewritten where `pattern` matches it.
pub open spec fn rewritten_lines(text: Seq<char>, pattern: Seq<char>, rep: Seq<char>) -> Seq<
    Seq<char>,
> {
    lines_of(text).map_values(|l: Seq<char>| replaced_line(pattern, l, rep))
}

/// Rewrites every line of `text` that `pattern` matches, replacing the
/// first match with `rep`, and joins the lines with line feeds.
pub fn replace_lines(text: &str, pattern: &LinePattern, rep: &str) -> (r: String)
    ensures
        r@ == joined_lines(rewritten_lines(text@, pattern@, rep@)),
{
    let lines = text_lines(text);
    let ghost want = rewritten_lines(text@, pattern@, rep@);
    let mut r = String::new();
    let mut i: usize = 0;
    while i < lines.len()
        invariant
            i <= lines@.len(),
            lines@.len() == lines_of(text@).len(),
            want.len() == lines@.len(),
            forall|k: int| 0 <= k < lines@.len() ==> #[trigger] lines@[k]@ == lines_of(text@)[k],
            want == rewritten_lines(text@, pattern@, rep@),
            r@ == joined_lines(want.subrange(0, i as int)),
        decreases lines.len() - i,
    {
        let line = lines[i].as_str();
        let new_line = if pattern.is_match(line) {
            pattern.replace_first(line, rep)
        } else {
            String::from_str(line)
        };
        assert(new_line@ == want[i as int]);
        assert(want.subrange(0, i + 1).drop_last() == want.subrange(0, i as int));
        if i > 0 {
            proof {
                reveal_strlit("\n");
            }
            r.append("\n");
        } else {
            assert(want.subrange(0, 1) == seq![want[0]]);
        }
        r.append(new_line.as_str());
        i = i + 1;
    }
    assert(want.subrange(0, i as int) == want);
    r
}


/// The texts held by a list of strings.
pub open spec fn texts(v: Seq<String>) -> Seq<Seq<char>> {
    v.map_values(|s: String| s@)
}

/// Whether `s` begins with `prefix`.
pub open spec fn has_prefix(s: Seq<char>, prefix: Seq<char>) -> bool {
    prefix.len() <= s.len() && s.subrange(0, prefix.len() as int) == prefix
}

/// Whether `s` begins with `prefix`.
pub fn starts_with(s: &str, prefix: &str) -> (r: bool)
    ensures
        r == has_prefix(s@, prefix@),
{
    let n = prefix.unicode_len();
    if n > s.unicode_len() {
        return false;
    }
    same_text(s.substring_char(0, n), prefix)
}


/// The part of `s` before the first `c` (all of `s` when there is none).
pub open spec fn before_char(s: Seq<char>, c: char) -> Seq<char>
    decreases s.len(),
{
    if s.len() == 0 {
        s
    } else if s[0] == c {
        Seq::empty()
    } else {
        seq![s[0]] + before_char(s.drop_first(), c)
    }
}

/// The part of `s` after the first `c`, if there is one.
pub open spec fn after_char(s: Seq<char>, c: char) -> Option<Seq<char>>
    decreases s.len(),
{
    if s.len() == 0 {
        None
    } else if s[0] == c {
        Some(s.drop_first())
    } else {
        after_char(s.drop_first(), c)
    }
}

/// The position of the first `c` in `s` at or after `from`, or the length of
/// `s` when there is none.
fn find_char(s: &str, c: char, from: usize) -> (r: usize)
    requires
        from <= s@.len(),
    ensures
        from <= r <= s@.len(),
        r < s@.len() ==> s@[r as int] == c,
        after_char(s@.subrange(from as int, s@.len() as int), c) == if r < s@.len() {
            Some(s@.subrange(r + 1, s@.len() as int))
        } else {
            None::<Seq<char>>
        },
        before_char(s@.subrange(from as int, s@.len() as int), c) == s@.subrange(
            from as int,
            r as int,
        ),
{
    let n = s.unicode_len();
    let mut i = from;
    while i < n && s.get_char(i) != c
        invariant
            n == s@.len(),
            from <= i <= n,
            forall|k: int| from <= k < i ==> s@[k] != c,
        decreases n - i,
    {
        i = i + 1;
    }
    proof {
        lemma_scan_char(s@, c, from as int, i as int);
    }
    i
}

proof fn lemma_scan_char(s: Seq<char>, c: char, from: int, to: int)
    requires
        0 <= from <= to <= s.len(),
        forall|k: int| from <= k < to ==> s[k] != c,
        to < s.len() ==> s[to] == c,
    ensures
        after_char(s.subrange(from, s.len() as int), c) == if to < s.len() {
            Some(s.subrange(to + 1, s.len() as int))
        } else {
            None::<Seq<char>>
        },
        before_char(s.subrange(from, s.len() as int), c) == s.subrange(from, to),
    decreases to - from,
{
    let t = s.subrange(from, s.len() as int);
    if from < to {
        lemma_scan_char(s, c, from + 1, to);
        assert(t.drop_first() == s.subrange(from + 1, s.len() as int));
        assert(s.subrange(from, to) == seq![s[from]] + s.subrange(from + 1, to));
    } else if to < s.len() {
        assert(t.drop_first() == s.subrange(to + 1, s.len() as int));
    }
}

/// Piece `k` (from 0) of `s` split at every `c`, if `s` has that many.
pub open spec fn piece(s: Seq<char>, c: char, k: nat) -> Option<Seq<char>>
    decreases k,
{
    if k == 0 {
        Some(before_char(s, c))
    } else {
        match after_char(s, c) {
            Some(rest) => piece(rest, c, (k - 1) as nat),
            None => None,
        }
    }
}

/// Piece `k` (from 0) of `s` split at every `c`, as `s.split(c).nth(k)`.
pub fn nth_piece(s: &str, c: char, k: usize) -> (r: Option<String>)
    ensures
        r matches Some(p) ==> piece(s@, c, k as nat) == Some(p@),
        r is None ==> piece(s@, c, k as nat) is None,
{
    let n = s.unicode_len();
    assert(s@.subrange(0, n as int) == s@);
    let mut start: usize = 0;
    let mut j: usize = 0;
    while j < k
        invariant
            n == s@.len(),
            start <= n,
            j <= k,
            piece(s@, c, k as nat) == piece(s@.subrange(start as int, n as int), c, (k - j) as nat),
        decreases k - j,
    {
        let e = find_char(s, c, start);
        if e == n {
            return None;
        }
        start = e + 1;
        j = j + 1;
    }
    let end = find_char(s, c, start);
    Some(String::from_str(s.substring_char(start, end)))
}

/// The words of `s` after a word begun with `cur`: maximal runs of
/// characters that are not whitespace.
pub open spec fn words_from(s: Seq<char>, cur: Seq<char>) -> Seq<Seq<char>>
    decreases s.len(),
{
    let done: Seq<Seq<char>> = if cur.len() > 0 {
        seq![cur]
    } else {
        Seq::empty()
    };
    if s.len() == 0 {
        done
    } else if is_white_space(s[0]) {
        done + words_from(s.drop_first(), Seq::empty())
    } else {
        words_from(s.drop_first(), cur.push(s[0]))
    }
}

/// The words of a text as `str::split_whitespace` yields them.
pub open spec fn words_of(s: Seq<char>) -> Seq<Seq<char>> {
    words_from(s, Seq::empty())
}

/// Relies on `str::split_whitespace`: the words of `s`, split at runs of
/// whitespace.
#[verifier::external_body]
pub(crate) fn text_words(s: &str) -> (r: Vec<String>)
    ensures
        texts(r@) == words_of(s@),
{
    s.split_whitespace().map(|w| w.to_string()).collect()
}

/// `s` with `to` before each of its characters and at its end: what
/// replacing the empty text makes of it.
pub open spec fn interleaved(s: Seq<char>, to: Seq<char>) -> Seq<char>
    decreases s.len(),
{
    if s.len() == 0 {
        to
    } else {
        to + seq![s[0]] + interleaved(s.drop_first(), to)
    }
}

/// `s` with the occurrences of the non-empty `from` replaced by `to`, taken
/// from the left and without overlap.
pub open spec fn replaced_from_left(s: Seq<char>, from: Seq<char>, to: Seq<char>) -> Seq<char>
    decreases s.len(),
{
    if s.len() == 0 || s.len() < from.len() {
        s
    } else if from.len() > 0 && s.subrange(0, from.len() as int) == from {
        to + replaced_from_left(s.subrange(from.len() as int, s.len() as int), from, to)
    } else {
        seq![s[0]] + replaced_from_left(s.drop_first(), from, to)
    }
}

/// What `str::replace` makes of `s`: every occurrence of `from` replaced by
/// `to`.
pub open spec fn replaced_all(s: Seq<char>, from: Seq<char>, to: Seq<char>) -> Seq<char> {
    if from.len() == 0 {
        interleaved(s, to)
    } else {
        replaced_from_left(s, from, to)
    }
}

/// Relies on `str::replace`: replaces all matches of `from` with `to`.
#[verifier::external_body]
pub(crate) fn replace_all(s: &str, from: &str, to: &str) -> (r: String)
    ensures
        r@ == replaced_all(s@, from@, to@),
{
    s.replace(from, to)
}

/// Whether `s` ends with `suffix`.
pub open spec fn has_suffix(s: Seq<char>, suffix: Seq<char>) -> bool {
    suffix.len() <= s.len() && s.subrange(s.len() - suffix.len(), s.len() as int) == suffix
}

/// Whether `s` ends with `suffix`.
pub fn ends_with(s: &str, suffix: &str) -> (r: bool)
    ensures
        r == has_suffix(s@, suffix@),
{
    let n = suffix.unicode_len();
    let m = s.unicode_len();
    if n > m {
        return false;
    }
    same_text(s.substring_char(m - n, m), suffix)
}


/// What `str::to_lowercase` makes of a text.
pub uninterp spec fn lower_of(s: Seq<char>) -> Seq<char>;

/// Relies on `str::to_lowercase`: the lowercase equivalent of `s`; the result
/// depends on the characters alone.
#[verifier::external_body]
pub(crate) fn lowercase(s: &str) -> (r: String)
    ensures
        r@ == lower_of(s@),
{
    s.to_lowercase()
}

/// Reads a yes/no answer in any letter case: `Some(true)` for `y`,
/// `Some(false)` for `n`, `None` for anything else.
pub fn confirmation(answer: &str) -> (r: Option<bool>)
    ensures
        r == if lower_of(answer@) == "y"@ {
            Some(true)
        } else if lower_of(answer@) == "n"@ {
            Some(false)
        } else {
            None::<bool>
        },
{
    let a = lowercase(answer);
    if same_text(a.as_str(), "y") {
        Some(true)
    } else if same_text(a.as_str(), "n") {
        Some(false)
    } else {
        None
    }
}

} // verus!
