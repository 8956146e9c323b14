//! Searching and trimming text, viewed as a sequence of characters.

use crate::std_specs::is_white_space;
use vstd::prelude::*;

verus! {

/// Whether `pattern` stands in `text` starting at position `at`.
pub open spec fn occurs_at(text: Seq<char>, pattern: Seq<char>, at: int) -> bool {
    &&& 0 <= at
    &&& at + pattern.len() <= text.len()
    &&& text.subrange(at, at + pattern.len()) == pattern
}

/// The first position at or after `from` where `pattern` stands in `text`.
pub open spec fn first_occurrence_from(text: Seq<char>, pattern: Seq<char>, from: int) -> Option<
    int,
>
    decreases text.len() + 1 - from,
{
    if from < 0 || from + pattern.len() > text.len() {
        None
    } else if occurs_at(text, pattern, from) {
        Some(from)
    } else {
        first_occurrence_from(text, pattern, from + 1)
    }
}

/// The first position where `pattern` stands in `text`, if it stands anywhere.
pub open spec fn first_occurrence(text: Seq<char>, pattern: Seq<char>) -> Option<int> {
    first_occurrence_from(text, pattern, 0)
}

/// Whether `pattern` stands somewhere in `text`.
pub open spec fn contains_text(text: Seq<char>, pattern: Seq<char>) -> bool {
    first_occurrence(text, pattern) is Some
}

/// A search from `from` finds the least position at or after `from` where the
/// pattern stands, and finds none only where there is none.
pub proof fn lemma_first_occurrence_from(text: Seq<char>, pattern: Seq<char>, from: int)
    requires
        0 <= from,
    ensures
        match first_occurrence_from(text, pattern, from) {
            Some(at) => {
                &&& from <= at
                &&& occurs_at(text, pattern, at)
                &&& forall|j: int| from <= j < at ==> !occurs_at(text, pattern, j)
            },
            None => forall|j: int| from <= j ==> !occurs_at(text, pattern, j),
        },
    decreases text.len() + 1 - from,
{
    if from + pattern.len() <= text.len() && !occurs_at(text, pattern, from) {
        lemma_first_occurrence_from(text, pattern, from + 1);
    }
}

/// `first_occurrence` is the least position where the pattern stands, and is
/// `None` exactly where the pattern stands nowhere.
pub proof fn lemma_first_occurrence(text: Seq<char>, pattern: Seq<char>)
    ensures
        match first_occurrence(text, pattern) {
            Some(at) => {
                &&& occurs_at(text, pattern, at)
                &&& forall|j: int| j < at ==> !occurs_at(text, pattern, j)
            },
            None => forall|j: int| !occurs_at(text, pattern, j),
        },
{
    lemma_first_occurrence_from(text, pattern, 0);
}

/// The characters of `s`, one element each.
pub fn chars_of(s: &str) -> (chars: Vec<char>)
    ensures
        chars@ == s@,
{
    let mut chars: Vec<char> = Vec::new();
    for c in it: s.chars()
        invariant
            it.seq() == s@,
            chars@ == it.seq().take(it.index()),
    {
        chars.push(c);
    }
    chars
}

/// Whether `pattern` stands in `text` at position `at`.
pub fn matches_at(text: &Vec<char>, pattern: &Vec<char>, at: usize) -> (r: bool)
    ensures
        r == occurs_at(text@, pattern@, at as int),
{
    if pattern.len() > text.len() || at > text.len() - pattern.len() {
        return false;
    }
    let mut k: usize = 0;
    while k < pattern.len()
        invariant
            k <= pattern.len(),
            at + pattern.len() <= text.len(),
            forall|j: int| 0 <= j < k ==> text[at + j] == pattern[j],
        decreases pattern.len() - k,
    {
        if text[at + k] != pattern[k] {
            return false;
        }
        k += 1;
    }
    assert(text@.subrange(at as int, at + pattern.len()) =~= pattern@);
    true
}

/// The first position where `pattern` stands in `text`: it stands there and
/// nowhere before. `None` means that it stands nowhere.
pub fn find(text: &Vec<char>, pattern: &Vec<char>) -> (r: Option<usize>)
    ensures
        match r {
            Some(at) => {
                &&& first_occurrence(text@, pattern@) == Some(at as int)
                &&& occurs_at(text@, pattern@, at as int)
                &&& forall|j: int| j < at ==> !occurs_at(text@, pattern@, j)
            },
            None => {
                &&& first_occurrence(text@, pattern@) is None
                &&& forall|j: int| !occurs_at(text@, pattern@, j)
            },
        },
{
    proof {
        lemma_first_occurrence(text@, pattern@);
    }
    if pattern.len() > text.len() {
        return None;
    }
    let last: usize = text.len() - pattern.len();
    let mut at: usize = 0;
    loop
        invariant
            last == text.len() - pattern.len(),
            at <= last,
            first_occurrence(text@, pattern@) == first_occurrence_from(text@, pattern@, at as int),
        decreases last - at,
    {
        proof {
            lemma_first_occurrence(text@, pattern@);
        }
        if matches_at(text, pattern, at) {
            return Some(at);
        }
        if at == last {
            assert(first_occurrence_from(text@, pattern@, at + 1) is None);
            return None;
        }
        at += 1;
    }
}

/// `text` without the white space at its start.
pub open spec fn trim_start(text: Seq<char>) -> Seq<char>
    decreases text.len(),
{
    if text.len() > 0 && is_white_space(text.first()) {
        trim_start(text.drop_first())
    } else {
        text
    }
}

/// `text` without the white space at its end.
pub open spec fn trim_end(text: Seq<char>) -> Seq<char>
    decreases text.len(),
{
    if text.len() > 0 && is_white_space(text.last()) {
        trim_end(text.drop_last())
    } else {
        text
    }
}

/// `text` without the white space at either end.
pub open spec fn trimmed(text: Seq<char>) -> Seq<char> {
    trim_end(trim_start(text))
}

/// What trimming leaves is a stretch of the text with only white space before
/// and after it, and with none at its own two ends.
pub proof fn lemma_trimmed(text: Seq<char>)
    ensures
        exists|a: int, b: int|
            {
                &&& 0 <= a <= b <= text.len()
                &&& #[trigger] text.subrange(a, b) == trimmed(text)
                &&& forall|i: int| 0 <= i < a ==> is_white_space(text[i])
                &&& forall|i: int| b <= i < text.len() ==> is_white_space(text[i])
                &&& a < b ==> !is_white_space(text[a]) && !is_white_space(text[b - 1])
            },
{
    let a = lemma_trim_start(text);
    let rest = text.subrange(a, text.len() as int);
    let n = lemma_trim_end(rest);
    let b = a + n;
    assert(text.subrange(a, b) =~= rest.subrange(0, n));
    assert forall|i: int| b <= i < text.len() implies is_white_space(text[i]) by {
        assert(text[i] == rest[i - a]);
    }
}

/// The number of characters that `trim_start` removes.
proof fn lemma_trim_start(text: Seq<char>) -> (a: int)
    ensures
        0 <= a <= text.len(),
        trim_start(text) == text.subrange(a, text.len() as int),
        forall|i: int| 0 <= i < a ==> is_white_space(text[i]),
        a < text.len() ==> !is_white_space(text[a]),
    decreases text.len(),
{
    if text.len() > 0 && is_white_space(text.first()) {
        let rest = text.drop_first();
        let a = lemma_trim_start(rest);
        assert forall|i: int| 0 <= i < a + 1 implies is_white_space(text[i]) by {
            if i > 0 {
                assert(text[i] == rest[i - 1]);
            }
        }
        a + 1
    } else {
        0
    }
}

/// The number of characters that `trim_end` keeps.
proof fn lemma_trim_end(text: Seq<char>) -> (b: int)
    ensures
        0 <= b <= text.len(),
        trim_end(text) == text.subrange(0, b),
        forall|i: int| b <= i < text.len() ==> is_white_space(text[i]),
        0 < b ==> !is_white_space(text[b - 1]),
    decreases text.len(),
{
    if text.len() > 0 && is_white_space(text.last()) {
        let rest = text.drop_last();
        let b = lemma_trim_end(rest);
        assert forall|i: int| b <= i < text.len() implies is_white_space(text[i]) by {
            if i < rest.len() {
                assert(text[i] == rest[i]);
            }
        }
        b
    } else {
        text.len() as int
    }
}

/// The bounds of what trimming leaves of the stretch of `text` between `from`
/// and `to`: from the first character that is no white space to behind the
/// last one, and the empty stretch at `to` where all is white space.
pub fn trim_range(text: &Vec<char>, from: usize, to: usize) -> (r: (usize, usize))
    requires
        from <= to <= text.len(),
    ensures
        from <= r.0 <= r.1 <= to,
        text@.subrange(r.0 as int, r.1 as int) == trimmed(
            text@.subrange(from as int, to as int),
        ),
        forall|i: int| from <= i < r.0 ==> is_white_space(text[i]),
        forall|i: int| r.1 <= i < to ==> is_white_space(text[i]),
        r.0 < r.1 ==> !is_white_space(text[r.0 as int]) && !is_white_space(text[r.1 - 1]),
        r.0 == r.1 ==> r.0 == to,
{
    let mut a: usize = from;
    while a < to && text[a].is_whitespace()
        invariant
            from <= a <= to <= text.len(),
            trim_start(text@.subrange(from as int, to as int)) == trim_start(
                text@.subrange(a as int, to as int),
            ),
            forall|i: int| from <= i < a ==> is_white_space(text[i]),
        decreases to - a,
    {
        assert(text@.subrange(a as int, to as int).drop_first() =~= text@.subrange(
            a + 1,
            to as int,
        ));
        a += 1;
    }
    let mut b: usize = to;
    while b > a && text[b - 1].is_whitespace()
        invariant
            a <= b <= to <= text.len(),
            trim_end(text@.subrange(a as int, to as int)) == trim_end(
                text@.subrange(a as int, b as int),
            ),
            forall|i: int| b <= i < to ==> is_white_space(text[i]),
        decreases b - a,
    {
        assert(text@.subrange(a as int, b as int).drop_last() =~= text@.subrange(
            a as int,
            b - 1,
        ));
        b -= 1;
    }
    (a, b)
}

/// The last position of `c` in `text`.
pub open spec fn last_index_of(text: Seq<char>, c: char) -> Option<int>
    decreases text.len(),
{
    if text.len() == 0 {
        None
    } else if text.last() == c {
        Some(text.len() - 1)
    } else {
        last_index_of(text.drop_last(), c)
    }
}

/// `last_index_of` is the greatest position that holds the character, and is
/// `None` exactly where the text does not hold it.
pub proof fn lemma_last_index_of(text: Seq<char>, c: char)
    ensures
        match last_index_of(text, c) {
            Some(at) => {
                &&& 0 <= at < text.len()
                &&& text[at] == c
                &&& forall|j: int| at < j < text.len() ==> text[j] != c
            },
            None => forall|j: int| 0 <= j < text.len() ==> text[j] != c,
        },
    decreases text.len(),
{
    if text.len() > 0 && text.last() != c {
        let rest = text.drop_last();
        lemma_last_index_of(rest, c);
        assert forall|j: int| 0 <= j < rest.len() implies text[j] == rest[j] by {}
    }
}

/// The last position of `c` in the stretch of `text` between `from` and `to`,
/// counted from the start of `text`: `c` stands there and nowhere behind it in
/// the stretch. `None` means that the stretch does not hold `c`.
pub fn rfind_char(text: &Vec<char>, from: usize, to: usize, c: char) -> (r: Option<usize>)
    requires
        from <= to <= text.len(),
    ensures
        match r {
            Some(at) => {
                &&& from <= at < to
                &&& last_index_of(text@.subrange(from as int, to as int), c) == Some(at - from)
                &&& text[at as int] == c
                &&& forall|j: int| at < j < to ==> text[j] != c
            },
            None => {
                &&& last_index_of(text@.subrange(from as int, to as int), c) is None
                &&& forall|j: int| from <= j < to ==> text[j] != c
            },
        },
{
    let mut end: usize = to;
    while end > from
        invariant
            from <= end <= to <= text.len(),
            last_index_of(text@.subrange(from as int, to as int), c) == last_index_of(
                text@.subrange(from as int, end as int),
                c,
            ),
            forall|j: int| end <= j < to ==> text[j] != c,
        decreases end - from,
    {
        if text[end - 1] == c {
            return Some(end - 1);
        }
        assert(text@.subrange(from as int, end as int).drop_last() =~= text@.subrange(
            from as int,
            end - 1,
        ));
        end -= 1;
    }
    None
}

/// Whether `text` is one of the entries of `list`.
pub fn is_one_of(text: &str, list: &Vec<String>) -> (r: bool)
    ensures
        r == list.deep_view().contains(text@),
{
    let wanted = String::from_str(text);
    let mut i: usize = 0;
    while i < list.len()
        invariant
            i <= list.len(),
            wanted@ == text@,
            forall|j: int| 0 <= j < i ==> list.deep_view()[j] != text@,
        decreases list.len() - i,
    {
        if list[i] == wanted {
            assert(list.deep_view()[i as int] == text@);
            return true;
        }
        i += 1;
    }
    false
}

/// The stretch of `chars` between `from` and `to` as a string.
pub fn slice_text(chars: &Vec<char>, from: usize, to: usize) -> (text: String)
    requires
        from <= to <= chars.len(),
    ensures
        text@ == chars@.subrange(from as int, to as int),
{
    let mut text = String::new();
    let mut i: usize = from;
    while i < to
        invariant
            from <= i <= to <= chars.len(),
            text@ == chars@.subrange(from as int, i as int),
        decreases to - i,
    {
        text.push(chars[i]);
        i += 1;
    }
    text
}

/// Where the line that starts at `from` ends: at the first line feed at or
/// after `from`, or at the end of the text.
pub open spec fn line_end(text: Seq<char>, from: int) -> int
    decreases text.len() - from,
{
    if from < 0 || from >= text.len() {
        text.len() as int
    } else if text[from] == '\n' {
        from
    } else {
        line_end(text, from + 1)
    }
}

/// `line` without the carriage return at its end, if it has one there.
pub open spec fn without_carriage_return(line: Seq<char>) -> Seq<char> {
    if line.len() > 0 && line.last() == '\r' {
        line.drop_last()
    } else {
        line
    }
}

/// The line that starts at `from`, without its line ending: a line feed, or a
/// carriage return and a line feed.
pub open spec fn line_at(text: Seq<char>, from: int) -> Seq<char> {
    let end = line_end(text, from);
    if end < text.len() {
        without_carriage_return(text.subrange(from, end))
    } else {
        text.subrange(from, end)
    }
}

/// The lines of `text` from position `from` on.
pub open spec fn lines_from(text: Seq<char>, from: int) -> Seq<Seq<char>>
    decreases text.len() - from,
{
    if from < 0 || from >= text.len() {
        Seq::empty()
    } else {
        let end = line_end(text, from);
        if from <= end < text.len() {
            seq![line_at(text, from)] + lines_from(text, end + 1)
        } else {
            seq![line_at(text, from)]
        }
    }
}

/// The lines of `text`, each without its line ending. The last line need not
/// have one, and a text that ends in a line ending has no empty line after
/// it.
pub open spec fn lines_of(text: Seq<char>) -> Seq<Seq<char>> {
    lines_from(text, 0)
}

/// A line ends at or after the position where it starts, within the text, and
/// holds no line feed.
pub proof fn lemma_line_end(text: Seq<char>, from: int)
    requires
        0 <= from <= text.len(),
    ensures
        from <= line_end(text, from) <= text.len(),
        line_end(text, from) < text.len() ==> text[line_end(text, from)] == '\n',
        forall|j: int| from <= j < line_end(text, from) ==> text[j] != '\n',
    decreases text.len() - from,
{
    if from < text.len() && text[from] != '\n' {
        lemma_line_end(text, from + 1);
    }
}

/// The lines of `text`, each without its line ending.
pub fn split_lines(text: &Vec<char>) -> (lines: Vec<Vec<char>>)
    ensures
        lines.deep_view() == lines_of(text@),
{
    let mut lines: Vec<Vec<char>> = Vec::new();
    let mut start: usize = 0;
    while start < text.len()
        invariant
            start <= text.len(),
            lines.deep_view() + lines_from(text@, start as int) == lines_of(text@),
        decreases text.len() - start,
    {
        let mut end: usize = start;
        while end < text.len() && text[end] != '\n'
            invariant
                start <= end <= text.len(),
                line_end(text@, start as int) == line_end(text@, end as int),
            decreases text.len() - end,
        {
            end += 1;
        }
        let terminated = end < text.len();
        let mut stop: usize = end;
        if terminated && start < end && text[end - 1] == '\r' {
            stop = end - 1;
        }
        let mut line: Vec<char> = Vec::new();
        let mut i: usize = start;
        while i < stop
            invariant
                start <= i <= stop <= text.len(),
                line@ == text@.subrange(start as int, i as int),
            decreases stop - i,
        {
            line.push(text[i]);
            i += 1;
        }
        proof {
            let whole = text@.subrange(start as int, end as int);
            if terminated && start < end && text[end - 1] == '\r' {
                assert(whole.drop_last() =~= text@.subrange(start as int, stop as int));
            }
            assert(line.deep_view() =~= line@);
        }
        lines.push(line);
        if !terminated {
            return lines;
        }
        start = end + 1;
    }
    lines
}

} // verus!
