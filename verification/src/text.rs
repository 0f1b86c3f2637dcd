//! Text building blocks shared by the message builders, the prompt builders
//! and the readers of command output: decimal numerals, joined lists,
//! replacement, lines and trimming, all specified over sequences of
//! characters.

use vstd::prelude::*;
use vstd::string::*;

verus! {

/// Assumed, not proved: `String::push` of the standard library appends `c`
/// to the string.
pub assume_specification[ String::push ](s: &mut String, c: char)
    ensures
        final(s)@ == old(s)@.push(c),
;

/// Assumed, not proved: `String::pop` of the standard library removes the
/// last character and returns it, or returns `None` and leaves the string
/// alone when it is empty.
pub assume_specification[ String::pop ](s: &mut String) -> (r: Option<char>)
    ensures
        old(s)@.len() == 0 ==> r is None && final(s)@ == old(s)@,
        old(s)@.len() > 0 ==> r == Some(old(s)@.last()) && final(s)@ == old(s)@.drop_last(),
;

/// Assumed, not proved: `String::clear` of the standard library removes all
/// characters.
pub assume_specification[ String::clear ](s: &mut String)
    ensures
        final(s)@ == Seq::<char>::empty(),
;

/// The numeral for one decimal digit.
pub open spec fn digit_char(d: int) -> char {
    if d == 0 {
        '0'
    } else if d == 1 {
        '1'
    } else if d == 2 {
        '2'
    } else if d == 3 {
        '3'
    } else if d == 4 {
        '4'
    } else if d == 5 {
        '5'
    } else if d == 6 {
        '6'
    } else if d == 7 {
        '7'
    } else if d == 8 {
        '8'
    } else {
        '9'
    }
}

/// The decimal numeral of `n`, most significant digit first, without padding.
pub open spec fn decimal(n: nat) -> Seq<char>
    decreases n,
{
    if n < 10 {
        seq![digit_char(n as int)]
    } else {
        decimal(n / 10).push(digit_char((n % 10) as int))
    }
}

fn digit_of(d: u64) -> (c: char)
    requires
        d < 10,
    ensures
        c == digit_char(d as int),
{
    if d == 0 {
        '0'
    } else if d == 1 {
        '1'
    } else if d == 2 {
        '2'
    } else if d == 3 {
        '3'
    } else if d == 4 {
        '4'
    } else if d == 5 {
        '5'
    } else if d == 6 {
        '6'
    } else if d == 7 {
        '7'
    } else if d == 8 {
        '8'
    } else {
        '9'
    }
}

/// Appends the decimal numeral of `n` to `out`.
pub fn push_decimal(out: &mut String, n: u64)
    ensures
        final(out)@ == old(out)@ + decimal(n as nat),
{
    let mut low: Vec<char> = Vec::new();
    let mut rest: u64 = n;
    while rest >= 10
        invariant
            decimal(n as nat) == decimal(rest as nat) + low@.reverse(),
        decreases rest,
    {
        let d = digit_of(rest % 10);
        low.push(d);
        rest = rest / 10;
    }
    out.push(digit_of(rest));
    let mut i: usize = low.len();
    while i > 0
        invariant
            i <= low.len(),
            out@ == old(out)@ + decimal(rest as nat) + low@.reverse().subrange(
                0,
                low.len() - i,
            ),
        decreases i,
    {
        i = i - 1;
        out.push(low[i]);
    }
}

/// The decimal numeral of `n` as a string.
pub fn decimal_string(n: u64) -> (s: String)
    ensures
        s@ == decimal(n as nat),
{
    let mut s = String::new();
    push_decimal(&mut s, n);
    s
}

/// The items of `parts` written one after another with `sep` between
/// neighbours.
pub open spec fn joined(parts: Seq<Seq<char>>, sep: Seq<char>) -> Seq<char>
    decreases parts.len(),
{
    if parts.len() == 0 {
        Seq::<char>::empty()
    } else if parts.len() == 1 {
        parts[0]
    } else {
        joined(parts.drop_last(), sep) + sep + parts.last()
    }
}

/// The views of a vector of strings.
pub open spec fn views(parts: Seq<String>) -> Seq<Seq<char>> {
    parts.map_values(|s: String| s@)
}

/// Joins `parts` with `sep` between neighbours.
pub fn join(parts: &[String], sep: &str) -> (s: String)
    ensures
        s@ == joined(views(parts@), sep@),
{
    let mut s = String::new();
    let mut i: usize = 0;
    while i < parts.len()
        invariant
            i <= parts.len(),
            s@ == joined(views(parts@).take(i as int), sep@),
        decreases parts.len() - i,
    {
        proof {
            let all = views(parts@);
            assert(all.take(i as int + 1).drop_last() =~= all.take(i as int));
        }
        if i > 0 {
            s.append(sep);
        }
        s.append(parts[i].as_str());
        i = i + 1;
    }
    proof {
        assert(views(parts@).take(parts.len() as int) =~= views(parts@));
    }
    s
}

/// The characters of `text`.
pub fn to_chars(text: &str) -> (chars: Vec<char>)
    ensures
        chars@ == text@,
{
    let mut chars: Vec<char> = Vec::new();
    for c in it: text.chars()
        invariant
            chars@ == it.seq().take(it.index() as int),
            it.seq() == text@,
    {
        chars.push(c);
    }
    chars
}

/// The string made of `chars`.
pub fn from_chars(chars: &[char]) -> (text: String)
    ensures
        text@ == chars@,
{
    let mut text = String::new();
    let mut i: usize = 0;
    while i < chars.len()
        invariant
            i <= chars.len(),
            text@ == chars@.take(i as int),
        decreases chars.len() - i,
    {
        text.push(chars[i]);
        i = i + 1;
    }
    text
}

/// `text` with every occurrence of `from` replaced by `to`, occurrences
/// found from left to right and never overlapping. An empty `from` occurs
/// nowhere.
pub open spec fn replaced(text: Seq<char>, from: Seq<char>, to: Seq<char>) -> Seq<char>
    decreases text.len(),
{
    if from.len() == 0 || text.len() < from.len() {
        text
    } else if text.take(from.len() as int) == from {
        to + replaced(text.skip(from.len() as int), from, to)
    } else {
        seq![text[0]] + replaced(text.skip(1), from, to)
    }
}

fn occurs_at(text: &Vec<char>, start: usize, pattern: &Vec<char>) -> (found: bool)
    requires
        start <= text.len(),
    ensures
        found == (pattern.len() <= text.len() - start && text@.skip(start as int).take(
            pattern.len() as int,
        ) == pattern@),
{
    if pattern.len() > text.len() - start {
        return false;
    }
    let mut k: usize = 0;
    while k < pattern.len()
        invariant
            k <= pattern.len(),
            start + pattern.len() <= text.len(),
            forall|j: int| 0 <= j < k ==> text@[start + j] == pattern@[j],
        decreases pattern.len() - k,
    {
        if text[start + k] != pattern[k] {
            return false;
        }
        k = k + 1;
    }
    proof {
        assert(text@.skip(start as int).take(pattern.len() as int) =~= pattern@);
    }
    true
}

/// Replaces every occurrence of `from` in `text` by `to`.
pub fn replace_all(text: &str, from: &str, to: &str) -> (result: String)
    ensures
        result@ == replaced(text@, from@, to@),
{
    let pattern = to_chars(from);
    if pattern.len() == 0 {
        return String::from_str(text);
    }
    let chars = to_chars(text);
    let mut result = String::new();
    let mut i: usize = 0;
    proof {
        assert(chars@.skip(0) =~= text@);
    }
    while i < chars.len()
        invariant
            i <= chars.len(),
            pattern@ == from@,
            pattern@.len() > 0,
            chars@ == text@,
            result@ + replaced(chars@.skip(i as int), from@, to@) == replaced(text@, from@, to@),
        decreases chars.len() - i,
    {
        let ghost rest = chars@.skip(i as int);
        if occurs_at(&chars, i, &pattern) {
            result.append(to);
            proof {
                assert(rest.skip(pattern.len() as int) =~= chars@.skip(i + pattern.len()));
            }
            i = i + pattern.len();
        } else {
            result.push(chars[i]);
            proof {
                assert(rest.skip(1) =~= chars@.skip(i + 1));
            }
            i = i + 1;
        }
    }
    result
}

/// White space as Unicode defines it: the characters that trimming
/// removes.
pub open spec fn is_space(c: char) -> bool {
    let n = c as u32;
    ||| 0x09 <= n <= 0x0d
    ||| n == 0x20
    ||| n == 0x85
    ||| n == 0xa0
    ||| n == 0x1680
    ||| 0x2000 <= n <= 0x200a
    ||| n == 0x2028
    ||| n == 0x2029
    ||| n == 0x202f
    ||| n == 0x205f
    ||| n == 0x3000
}

/// `text` without the white space at its end.
pub open spec fn trimmed_end(text: Seq<char>) -> Seq<char>
    decreases text.len(),
{
    if text.len() > 0 && is_space(text.last()) {
        trimmed_end(text.drop_last())
    } else {
        text
    }
}

/// `text` without the white space at its start.
pub open spec fn trimmed_start(text: Seq<char>) -> Seq<char>
    decreases text.len(),
{
    if text.len() > 0 && is_space(text[0]) {
        trimmed_start(text.skip(1))
    } else {
        text
    }
}

/// `text` without the white space at both ends.
pub open spec fn trimmed(text: Seq<char>) -> Seq<char> {
    trimmed_start(trimmed_end(text))
}

/// The lines of `text`: the pieces between line feeds, the line feeds left
/// out. A text with `n` line feeds has `n + 1` lines; the last is empty
/// when the text ends in a line feed.
pub open spec fn split_lines(text: Seq<char>) -> Seq<Seq<char>>
    decreases text.len(),
{
    if text.len() == 0 {
        seq![Seq::<char>::empty()]
    } else {
        let before = split_lines(text.drop_last());
        if text.last() == '\n' {
            before.push(Seq::<char>::empty())
        } else {
            before.drop_last().push(before.last().push(text.last()))
        }
    }
}

/// The views of a vector of lines.
pub open spec fn line_views(lines: Seq<Vec<char>>) -> Seq<Seq<char>> {
    lines.map_values(|line: Vec<char>| line@)
}

/// `c` is white space.
pub fn is_whitespace(c: char) -> (space: bool)
    ensures
        space == is_space(c),
{
    let n = c as u32;
    (0x09 <= n && n <= 0x0d) || n == 0x20 || n == 0x85 || n == 0xa0 || n == 0x1680 || (0x2000 <= n
        && n <= 0x200a) || n == 0x2028 || n == 0x2029 || n == 0x202f || n == 0x205f || n == 0x3000
}

/// The length of `line` without the white space at its end.
pub fn trimmed_end_len(line: &[char]) -> (length: usize)
    ensures
        length <= line@.len(),
        line@.take(length as int) == trimmed_end(line@),
{
    let mut length: usize = line.len();
    proof {
        assert(line@.take(length as int) =~= line@);
    }
    while length > 0 && is_whitespace(line[length - 1])
        invariant
            length <= line@.len(),
            trimmed_end(line@.take(length as int)) == trimmed_end(line@),
        decreases length,
    {
        proof {
            assert(line@.take(length as int).drop_last() =~= line@.take(length - 1));
        }
        length = length - 1;
    }
    length
}

/// The number of white-space characters at the start of the first `end`
/// characters of `line`.
pub fn trimmed_start_offset(line: &[char], end: usize) -> (start: usize)
    requires
        end <= line@.len(),
    ensures
        start <= end,
        line@.subrange(start as int, end as int) == trimmed_start(line@.take(end as int)),
{
    let mut start: usize = 0;
    while start < end && is_whitespace(line[start])
        invariant
            start <= end <= line@.len(),
            trimmed_start(line@.subrange(start as int, end as int)) == trimmed_start(
                line@.take(end as int),
            ),
        decreases end - start,
    {
        proof {
            assert(line@.subrange(start as int, end as int).skip(1) =~= line@.subrange(
                start + 1,
                end as int,
            ));
        }
        start = start + 1;
    }
    start
}

/// The string made of `chars[start..end]`.
pub fn string_of_range(chars: &[char], start: usize, end: usize) -> (text: String)
    requires
        start <= end <= chars@.len(),
    ensures
        text@ == chars@.subrange(start as int, end as int),
{
    let mut text = String::new();
    let mut i: usize = start;
    while i < end
        invariant
            start <= i <= end <= chars@.len(),
            text@ == chars@.subrange(start as int, i as int),
        decreases end - i,
    {
        text.push(chars[i]);
        i = i + 1;
    }
    text
}

/// Splits `text` into its lines.
pub fn lines_of(text: &[char]) -> (lines: Vec<Vec<char>>)
    ensures
        line_views(lines@) == split_lines(text@),
{
    let mut lines: Vec<Vec<char>> = Vec::new();
    let mut current: Vec<char> = Vec::new();
    let mut i: usize = 0;
    while i < text.len()
        invariant
            i <= text.len(),
            line_views(lines@).push(current@) == split_lines(text@.take(i as int)),
        decreases text.len() - i,
    {
        proof {
            assert(text@.take(i + 1).drop_last() =~= text@.take(i as int));
        }
        if text[i] == '\n' {
            lines.push(current);
            current = Vec::new();
        } else {
            current.push(text[i]);
        }
        i = i + 1;
    }
    proof {
        assert(text@.take(text.len() as int) =~= text@);
    }
    lines.push(current);
    lines
}

/// A text has at least one line, and no line holds a line feed.
pub proof fn lemma_lines_hold_no_line_feed(text: Seq<char>)
    ensures
        split_lines(text).len() >= 1,
        forall|i: int, k: int|
            0 <= i < split_lines(text).len() && 0 <= k < split_lines(text)[i].len()
                ==> #[trigger] split_lines(text)[i][k] != '\n',
    decreases text.len(),
{
    if text.len() > 0 {
        lemma_lines_hold_no_line_feed(text.drop_last());
    }
}

/// Joining the lines of a text with line feeds gives the text back.
pub proof fn lemma_lines_join_to_text(text: Seq<char>)
    ensures
        joined(split_lines(text), "\n"@) == text,
    decreases text.len(),
{
    reveal_strlit("\n");
    if text.len() > 0 {
        let before = split_lines(text.drop_last());
        let lines = split_lines(text);
        lemma_lines_join_to_text(text.drop_last());
        if text.last() == '\n' {
            assert(lines.drop_last() =~= before);
        } else {
            assert(lines.drop_last() =~= before.drop_last());
            if before.len() > 1 {
                assert(joined(lines, "\n"@) =~= (joined(before.drop_last(), "\n"@) + "\n"@
                    + before.last()).push(text.last()));
            }
        }
    }
}

/// What trimming leaves does not end in white space, and is a prefix of the
/// text.
pub proof fn lemma_trimmed_end(text: Seq<char>)
    ensures
        trimmed_end(text).len() <= text.len(),
        trimmed_end(text) == text.take(trimmed_end(text).len() as int),
        trimmed_end(text).len() > 0 ==> !is_space(trimmed_end(text).last()),
        forall|k: int| trimmed_end(text).len() <= k < text.len() ==> is_space(#[trigger] text[k]),
    decreases text.len(),
{
    if text.len() > 0 && is_space(text.last()) {
        lemma_trimmed_end(text.drop_last());
        let kept = trimmed_end(text);
        assert forall|k: int| kept.len() <= k < text.len() implies is_space(
            #[trigger] text[k],
        ) by {
            if k < text.len() - 1 {
                assert(text.drop_last()[k] == text[k]);
            }
        }
    }
}

} // verus!
