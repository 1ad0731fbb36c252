//! The power plans of the machine, read from the listing that `powercfg`
//! prints.

use vstd::prelude::*;
use vstd::slice::slice_subrange;

verus! {

/// A power plan of the machine.
#[derive(Debug, Clone)]
pub struct PowerPlan {
    pub guid: String,
    pub name: String,
    pub is_active: bool,
}

/// A power plan as plain text.
pub struct PowerPlanView {
    pub guid: Seq<char>,
    pub name: Seq<char>,
    pub is_active: bool,
}

impl View for PowerPlan {
    type V = PowerPlanView;

    open spec fn view(&self) -> PowerPlanView {
        PowerPlanView { guid: self.guid@, name: self.name@, is_active: self.is_active }
    }
}

/// Whether `c` is white space, by the Unicode property of that name.
pub open spec fn is_whitespace(c: char) -> bool {
    ||| c == ' '
    ||| '\u{9}' <= c <= '\u{d}'
    ||| c == '\u{85}'
    ||| c == '\u{a0}'
    ||| c == '\u{1680}'
    ||| '\u{2000}' <= c <= '\u{200a}'
    ||| c == '\u{2028}'
    ||| c == '\u{2029}'
    ||| c == '\u{202f}'
    ||| c == '\u{205f}'
    ||| c == '\u{3000}'
}

/// Tests whether `c` is white space.
pub fn char_is_whitespace(c: char) -> (white: bool)
    ensures
        white == is_whitespace(c),
{
    c == ' ' || ('\u{9}' <= c && c <= '\u{d}') || c == '\u{85}' || c == '\u{a0}' || c == '\u{1680}'
        || ('\u{2000}' <= c && c <= '\u{200a}') || c == '\u{2028}' || c == '\u{2029}' || c
        == '\u{202f}' || c == '\u{205f}' || c == '\u{3000}'
}

/// The characters of `text`, one by one.
fn collect_chars(text: &str) -> (chars: Vec<char>)
    ensures
        chars@ == text@,
{
    let mut chars: Vec<char> = Vec::new();
    for c in it: text.chars()
        invariant
            it.seq() == text@,
            chars@ == text@.take(it.index()),
    {
        chars.push(c);
    }
    chars
}

/// Where the line that holds position `from` ends: at the next line feed,
/// or at the end of the text.
pub open spec fn line_end(text: Seq<char>, from: int) -> int
    decreases text.len() - from,
{
    if from < 0 || from >= text.len() || text[from] == '\n' {
        from
    } else {
        line_end(text, from + 1)
    }
}

/// The line that begins at `from`, without its line ending: the line feed
/// and, where one stands before it, the carriage return.
pub open spec fn line_at(text: Seq<char>, from: int) -> Seq<char> {
    let end = line_end(text, from);
    if from < end < text.len() && text[end - 1] == '\r' {
        text.subrange(from, end - 1)
    } else {
        text.subrange(from, end)
    }
}

/// The line end lies at or after the position it is asked for, at the
/// first line feed from there on, or at the end of the text where no line
/// feed is left.
pub proof fn lemma_line_end_bounds(text: Seq<char>, from: int)
    requires
        0 <= from <= text.len(),
    ensures
        from <= line_end(text, from) <= text.len(),
        forall|i: int| from <= i < line_end(text, from) ==> text[i] != '\n',
        line_end(text, from) < text.len() ==> text[line_end(text, from)] == '\n',
    decreases text.len() - from,
{
    if from < text.len() && text[from] != '\n' {
        lemma_line_end_bounds(text, from + 1);
    }
}

/// Finds the end of the line that holds position `from`.
fn find_line_end(text: &[char], from: usize) -> (end: usize)
    requires
        from <= text@.len(),
    ensures
        end == line_end(text@, from as int),
        from <= end <= text@.len(),
{
    let mut end = from;
    while end < text.len() && text[end] != '\n'
        invariant
            from <= end <= text@.len(),
            line_end(text@, from as int) == line_end(text@, end as int),
        decreases text@.len() - end,
    {
        end += 1;
    }
    end
}

/// The first position at or after `from` that holds no white space, or
/// the length of `line` where only white space is left.
pub open spec fn word_start(line: Seq<char>, from: int) -> int
    decreases line.len() - from,
{
    if from < 0 || from >= line.len() || !is_whitespace(line[from]) {
        from
    } else {
        word_start(line, from + 1)
    }
}

/// The first position at or after `from` that holds white space, or the
/// length of `line` where none is left.
pub open spec fn word_end(line: Seq<char>, from: int) -> int
    decreases line.len() - from,
{
    if from < 0 || from >= line.len() || is_whitespace(line[from]) {
        from
    } else {
        word_end(line, from + 1)
    }
}

/// Where the word with number `n`, counted from 0 among the words that
/// begin at or after `from`, begins and ends. A word is a longest run of
/// characters that are not white space.
pub open spec fn nth_word(line: Seq<char>, n: nat, from: int) -> Option<(int, int)>
    decreases n,
{
    let start = word_start(line, from);
    if 0 <= start < line.len() {
        let end = word_end(line, start);
        if n == 0 {
            Some((start, end))
        } else {
            nth_word(line, (n - 1) as nat, end)
        }
    } else {
        None
    }
}

/// The length of `line` up to position `len` once the white space at its
/// end is cut off.
pub open spec fn trimmed_len(line: Seq<char>, len: int) -> int
    decreases len,
{
    if len <= 0 || len > line.len() || !is_whitespace(line[len - 1]) {
        len
    } else {
        trimmed_len(line, len - 1)
    }
}

/// Whether `line` holds the letters `GUID` in a row.
pub open spec fn has_guid(line: Seq<char>) -> bool {
    exists|i: int| guid_at(line, i)
}

/// Whether the letters `GUID` stand in `line` from position `i` on.
pub open spec fn guid_at(line: Seq<char>, i: int) -> bool {
    &&& 0 <= i
    &&& i + 4 <= line.len()
    &&& line[i] == 'G'
    &&& line[i + 1] == 'U'
    &&& line[i + 2] == 'I'
    &&& line[i + 3] == 'D'
}

/// Whether the last character of `line` that is not white space is a star.
pub open spec fn ends_with_star(line: Seq<char>) -> bool {
    let len = trimmed_len(line, line.len() as int);
    len > 0 && line[len - 1] == '*'
}

/// The name that a line of the listing gives its plan: what stands between
/// the first opening parenthesis and the last closing one. A parenthesis
/// that is missing counts as standing at its end of the line, and where the
/// two do not enclose anything the name is `Unknown`.
pub open spec fn plan_name(line: Seq<char>) -> Seq<char> {
    let open = match line.index_of_first('(') {
        Some(i) => i,
        None => 0,
    };
    let close = match line.index_of_last(')') {
        Some(i) => i,
        None => line.len() as int,
    };
    if open < close {
        line.subrange(open + 1, close)
    } else {
        "Unknown"@
    }
}

/// The plan that a line of the listing describes, if it describes one: it
/// has to hold the letters `GUID` and at least four words. The fourth word
/// is the plan's identifier, and a star at the end marks the active plan.
pub open spec fn plan_of_line(line: Seq<char>) -> Option<PowerPlanView> {
    match nth_word(line, 3, 0) {
        Some((start, end)) => if has_guid(line) {
            Some(
                PowerPlanView {
                    guid: line.subrange(start, end),
                    name: plan_name(line),
                    is_active: ends_with_star(line),
                },
            )
        } else {
            None
        },
        None => None,
    }
}

/// A word begins at the first character from `from` on that is not white
/// space, and ends before the first from there on that is.
pub proof fn lemma_word_bounds(line: Seq<char>, from: int)
    requires
        0 <= from <= line.len(),
    ensures
        from <= word_start(line, from) <= line.len(),
        forall|i: int| from <= i < word_start(line, from) ==> is_whitespace(line[i]),
        word_start(line, from) < line.len() ==> !is_whitespace(line[word_start(line, from)]),
        from <= word_end(line, from) <= line.len(),
        forall|i: int| from <= i < word_end(line, from) ==> !is_whitespace(line[i]),
        word_end(line, from) < line.len() ==> is_whitespace(line[word_end(line, from)]),
    decreases line.len() - from,
{
    if from < line.len() {
        lemma_word_bounds(line, from + 1);
    }
}

/// The word with number `n` lies within the line, is not empty and holds
/// no white space.
pub proof fn lemma_nth_word_is_a_word(line: Seq<char>, n: nat, from: int)
    requires
        0 <= from <= line.len(),
    ensures
        nth_word(line, n, from) matches Some((start, end)) ==> {
            &&& from <= start < end <= line.len()
            &&& forall|i: int| start <= i < end ==> !is_whitespace(line[i])
        },
    decreases n,
{
    lemma_word_bounds(line, from);
    let start = word_start(line, from);
    if start < line.len() {
        lemma_word_bounds(line, start);
        if n > 0 {
            lemma_nth_word_is_a_word(line, (n - 1) as nat, word_end(line, start));
        }
    }
}

/// The identifier of a plan is a word of its line: it is not empty and
/// holds no white space.
pub proof fn law_plan_identifier_is_a_word(line: Seq<char>)
    ensures
        plan_of_line(line) matches Some(plan) ==> {
            &&& plan.guid.len() > 0
            &&& forall|i: int| 0 <= i < plan.guid.len() ==> !is_whitespace(plan.guid[i])
        },
{
    lemma_nth_word_is_a_word(line, 3, 0);
}

/// The plans that the lines of `text` from position `from` on describe, in
/// the order of the lines.
pub open spec fn plans_from(text: Seq<char>, from: int) -> Seq<PowerPlanView>
    decreases text.len() - from,
    via plans_from_terminates
{
    if from < 0 || from >= text.len() {
        Seq::empty()
    } else {
        let end = line_end(text, from);
        let rest = if end < text.len() {
            plans_from(text, end + 1)
        } else {
            Seq::empty()
        };
        match plan_of_line(line_at(text, from)) {
            Some(plan) => seq![plan] + rest,
            None => rest,
        }
    }
}

#[via_fn]
proof fn plans_from_terminates(text: Seq<char>, from: int) {
    if 0 <= from < text.len() {
        lemma_line_end_bounds(text, from);
    }
}

/// The plans that a listing describes.
pub open spec fn spec_parse_power_plans(text: Seq<char>) -> Seq<PowerPlanView> {
    plans_from(text, 0)
}

/// Finds the first position at or after `from` that holds no white space.
fn find_word_start(line: &[char], from: usize) -> (start: usize)
    requires
        from <= line@.len(),
    ensures
        start == word_start(line@, from as int),
        from <= start <= line@.len(),
{
    let mut start = from;
    while start < line.len() && char_is_whitespace(line[start])
        invariant
            from <= start <= line@.len(),
            word_start(line@, from as int) == word_start(line@, start as int),
        decreases line@.len() - start,
    {
        start += 1;
    }
    start
}

/// Finds the first position at or after `from` that holds white space.
fn find_word_end(line: &[char], from: usize) -> (end: usize)
    requires
        from <= line@.len(),
    ensures
        end == word_end(line@, from as int),
        from <= end <= line@.len(),
{
    let mut end = from;
    while end < line.len() && !char_is_whitespace(line[end])
        invariant
            from <= end <= line@.len(),
            word_end(line@, from as int) == word_end(line@, end as int),
        decreases line@.len() - end,
    {
        end += 1;
    }
    end
}

/// Finds the fourth word of `line`.
fn fourth_word(line: &[char]) -> (word: Option<(usize, usize)>)
    ensures
        match word {
            Some((start, end)) => nth_word(line@, 3, 0) == Some((start as int, end as int))
                && start <= end <= line@.len(),
            None => nth_word(line@, 3, 0) is None,
        },
{
    let mut from: usize = 0;
    let mut left: usize = 3;
    loop
        invariant
            from <= line@.len(),
            left <= 3,
            nth_word(line@, 3, 0) == nth_word(line@, left as nat, from as int),
        decreases left,
    {
        let start = find_word_start(line, from);
        if start >= line.len() {
            return None;
        }
        let end = find_word_end(line, start);
        if left == 0 {
            return Some((start, end));
        }
        from = end;
        left -= 1;
    }
}

/// Tests whether `line` holds the letters `GUID` in a row.
fn contains_guid(line: &[char]) -> (found: bool)
    ensures
        found == has_guid(line@),
{
    let len = line.len();
    if len < 4 {
        assert(forall|i: int| !guid_at(line@, i));
        return false;
    }
    let mut i: usize = 0;
    while i <= len - 4
        invariant
            len == line@.len(),
            len >= 4,
            forall|j: int| j < i ==> !guid_at(line@, j),
        decreases len - i,
    {
        if line[i] == 'G' && line[i + 1] == 'U' && line[i + 2] == 'I' && line[i + 3] == 'D' {
            assert(guid_at(line@, i as int));
            return true;
        }
        i += 1;
    }
    assert(forall|j: int| !guid_at(line@, j));
    false
}

/// Tests whether the last character of `line` that is not white space is a
/// star.
fn line_ends_with_star(line: &[char]) -> (star: bool)
    ensures
        star == ends_with_star(line@),
{
    let mut len = line.len();
    while len > 0 && char_is_whitespace(line[len - 1])
        invariant
            len <= line@.len(),
            trimmed_len(line@, line@.len() as int) == trimmed_len(line@, len as int),
        decreases len,
    {
        len -= 1;
    }
    len > 0 && line[len - 1] == '*'
}

/// Finds the first position of `line` that holds `c`.
fn find_first(line: &[char], c: char) -> (found: Option<usize>)
    ensures
        match found {
            Some(i) => line@.index_of_first(c) == Some(i as int) && i < line@.len(),
            None => line@.index_of_first(c) is None,
        },
{
    let mut i: usize = 0;
    while i < line.len()
        invariant
            i <= line@.len(),
            forall|j: int| 0 <= j < i ==> line@[j] != c,
        decreases line@.len() - i,
    {
        if line[i] == c {
            proof {
                assert(line@.contains(c));
                line@.index_of_first_ensures(c);
                let first = line@.index_of_first(c).unwrap();
                assert(line@[first] == c);
                assert(first == i);
            }
            return Some(i);
        }
        i += 1;
    }
    proof {
        line@.index_of_first_ensures(c);
    }
    None
}

/// Finds the last position of `line` that holds `c`.
fn find_last(line: &[char], c: char) -> (found: Option<usize>)
    ensures
        match found {
            Some(i) => line@.index_of_last(c) == Some(i as int) && i < line@.len(),
            None => line@.index_of_last(c) is None,
        },
{
    let mut i: usize = line.len();
    while i > 0
        invariant
            i <= line@.len(),
            forall|j: int| i <= j < line@.len() ==> line@[j] != c,
        decreases i,
    {
        i -= 1;
        if line[i] == c {
            proof {
                assert(line@.contains(c));
                line@.index_of_last_ensures(c);
                let last = line@.index_of_last(c).unwrap();
                assert(line@[last] == c);
                assert(last == i);
            }
            return Some(i);
        }
    }
    proof {
        line@.index_of_last_ensures(c);
    }
    None
}

/// The plans of `plans` as plain text.
pub open spec fn plan_views(plans: Seq<PowerPlan>) -> Seq<PowerPlanView> {
    plans.map_values(|plan: PowerPlan| plan@)
}

/// Reads the plan that the line from position `lo` to position `hi` of
/// `text` describes, if it describes one. `chars` holds the characters of
/// `text`.
fn parse_line(text: &str, chars: &[char], lo: usize, hi: usize) -> (plan: Option<PowerPlan>)
    requires
        chars@ == text@,
        lo <= hi <= chars@.len(),
    ensures
        match plan {
            Some(plan) => plan_of_line(text@.subrange(lo as int, hi as int)) == Some(plan@),
            None => plan_of_line(text@.subrange(lo as int, hi as int)) is None,
        },
{
    let line = slice_subrange(chars, lo, hi);
    if !contains_guid(line) {
        return None;
    }
    match fourth_word(line) {
        None => None,
        Some((start, end)) => {
            let guid = text.substring_char(lo + start, lo + end).to_owned();
            let open = match find_first(line, '(') {
                Some(i) => i,
                None => 0,
            };
            let close = match find_last(line, ')') {
                Some(i) => i,
                None => line.len(),
            };
            let name = if open < close {
                text.substring_char(lo + open + 1, lo + close).to_owned()
            } else {
                "Unknown".to_owned()
            };
            let is_active = line_ends_with_star(line);
            proof {
                assert(guid@ == line@.subrange(start as int, end as int));
                if open < close {
                    assert(name@ == line@.subrange(open + 1, close as int));
                }
            }
            Some(PowerPlan { guid, name, is_active })
        },
    }
}

/// Reads the power plans from the listing that `powercfg /LIST` prints.
///
/// Every line that holds the letters `GUID` and at least four words gives
/// one plan, in the order of the lines: its identifier is the fourth word,
/// its name stands in parentheses, and a star at the end of the line marks
/// it as the active plan.
pub fn parse_power_plans(output: &str) -> (plans: Vec<PowerPlan>)
    ensures
        plan_views(plans@) == spec_parse_power_plans(output@),
        plans@.len() == spec_parse_power_plans(output@).len(),
        forall|i: int|
            0 <= i < plans@.len() ==> (#[trigger] plans@[i])@ == spec_parse_power_plans(output@)[i],
{
    let chars = collect_chars(output);
    let len = chars.len();
    let mut plans: Vec<PowerPlan> = Vec::new();
    let mut from: usize = 0;
    while from < len
        invariant
            chars@ == output@,
            len == chars@.len(),
            from <= len,
            plan_views(plans@) + plans_from(output@, from as int) == plans_from(output@, 0),
        decreases len - from,
    {
        let end = find_line_end(chars.as_slice(), from);
        let hi = if from < end && end < len && chars[end - 1] == '\r' {
            end - 1
        } else {
            end
        };
        let ghost before = plan_views(plans@);
        match parse_line(output, chars.as_slice(), from, hi) {
            Some(plan) => {
                plans.push(plan);
                assert(plan_views(plans@) == before.push(plan@));
            },
            None => {},
        }
        from = if end < len {
            end + 1
        } else {
            len
        };
    }
    assert forall|i: int| 0 <= i < plans@.len() implies (#[trigger] plans@[i])@
        == spec_parse_power_plans(output@)[i] by {
        assert(plan_views(plans@)[i] == plans@[i]@);
    }
    plans
}

} // verus!
