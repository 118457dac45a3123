//! Listing the profiles of a credentials file: the names in its header lines.

use vstd::prelude::*;
use vstd::std_specs::iter::IteratorSpec;
use vstd::string::*;

verus! {

/// The index of the first line feed of `text`, or its length if it has none.
pub open spec fn line_end(text: Seq<char>) -> nat
    decreases text.len(),
{
    if text.len() == 0 || text[0] == '\n' {
        0
    } else {
        1 + line_end(text.drop_first())
    }
}

/// `line` without the carriage return at its end, if it has one there.
pub open spec fn without_carriage_return(line: Seq<char>) -> Seq<char> {
    if line.len() > 0 && line.last() == '\r' {
        line.drop_last()
    } else {
        line
    }
}

/// The lines of `text`. A line ends at a line feed, or at a carriage return
/// followed by a line feed; neither belongs to the line. What follows the
/// last line feed is a line of its own, taken as it is, unless it is empty.
pub open spec fn lines_of(text: Seq<char>) -> Seq<Seq<char>>
    decreases text.len(),
{
    if text.len() == 0 {
        Seq::empty()
    } else {
        let end = line_end(text) as int;
        if end >= text.len() {
            seq![text]
        } else {
            seq![without_carriage_return(text.take(end))] + lines_of(text.skip(end + 1))
        }
    }
}

/// The name in a header line: what stands between the brackets of a line
/// that begins with `[` and ends with `]`.
pub open spec fn section_header(line: Seq<char>) -> Option<Seq<char>> {
    if line.len() > 0 && line.first() == '[' && line.last() == ']' {
        Some(line.subrange(1, line.len() - 1))
    } else {
        None
    }
}

/// The names in those of `lines` that are headers, in order.
pub open spec fn header_names(lines: Seq<Seq<char>>) -> Seq<Seq<char>> {
    lines.filter_map(|line: Seq<char>| section_header(line))
}

/// The profile names of a credentials file: the names in its header lines,
/// in the order of the lines. A name that occurs twice is listed twice.
pub open spec fn profile_names(text: Seq<char>) -> Seq<Seq<char>> {
    header_names(lines_of(text))
}

/// The texts of some strings.
pub open spec fn views(strings: Seq<String>) -> Seq<Seq<char>> {
    strings.map_values(|s: String| s@)
}

/// The name that `line` contributes to a listing: one name if it is a header,
/// none otherwise.
pub open spec fn name_in(line: Seq<char>) -> Seq<Seq<char>> {
    match section_header(line) {
        Some(name) => seq![name],
        None => Seq::empty(),
    }
}

/// The first line of `text` ends at `k` if no line feed stands before `k`,
/// and `k` is a line feed or the end of the text.
pub proof fn lemma_line_end(text: Seq<char>, k: int)
    requires
        0 <= k <= text.len(),
        forall|j: int| 0 <= j < k ==> text[j] != '\n',
        k == text.len() || text[k] == '\n',
    ensures
        line_end(text) == k,
    decreases text.len(),
{
    if k > 0 {
        let rest = text.drop_first();
        assert forall|j: int| 0 <= j < k - 1 implies rest[j] != '\n' by {
            assert(rest[j] == text[j + 1]);
        }
        lemma_line_end(rest, k - 1);
    }
}

/// A further line adds its name, if it has one, to those of the lines before.
pub proof fn lemma_header_names_push(lines: Seq<Seq<char>>, line: Seq<char>)
    ensures
        header_names(lines.push(line)) == header_names(lines) + name_in(line),
{
    assert(lines.push(line).drop_last() =~= lines);
    assert(lines.push(line).last() == line);
}

fn chars_of(text: &str) -> (chars: Vec<char>)
    ensures
        chars@ == text@,
{
    broadcast use vstd::string::group_string_axioms;

    let mut chars: Vec<char> = Vec::new();
    let mut rest = text.chars();
    loop
        invariant
            chars@ + rest.remaining() == text@,
            rest.decrease() is Some,
        ensures
            chars@ == text@,
        decreases rest.decrease()->0,
    {
        let ghost before = rest;
        match rest.next() {
            Some(c) => {
                chars.push(c);
                assert(chars@ + rest.remaining() =~= text@) by {
                    assert(before.remaining() =~= seq![c] + rest.remaining());
                }
            },
            None => {
                assert(chars@ =~= text@);
                break ;
            },
        }
    }
    chars
}

/// Appends to `names` the name in the line that `text` holds from `from` up
/// to `to`, if that line is a header.
fn push_name_in(text: &str, chars: &Vec<char>, from: usize, to: usize, names: &mut Vec<String>)
    requires
        chars@ == text@,
        from <= to <= chars.len(),
    ensures
        views(final(names)@) == views(old(names)@) + name_in(text@.subrange(from as int, to as int)),
{
    let ghost line = text@.subrange(from as int, to as int);
    if from < to && chars[from] == '[' && chars[to - 1] == ']' {
        assert(line.first() == '[' && line.last() == ']');
        assert(from + 1 < to) by {
            assert(chars@[from as int] != chars@[to - 1]);
        }
        let name = text.substring_char(from + 1, to - 1).to_owned();
        assert(name@ =~= line.subrange(1, line.len() - 1));
        names.push(name);
        assert(views(names@) =~= views(old(names)@) + seq![name@]);
    } else {
        assert(section_header(line) is None);
        assert(views(names@) =~= views(old(names)@) + Seq::<Seq<char>>::empty());
    }
}

/// Lists the profile names of a credentials file, in the order of its lines.
pub fn list_profile_names(text: &str) -> (names: Vec<String>)
    ensures
        views(names@) == profile_names(text@),
{
    let chars = chars_of(text);
    let n = chars.len();
    let mut names: Vec<String> = Vec::new();
    let mut start: usize = 0;
    let mut i: usize = 0;
    let ghost mut done: Seq<Seq<char>> = Seq::empty();
    assert(text@.skip(0) =~= text@);
    assert(views(names@) =~= header_names(done));
    while i < n
        invariant
            chars@ == text@,
            n == chars.len(),
            start <= i <= n,
            forall|j: int| start <= j < i ==> chars@[j] != '\n',
            lines_of(text@) == done + lines_of(text@.skip(start as int)),
            views(names@) == header_names(done),
        decreases n - i,
    {
        if chars[i] == '\n' {
            let end = if start < i && chars[i - 1] == '\r' {
                i - 1
            } else {
                i
            };
            let ghost rest = text@.skip(start as int);
            let ghost line = text@.subrange(start as int, end as int);
            proof {
                lemma_line_end(rest, i - start);
                assert(rest.skip(i - start + 1) =~= text@.skip(i + 1));
                assert(without_carriage_return(rest.take(i - start)) =~= line);
                assert(lines_of(rest) == seq![line] + lines_of(text@.skip(i + 1)));
                assert(done + lines_of(rest) =~= done.push(line) + lines_of(text@.skip(i + 1)));
                lemma_header_names_push(done, line);
                done = done.push(line);
            }
            push_name_in(text, &chars, start, end, &mut names);
            start = i + 1;
        }
        i += 1;
    }
    if start < n {
        let ghost rest = text@.skip(start as int);
        proof {
            lemma_line_end(rest, n - start);
            assert(rest =~= text@.subrange(start as int, n as int));
            assert(done + lines_of(rest) =~= done.push(rest));
            lemma_header_names_push(done, rest);
        }
        push_name_in(text, &chars, start, n, &mut names);
    } else {
        assert(text@.skip(start as int).len() == 0);
        assert(done + lines_of(text@.skip(start as int)) =~= done);
    }
    names
}

} // verus!
