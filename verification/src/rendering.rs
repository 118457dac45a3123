//! How a written credentials file reads back: which lines its text has, and
//! which names a listing finds in them.

use crate::format::{
    block_text, blocks_text, entries_text, entry_text, header_text, is_line_ending,
    is_rendering_with, lists_section, plain_key, renders_as, single_line, tidy_section,
    tidy_with, Block, Entry, Section, Sections,
};
use crate::listing::{
    header_names, lemma_header_names_push, lemma_line_end, line_end, lines_of, name_in,
    profile_names, without_carriage_return,
};
use vstd::prelude::*;

verus! {

/// `text` is made of whole lines: it is empty or ends with a line feed.
pub open spec fn whole_lines(text: Seq<char>) -> bool {
    text.len() == 0 || text.last() == '\n'
}

/// The names of some written sections, in order.
pub open spec fn block_names(blocks: Seq<Block>) -> Seq<Seq<char>> {
    blocks.map_values(|block: Block| block.name)
}

/// Every entry has a plain key and a value on one line.
pub open spec fn tidy_entries(entries: Seq<Entry>) -> bool {
    forall|i: int|
        0 <= i < entries.len() ==> plain_key((#[trigger] entries[i]).key) && (
        entries[i].value matches Some(value) ==> single_line(value))
}

/// Every written section has its name on one line and tidy entries.
pub open spec fn tidy_blocks(blocks: Seq<Block>) -> bool {
    forall|i: int|
        0 <= i < blocks.len() ==> single_line((#[trigger] blocks[i]).name) && tidy_entries(
            blocks[i].entries,
        )
}

/// `line_end` is the place of the first line feed, or the length of the text.
pub proof fn lemma_line_end_first(text: Seq<char>)
    ensures
        line_end(text) <= text.len(),
        forall|j: int| 0 <= j < line_end(text) ==> text[j] != '\n',
        line_end(text) < text.len() ==> text[line_end(text) as int] == '\n',
    decreases text.len(),
{
    if text.len() == 0 || text[0] == '\n' {
    } else {
        let rest = text.drop_first();
        lemma_line_end_first(rest);
        assert forall|j: int| 0 <= j < line_end(text) implies text[j] != '\n' by {
            if j > 0 {
                assert(text[j] == rest[j - 1]);
            }
        }
        if line_end(text) < text.len() {
            assert(text[line_end(text) as int] == rest[line_end(rest) as int]);
        }
    }
}

/// The lines of a text that follows whole lines are the lines of both, in order.
pub proof fn lemma_lines_of_concat(head: Seq<char>, tail: Seq<char>)
    requires
        whole_lines(head),
    ensures
        lines_of(head + tail) == lines_of(head) + lines_of(tail),
    decreases head.len(),
{
    if head.len() == 0 {
        assert(head + tail =~= tail);
        assert(lines_of(head) + lines_of(tail) =~= lines_of(tail));
    } else {
        lemma_line_end_first(head);
        let k = line_end(head) as int;
        if k >= head.len() {
            assert(head[head.len() - 1] != '\n');
        }
        let whole = head + tail;
        assert forall|j: int| 0 <= j < k implies whole[j] != '\n' by {
            assert(whole[j] == head[j]);
        }
        assert(whole[k] == head[k]);
        lemma_line_end(whole, k);
        assert(whole.take(k) =~= head.take(k));
        let rest = head.skip(k + 1);
        assert(whole.skip(k + 1) =~= rest + tail);
        if rest.len() > 0 {
            assert(rest.last() == head.last());
        }
        lemma_lines_of_concat(rest, tail);
        assert(lines_of(whole) == seq![without_carriage_return(whole.take(k))] + lines_of(
            whole.skip(k + 1),
        ));
        assert(lines_of(head) == seq![without_carriage_return(head.take(k))] + lines_of(rest));
        assert(lines_of(whole) =~= lines_of(head) + lines_of(tail));
    }
}

/// The names in two runs of lines are the names in the first, then those in
/// the second.
pub proof fn lemma_header_names_concat(first: Seq<Seq<char>>, second: Seq<Seq<char>>)
    ensures
        header_names(first + second) == header_names(first) + header_names(second),
    decreases second.len(),
{
    if second.len() == 0 {
        assert(first + second =~= first);
        assert(header_names(first) + header_names(second) =~= header_names(first));
    } else {
        let whole = first + second;
        assert(whole.drop_last() =~= first + second.drop_last());
        assert(whole.last() == second.last());
        lemma_header_names_concat(first, second.drop_last());
        assert(header_names(whole) =~= header_names(first) + header_names(second));
    }
}

/// The profile names of a text that follows whole lines are the names of
/// both, in order.
pub proof fn lemma_profile_names_concat(head: Seq<char>, tail: Seq<char>)
    requires
        whole_lines(head),
    ensures
        profile_names(head + tail) == profile_names(head) + profile_names(tail),
{
    lemma_lines_of_concat(head, tail);
    lemma_header_names_concat(lines_of(head), lines_of(tail));
}

/// No lines hold no names.
pub proof fn lemma_no_lines_no_names()
    ensures
        header_names(Seq::<Seq<char>>::empty()) == Seq::<Seq<char>>::empty(),
        profile_names(Seq::<char>::empty()) == Seq::<Seq<char>>::empty(),
{
    assert(header_names(Seq::<Seq<char>>::empty()) =~= Seq::<Seq<char>>::empty());
    assert(lines_of(Seq::<char>::empty()) =~= Seq::<Seq<char>>::empty());
}

/// One written line reads back as one line, which is returned: the content
/// as it was written, or, where the content ends with a carriage return and
/// the line ending is a lone line feed, the content without that carriage
/// return. The listing of the written line is the name in that line, if it
/// has one.
pub proof fn lemma_written_line(content: Seq<char>, eol: Seq<char>) -> (line: Seq<char>)
    requires
        single_line(content),
        is_line_ending(eol),
    ensures
        whole_lines(content + eol),
        lines_of(content + eol) == seq![line],
        profile_names(content + eol) == name_in(line),
        line == content || (content.len() > 0 && content.last() == '\r' && line
            == content.drop_last()),
{
    let text = content + eol;
    let k = text.len() - 1;
    assert(text[k] == eol[eol.len() - 1]);
    assert forall|j: int| 0 <= j < k implies text[j] != '\n' by {
        if j < content.len() {
            assert(text[j] == content[j]);
        } else {
            assert(text[j] == eol[j - content.len()]);
        }
    }
    lemma_line_end(text, k);
    let written = text.take(k);
    let line = without_carriage_return(written);
    if eol == seq!['\n'] {
        assert(written =~= content);
    } else {
        assert(written =~= content.push('\r'));
        assert(written.drop_last() =~= content);
    }
    assert(text.skip(k + 1).len() == 0);
    lemma_no_lines_no_names();
    assert(lines_of(text.skip(k + 1)) =~= Seq::<Seq<char>>::empty());
    assert(lines_of(text) =~= seq![line]);
    lemma_header_names_push(Seq::empty(), line);
    assert(Seq::<Seq<char>>::empty().push(line) =~= seq![line]);
    assert(Seq::<Seq<char>>::empty() + name_in(line) =~= name_in(line));
    line
}

/// A written header line lists the name between its brackets.
pub proof fn lemma_header_line(name: Seq<char>, eol: Seq<char>)
    requires
        single_line(name),
        is_line_ending(eol),
    ensures
        whole_lines(header_text(name) + eol),
        profile_names(header_text(name) + eol) == seq![name],
{
    let header = header_text(name);
    assert(header.first() == '[' && header.last() == ']');
    assert forall|i: int| 0 <= i < header.len() implies header[i] != '\n' by {
        if 0 < i < header.len() - 1 {
            assert(header[i] == name[i - 1]);
        }
    }
    let line = lemma_written_line(header, eol);
    assert(line == header);
    assert(header.subrange(1, header.len() - 1) =~= name);
}

/// A written entry ends its line, whatever it holds.
pub proof fn lemma_entry_whole_lines(entry: Entry, eol: Seq<char>)
    requires
        is_line_ending(eol),
    ensures
        whole_lines(entry_text(entry, eol)),
{
    assert(entry_text(entry, eol).last() == eol.last());
}

/// Written entries end their last line, whatever they hold.
pub proof fn lemma_entries_whole_lines(entries: Seq<Entry>, eol: Seq<char>)
    requires
        is_line_ending(eol),
    ensures
        whole_lines(entries_text(entries, eol)),
    decreases entries.len(),
{
    if entries.len() > 0 {
        lemma_entry_whole_lines(entries[0], eol);
        lemma_entries_whole_lines(entries.drop_first(), eol);
        let first = entry_text(entries[0], eol);
        let rest = entries_text(entries.drop_first(), eol);
        if rest.len() > 0 {
            assert((first + rest).last() == rest.last());
        } else {
            assert(first + rest =~= first);
        }
    }
}

/// Written sections end their last line, whatever they hold.
pub proof fn lemma_blocks_whole_lines(blocks: Seq<Block>, eol: Seq<char>)
    requires
        is_line_ending(eol),
    ensures
        whole_lines(blocks_text(blocks, eol)),
    decreases blocks.len(),
{
    if blocks.len() > 0 {
        lemma_block_whole_lines(blocks[0], eol);
        lemma_blocks_whole_lines(blocks.drop_first(), eol);
        let first = block_text(blocks[0], eol);
        let rest = blocks_text(blocks.drop_first(), eol);
        if rest.len() > 0 {
            assert((first + rest).last() == rest.last());
        } else {
            assert(first + rest =~= first);
        }
    }
}

/// A written section ends its last line, whatever it holds.
pub proof fn lemma_block_whole_lines(block: Block, eol: Seq<char>)
    requires
        is_line_ending(eol),
    ensures
        whole_lines(block_text(block, eol)),
        block_text(block, eol).len() > 0,
{
    lemma_entries_whole_lines(block.entries, eol);
    let top = header_text(block.name) + eol;
    let rest = entries_text(block.entries, eol);
    assert(top.last() == eol.last());
    if rest.len() > 0 {
        assert((top + rest).last() == rest.last());
    } else {
        assert(top + rest =~= top);
    }
}

/// A written entry with a plain key and a value on one line lists no name.
pub proof fn lemma_entry_lists_nothing(entry: Entry, eol: Seq<char>)
    requires
        is_line_ending(eol),
        plain_key(entry.key),
        entry.value matches Some(value) ==> single_line(value),
    ensures
        profile_names(entry_text(entry, eol)) == Seq::<Seq<char>>::empty(),
{
    let content = match entry.value {
        Some(value) => entry.key + seq!['='] + value,
        None => entry.key,
    };
    assert(entry_text(entry, eol) =~= content + eol);
    assert forall|i: int| 0 <= i < content.len() implies content[i] != '\n' by {
        if i < entry.key.len() {
            assert(content[i] == entry.key[i]);
        } else if let Some(value) = entry.value {
            if i > entry.key.len() {
                assert(content[i] == value[i - entry.key.len() - 1]);
            }
        }
    }
    assert(content.len() > 0 ==> content[0] != '[') by {
        if entry.key.len() > 0 {
            assert(content[0] == entry.key[0]);
        }
    }
    let line = lemma_written_line(content, eol);
    assert(line.len() > 0 ==> line[0] == content[0]);
}

/// Written tidy entries list no name.
pub proof fn lemma_entries_list_nothing(entries: Seq<Entry>, eol: Seq<char>)
    requires
        is_line_ending(eol),
        tidy_entries(entries),
    ensures
        profile_names(entries_text(entries, eol)) == Seq::<Seq<char>>::empty(),
    decreases entries.len(),
{
    if entries.len() == 0 {
        lemma_no_lines_no_names();
    } else {
        let rest = entries.drop_first();
        assert forall|i: int| 0 <= i < rest.len() implies plain_key((#[trigger] rest[i]).key) && (
        rest[i].value matches Some(value) ==> single_line(value)) by {
            assert(rest[i] == entries[i + 1]);
        }
        lemma_entry_lists_nothing(entries[0], eol);
        lemma_entries_list_nothing(rest, eol);
        lemma_entry_whole_lines(entries[0], eol);
        lemma_profile_names_concat(entry_text(entries[0], eol), entries_text(rest, eol));
    }
}

/// A written tidy section lists its name and nothing else.
pub proof fn lemma_block_lists_its_name(block: Block, eol: Seq<char>)
    requires
        is_line_ending(eol),
        single_line(block.name),
        tidy_entries(block.entries),
    ensures
        profile_names(block_text(block, eol)) == seq![block.name],
{
    lemma_header_line(block.name, eol);
    lemma_entries_list_nothing(block.entries, eol);
    lemma_profile_names_concat(header_text(block.name) + eol, entries_text(block.entries, eol));
    assert(seq![block.name] + Seq::<Seq<char>>::empty() =~= seq![block.name]);
}

/// Written tidy sections list their names, in order, and nothing else.
pub proof fn lemma_blocks_list_their_names(blocks: Seq<Block>, eol: Seq<char>)
    requires
        is_line_ending(eol),
        tidy_blocks(blocks),
    ensures
        profile_names(blocks_text(blocks, eol)) == block_names(blocks),
    decreases blocks.len(),
{
    if blocks.len() == 0 {
        lemma_no_lines_no_names();
        assert(block_names(blocks) =~= Seq::<Seq<char>>::empty());
    } else {
        let rest = blocks.drop_first();
        assert forall|i: int| 0 <= i < rest.len() implies single_line((#[trigger] rest[i]).name)
            && tidy_entries(rest[i].entries) by {
            assert(rest[i] == blocks[i + 1]);
        }
        lemma_block_lists_its_name(blocks[0], eol);
        lemma_blocks_list_their_names(rest, eol);
        lemma_block_whole_lines(blocks[0], eol);
        lemma_profile_names_concat(block_text(blocks[0], eol), blocks_text(rest, eol));
        assert(block_names(blocks) =~= seq![blocks[0].name] + block_names(rest));
    }
}

/// The names that a written value puts on lines of their own: none where the
/// value is on one line, else the names in what follows its first line feed.
pub open spec fn stray_names(value: Option<Seq<char>>, eol: Seq<char>) -> Seq<Seq<char>> {
    match value {
        Some(text) => if single_line(text) {
            Seq::empty()
        } else {
            profile_names(text.skip(line_end(text) as int + 1) + eol)
        },
        None => Seq::empty(),
    }
}

/// The names that the values of some written entries put on lines of their
/// own, in the order of the entries.
pub open spec fn entries_strays(entries: Seq<Entry>, eol: Seq<char>) -> Seq<Seq<char>>
    decreases entries.len(),
{
    if entries.len() == 0 {
        Seq::empty()
    } else {
        stray_names(entries[0].value, eol) + entries_strays(entries.drop_first(), eol)
    }
}

/// Every entry has a plain key; its value may span lines.
pub open spec fn plain_keys(entries: Seq<Entry>) -> bool {
    forall|i: int| 0 <= i < entries.len() ==> plain_key((#[trigger] entries[i]).key)
}

/// A written entry with a plain key lists what its value puts on lines of
/// their own, and nothing else.
pub proof fn lemma_entry_lists_strays(entry: Entry, eol: Seq<char>)
    requires
        is_line_ending(eol),
        plain_key(entry.key),
    ensures
        profile_names(entry_text(entry, eol)) == stray_names(entry.value, eol),
{
    match entry.value {
        Some(value) if !single_line(value) => {
            lemma_line_end_first(value);
            let cut = line_end(value) as int;
            assert(cut < value.len());
            let text = entry_text(entry, eol);
            let k = entry.key.len() + 1 + cut;
            assert forall|j: int| 0 <= j < k implies text[j] != '\n' by {
                if j < entry.key.len() {
                    assert(text[j] == entry.key[j]);
                } else if j > entry.key.len() {
                    assert(text[j] == value[j - entry.key.len() - 1]);
                }
            }
            assert(text[k] == value[cut]);
            lemma_line_end(text, k);
            let rest = value.skip(cut + 1) + eol;
            assert(text.skip(k + 1) =~= rest);
            let first = without_carriage_return(text.take(k));
            assert(text.take(k).len() > 0 && text.take(k)[0] != '[') by {
                if entry.key.len() > 0 {
                    assert(text.take(k)[0] == entry.key[0]);
                }
            }
            assert(first.len() > 0 ==> first[0] == text.take(k)[0]);
            assert(name_in(first) =~= Seq::<Seq<char>>::empty());
            assert(lines_of(text) == seq![first] + lines_of(rest));
            lemma_no_lines_no_names();
            lemma_header_names_push(Seq::empty(), first);
            assert(Seq::<Seq<char>>::empty().push(first) =~= seq![first]);
            lemma_header_names_concat(seq![first], lines_of(rest));
            assert(profile_names(text) =~= profile_names(rest));
        },
        _ => {
            lemma_entry_lists_nothing(entry, eol);
        },
    }
}

/// Written entries with plain keys list what their values put on lines of
/// their own, and nothing else.
pub proof fn lemma_entries_list_strays(entries: Seq<Entry>, eol: Seq<char>)
    requires
        is_line_ending(eol),
        plain_keys(entries),
    ensures
        profile_names(entries_text(entries, eol)) == entries_strays(entries, eol),
    decreases entries.len(),
{
    if entries.len() == 0 {
        lemma_no_lines_no_names();
    } else {
        let rest = entries.drop_first();
        assert forall|i: int| 0 <= i < rest.len() implies plain_key((#[trigger] rest[i]).key) by {
            assert(rest[i] == entries[i + 1]);
        }
        lemma_entry_lists_strays(entries[0], eol);
        lemma_entries_list_strays(rest, eol);
        lemma_entry_whole_lines(entries[0], eol);
        lemma_profile_names_concat(entry_text(entries[0], eol), entries_text(rest, eol));
    }
}

/// A written section whose name is on one line and whose keys are plain
/// lists its name, then what its values put on lines of their own.
pub proof fn lemma_block_lists_name_and_strays(block: Block, eol: Seq<char>)
    requires
        is_line_ending(eol),
        single_line(block.name),
        plain_keys(block.entries),
    ensures
        profile_names(block_text(block, eol)) == seq![block.name] + entries_strays(
            block.entries,
            eol,
        ),
{
    lemma_header_line(block.name, eol);
    lemma_entries_list_strays(block.entries, eol);
    lemma_profile_names_concat(header_text(block.name) + eol, entries_text(block.entries, eol));
}

/// Where no value of some entries puts `name` on a line of its own, the
/// entries together do not either.
pub proof fn lemma_strays_lack(entries: Seq<Entry>, eol: Seq<char>, name: Seq<char>)
    requires
        forall|i: int|
            0 <= i < entries.len() ==> !stray_names((#[trigger] entries[i]).value, eol).contains(
                name,
            ),
    ensures
        !entries_strays(entries, eol).contains(name),
    decreases entries.len(),
{
    if entries.len() > 0 {
        let rest = entries.drop_first();
        assert forall|i: int| 0 <= i < rest.len() implies !stray_names(
            (#[trigger] rest[i]).value,
            eol,
        ).contains(name) by {
            assert(rest[i] == entries[i + 1]);
        }
        lemma_strays_lack(rest, eol, name);
        let first = stray_names(entries[0].value, eol);
        let others = entries_strays(rest, eol);
        assert(!first.contains(name));
        if (first + others).contains(name) {
            let i = choose|i: int| 0 <= i < (first + others).len() && (first + others)[i] == name;
            if i < first.len() {
                assert(first[i] == name);
            } else {
                assert(others[i - first.len()] == name);
            }
        }
    }
}

/// The text of some sections is that of the sections before the `k`th, that
/// of the `k`th, and that of the sections after it.
pub proof fn lemma_blocks_text_split(blocks: Seq<Block>, eol: Seq<char>, k: int)
    requires
        0 <= k < blocks.len(),
    ensures
        blocks_text(blocks, eol) == blocks_text(blocks.take(k), eol) + block_text(blocks[k], eol)
            + blocks_text(blocks.skip(k + 1), eol),
    decreases k,
{
    let rest = blocks.drop_first();
    if k == 0 {
        assert(blocks.take(0) =~= Seq::<Block>::empty());
        assert(blocks.skip(1) =~= rest);
        assert(blocks_text(blocks.take(0), eol) + block_text(blocks[0], eol) =~= block_text(
            blocks[0],
            eol,
        ));
    } else {
        lemma_blocks_text_split(rest, eol, k - 1);
        assert(rest.take(k - 1) =~= blocks.take(k).drop_first());
        assert(rest.skip(k) =~= blocks.skip(k + 1));
        assert(rest[k - 1] == blocks[k]);
        assert(blocks.take(k)[0] == blocks[0]);
        assert(blocks_text(blocks.take(k), eol) == block_text(blocks[0], eol) + blocks_text(
            rest.take(k - 1),
            eol,
        ));
        assert(blocks_text(blocks, eol) =~= blocks_text(blocks.take(k), eol) + block_text(
            blocks[k],
            eol,
        ) + blocks_text(blocks.skip(k + 1), eol));
    }
}

/// Entries that list a tidy section are tidy.
pub proof fn lemma_listed_entries_tidy(entries: Seq<Entry>, section: Section)
    requires
        lists_section(entries, section),
        tidy_section(section),
    ensures
        tidy_entries(entries),
{
    assert forall|i: int| 0 <= i < entries.len() implies plain_key((#[trigger] entries[i]).key)
        && (entries[i].value matches Some(value) ==> single_line(value)) by {
        assert(section.contains_key(entries[i].key));
    }
}

/// A listing of a written file whose sections are tidy finds the names of
/// the written sections, in the order in which they were written.
pub proof fn lemma_listing_of_rendering(
    sections: Sections,
    headless: Seq<char>,
    head: Seq<Entry>,
    blocks: Seq<Block>,
    eol: Seq<char>,
    text: Seq<char>,
)
    requires
        tidy_with(sections, headless),
        renders_as(sections, headless, head, blocks, eol, text),
    ensures
        profile_names(text) == block_names(blocks),
{
    if sections.contains_key(headless) {
        lemma_listed_entries_tidy(head, sections[headless]);
    }
    assert forall|i: int| 0 <= i < blocks.len() implies single_line((#[trigger] blocks[i]).name)
        && tidy_entries(blocks[i].entries) by {
        assert(sections.contains_key(blocks[i].name));
        lemma_listed_entries_tidy(blocks[i].entries, sections[blocks[i].name]);
    }
    lemma_entries_list_nothing(head, eol);
    lemma_blocks_list_their_names(blocks, eol);
    lemma_entries_whole_lines(head, eol);
    lemma_profile_names_concat(entries_text(head, eol), blocks_text(blocks, eol));
    assert(Seq::<Seq<char>>::empty() + block_names(blocks) =~= block_names(blocks));
}

/// A listing of a written file finds every section that has a header and
/// whose name is on one line, whatever else the file holds.
pub proof fn lemma_section_is_listed(
    sections: Sections,
    headless: Seq<char>,
    text: Seq<char>,
    name: Seq<char>,
)
    requires
        is_rendering_with(sections, headless, text),
        sections.contains_key(name),
        name != headless,
        single_line(name),
    ensures
        profile_names(text).contains(name),
{
    let (head, blocks, eol) = choose|head: Seq<Entry>, blocks: Seq<Block>, eol: Seq<char>|
        renders_as(sections, headless, head, blocks, eol, text);
    let k = choose|i: int| 0 <= i < blocks.len() && (#[trigger] blocks[i]).name == name;
    lemma_blocks_text_split(blocks, eol, k);
    let before = entries_text(head, eol) + blocks_text(blocks.take(k), eol);
    let top = header_text(name) + eol;
    let after = entries_text(blocks[k].entries, eol) + blocks_text(blocks.skip(k + 1), eol);
    assert(text =~= before + (top + after));
    lemma_entries_whole_lines(head, eol);
    lemma_blocks_whole_lines(blocks.take(k), eol);
    assert(whole_lines(before)) by {
        let a = entries_text(head, eol);
        let b = blocks_text(blocks.take(k), eol);
        if b.len() > 0 {
            assert((a + b).last() == b.last());
        } else {
            assert(a + b =~= a);
        }
    }
    lemma_header_line(name, eol);
    lemma_profile_names_concat(before, top + after);
    lemma_profile_names_concat(top, after);
    let found = profile_names(before) + (seq![name] + profile_names(after));
    assert(profile_names(text) == found);
    assert(found[profile_names(before).len() as int] == name);
}

} // verus!
