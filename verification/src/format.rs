//! The credentials file as a mathematical value, and the text that stands for it.
//!
//! A file holds named sections; a section maps keys to optional values. Every
//! section is written as a header line and its entries, but one: entries that
//! stand before the first header belong to a section without a header. This
//! library gives that section a name that spans two lines, so that no name
//! that fits in a header can be taken for it.

use vstd::prelude::*;

verus! {

/// The keys of one section, each with its value if it has one.
pub type Section = Map<Seq<char>, Option<Seq<char>>>;

/// The sections of a credentials file, by name.
pub type Sections = Map<Seq<char>, Section>;

/// The name under which this library keeps the entries that stand before the
/// first header: a lone line feed.
pub open spec fn headless_section() -> Seq<char> {
    "\n"@
}

/// The value stored under `key` in section `name`, if there is one.
pub open spec fn lookup(sections: Sections, name: Seq<char>, key: Seq<char>) -> Option<Seq<char>> {
    if sections.contains_key(name) && sections[name].contains_key(key) {
        sections[name][key]
    } else {
        None
    }
}

/// `sections` after `key` of section `name` is set to `value`; the section is
/// created if it is missing.
pub open spec fn with_entry(
    sections: Sections,
    name: Seq<char>,
    key: Seq<char>,
    value: Option<Seq<char>>,
) -> Sections {
    let section = if sections.contains_key(name) {
        sections[name]
    } else {
        Map::empty()
    };
    sections.insert(name, section.insert(key, value))
}

/// One `key=value` line in the order in which it is written.
pub struct Entry {
    pub key: Seq<char>,
    pub value: Option<Seq<char>>,
}

/// One section in the order in which it is written: its header and its entries.
pub struct Block {
    pub name: Seq<char>,
    pub entries: Seq<Entry>,
}

/// The two line endings a file may be written with.
pub open spec fn is_line_ending(eol: Seq<char>) -> bool {
    eol == seq!['\n'] || eol == seq!['\r', '\n']
}

/// The line of one entry: `key=value`, or `key` alone where there is no value.
pub open spec fn entry_text(entry: Entry, eol: Seq<char>) -> Seq<char> {
    match entry.value {
        Some(value) => entry.key + seq!['='] + value + eol,
        None => entry.key + eol,
    }
}

/// The lines of some entries, in order.
pub open spec fn entries_text(entries: Seq<Entry>, eol: Seq<char>) -> Seq<char>
    decreases entries.len(),
{
    if entries.len() == 0 {
        Seq::empty()
    } else {
        entry_text(entries[0], eol) + entries_text(entries.drop_first(), eol)
    }
}

/// A section header: the name in square brackets.
pub open spec fn header_text(name: Seq<char>) -> Seq<char> {
    seq!['['] + name + seq![']']
}

/// The lines of one section: its header, then its entries.
pub open spec fn block_text(block: Block, eol: Seq<char>) -> Seq<char> {
    header_text(block.name) + eol + entries_text(block.entries, eol)
}

/// The lines of some sections, in order.
pub open spec fn blocks_text(blocks: Seq<Block>, eol: Seq<char>) -> Seq<char>
    decreases blocks.len(),
{
    if blocks.len() == 0 {
        Seq::empty()
    } else {
        block_text(blocks[0], eol) + blocks_text(blocks.drop_first(), eol)
    }
}

/// `entries` lists every key of `section` exactly once, with its value.
pub open spec fn lists_section(entries: Seq<Entry>, section: Section) -> bool {
    &&& forall|i: int|
        0 <= i < entries.len() ==> section.contains_key(#[trigger] entries[i].key)
            && section[entries[i].key] == entries[i].value
    &&& forall|i: int, j: int|
        0 <= i < j < entries.len() ==> #[trigger] entries[i].key != #[trigger] entries[j].key
    &&& forall|key: Seq<char>| #[trigger]
        section.contains_key(key) ==> exists|i: int|
            0 <= i < entries.len() && #[trigger] entries[i].key == key
}

/// `blocks` lists every section of `sections` but the one named `headless`
/// exactly once, each with its entries.
pub open spec fn lists_sections(blocks: Seq<Block>, sections: Sections, headless: Seq<char>) -> bool {
    &&& forall|i: int|
        0 <= i < blocks.len() ==> (#[trigger] blocks[i]).name != headless
            && sections.contains_key(blocks[i].name) && lists_section(
            blocks[i].entries,
            sections[blocks[i].name],
        )
    &&& forall|i: int, j: int|
        0 <= i < j < blocks.len() ==> (#[trigger] blocks[i]).name != (#[trigger] blocks[j]).name
    &&& forall|name: Seq<char>| #[trigger]
        sections.contains_key(name) && name != headless ==> exists|i: int|
            0 <= i < blocks.len() && (#[trigger] blocks[i]).name == name
}

/// `text` is `sections` written in the given order and with the given line
/// ending: the entries of the section named `headless` without a header, then
/// the other sections.
pub open spec fn renders_as(
    sections: Sections,
    headless: Seq<char>,
    head: Seq<Entry>,
    blocks: Seq<Block>,
    eol: Seq<char>,
    text: Seq<char>,
) -> bool {
    &&& is_line_ending(eol)
    &&& if sections.contains_key(headless) {
        lists_section(head, sections[headless])
    } else {
        head.len() == 0
    }
    &&& lists_sections(blocks, sections, headless)
    &&& text == entries_text(head, eol) + blocks_text(blocks, eol)
}

/// `text` is `sections` written out, in some order of the sections and of the
/// entries in each, where the section named `headless` gets no header.
pub open spec fn is_rendering_with(sections: Sections, headless: Seq<char>, text: Seq<char>) -> bool {
    exists|head: Seq<Entry>, blocks: Seq<Block>, eol: Seq<char>|
        renders_as(sections, headless, head, blocks, eol, text)
}

/// `text` is `sections` written out as this library writes a credentials
/// file: in some order of the sections and of the entries in each.
pub open spec fn is_rendering(sections: Sections, text: Seq<char>) -> bool {
    is_rendering_with(sections, headless_section(), text)
}

/// `s` has no line feed in it.
pub open spec fn single_line(s: Seq<char>) -> bool {
    forall|i: int| 0 <= i < s.len() ==> s[i] != '\n'
}

/// `key` can stand at the start of a line without being taken for a header.
pub open spec fn plain_key(key: Seq<char>) -> bool {
    single_line(key) && !(key.len() > 0 && key[0] == '[')
}

/// Every key of `section` is plain and every value is on one line.
pub open spec fn tidy_section(section: Section) -> bool {
    forall|key: Seq<char>| #[trigger]
        section.contains_key(key) ==> plain_key(key) && (section[key] matches Some(value)
            ==> single_line(value))
}

/// Every section name but `headless` is on one line and every section is
/// tidy: the state of a file in which each header and each entry takes
/// exactly one line.
pub open spec fn tidy_with(sections: Sections, headless: Seq<char>) -> bool {
    forall|name: Seq<char>| #[trigger]
        sections.contains_key(name) ==> (name == headless || single_line(name)) && tidy_section(
            sections[name],
        )
}

/// The sections are tidy as this library keeps them: every name that has a
/// header is on one line, and every section is tidy.
pub open spec fn tidy(sections: Sections) -> bool {
    tidy_with(sections, headless_section())
}

/// The name of the section without a header spans two lines, so no name on
/// one line equals it.
pub proof fn lemma_headless_spans_lines()
    ensures
        headless_section() == seq!['\n'],
        !single_line(headless_section()),
{
    reveal_strlit("\n");
    assert(headless_section() =~= seq!['\n']);
    assert(headless_section()[0] == '\n');
}

} // verus!
