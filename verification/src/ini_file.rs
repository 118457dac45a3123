//! The INI parser that holds the sections of a credentials file in memory.
//!
//! Nothing in this file is proved: each function states what the parser's
//! method does, and the rest of the library is verified against these
//! statements.

use crate::format::{is_rendering_with, lookup, tidy_with, with_entry, Sections};
use ini::configparser::ini::Ini;
use vstd::prelude::*;

verus! {

#[verifier::external_type_specification]
#[verifier::external_body]
pub struct ExIni(Ini);

/// The sections that the parser holds.
pub uninterp spec fn ini_sections(ini: Ini) -> Map<Seq<char>, Map<Seq<char>, Option<Seq<char>>>>;

/// The parser is set up as `Ini::new_cs` leaves it, whatever the name of its
/// section without a header: names are compared as they are written, one line
/// holds one entry, and a lookup never falls back to another section.
pub uninterp spec fn ini_exact(ini: Ini) -> bool;

/// The name of the section that the parser reads and writes without a header
/// (its "default section").
pub uninterp spec fn ini_headless(ini: Ini) -> Seq<char>;

/// What `Ini::read` makes of a text on a parser set up by `Ini::new_cs` whose
/// section without a header is named `headless`: the sections it finds, or
/// its complaint.
pub uninterp spec fn ini_parse(headless: Seq<char>, text: Seq<char>) -> Result<
    Map<Seq<char>, Map<Seq<char>, Option<Seq<char>>>>,
    Seq<char>,
>;

/// The longest text, in characters, that `Ini::read` is handed. The parser
/// numbers the lines of a text with a 32-bit signed counter that it advances
/// once more than there are lines; a text has no more lines than characters,
/// so up to this length the counter stays in range.
pub const MAX_TEXT_LENGTH: usize = 0x7fff_fffd;

/// `Ini::new_cs`: a case-sensitive parser that holds no section. Its section
/// without a header is named `default`.
#[verifier::external_body]
pub(crate) fn ini_new() -> (ini: Ini)
    ensures
        ini_exact(ini),
        ini_headless(ini) == "default"@,
        ini_sections(ini) == Sections::empty(),
{
    Ini::new_cs()
}

/// `Ini::set_default_section`: from now on the section without a header is
/// the one named `name`. Nothing else changes.
#[verifier::external_body]
pub(crate) fn ini_set_default_section(ini: &mut Ini, name: &str)
    ensures
        ini_exact(*final(ini)) == ini_exact(*old(ini)),
        ini_sections(*final(ini)) == ini_sections(*old(ini)),
        ini_headless(*final(ini)) == name@,
{
    ini.set_default_section(name);
}

/// `Ini::read`: parses `text` and, on success, replaces what the parser holds by
/// the sections found; on failure the parser keeps what it held and the
/// complaint is returned. Entries that stand before the first header go to
/// the section without a header. Whatever is read is tidy: the text is taken
/// line by line, the names in headers, the keys and the values are pieces of
/// one line, and a line that begins with `[` is a header, never an entry.
/// A text longer than `MAX_TEXT_LENGTH` is not admitted: on it the parser's
/// line counter can overflow.
#[verifier::external_body]
pub(crate) fn ini_read(ini: &mut Ini, text: &str) -> (r: Result<(), String>)
    requires
        ini_exact(*old(ini)),
        text@.len() <= MAX_TEXT_LENGTH,
    ensures
        ini_exact(*final(ini)),
        ini_headless(*final(ini)) == ini_headless(*old(ini)),
        match ini_parse(ini_headless(*old(ini)), text@) {
            Ok(sections) => r is Ok && ini_sections(*final(ini)) == sections,
            Err(complaint) => r matches Err(e) && e@ == complaint && ini_sections(*final(ini))
                == ini_sections(*old(ini)),
        },
        r is Ok ==> tidy_with(ini_sections(*final(ini)), ini_headless(*final(ini))),
{
    match ini.read(text.to_owned()) {
        Ok(_) => Ok(()),
        Err(e) => Err(e),
    }
}

/// `Ini::get`: the value of `key` in `section`, where both exist and the key
/// has a value.
#[verifier::external_body]
pub(crate) fn ini_get(ini: &Ini, section: &str, key: &str) -> (value: Option<String>)
    requires
        ini_exact(*ini),
    ensures
        value.deep_view() == lookup(ini_sections(*ini), section@, key@),
{
    ini.get(section, key)
}

/// `Ini::set`: sets `key` of `section` to `value`, creating the section if it
/// is missing.
#[verifier::external_body]
pub(crate) fn ini_set(ini: &mut Ini, section: &str, key: &str, value: Option<String>)
    requires
        ini_exact(*old(ini)),
    ensures
        ini_exact(*final(ini)),
        ini_headless(*final(ini)) == ini_headless(*old(ini)),
        ini_sections(*final(ini)) == with_entry(
            ini_sections(*old(ini)),
            section@,
            key@,
            value.deep_view(),
        ),
{
    let _ = ini.set(section, key, value);
}

/// `Ini::remove_section`: removes `section` with all its entries, if it is there.
#[verifier::external_body]
pub(crate) fn ini_remove_section(ini: &mut Ini, section: &str)
    requires
        ini_exact(*old(ini)),
    ensures
        ini_exact(*final(ini)),
        ini_headless(*final(ini)) == ini_headless(*old(ini)),
        ini_sections(*final(ini)) == ini_sections(*old(ini)).remove(section@),
{
    let _ = ini.remove_section(section);
}

/// `Ini::writes`: the sections as text. The entries of the section without a
/// header come first; each other section follows as a header line and its
/// entries. The order of the sections, and of the entries in each, is that of
/// a hash map and so is not fixed; the line ending is that of the platform.
#[verifier::external_body]
pub(crate) fn ini_writes(ini: &Ini) -> (text: String)
    requires
        ini_exact(*ini),
    ensures
        is_rendering_with(ini_sections(*ini), ini_headless(*ini), text@),
{
    ini.writes()
}

} // verus!
