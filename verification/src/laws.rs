//! What holds of the profile operations taken together.
//!
//! The laws on reading a profile back speak of the sections in memory. The
//! laws on listing speak of the text that is written.

use crate::error::ProfileErrorView;
use crate::format::{
    block_text, blocks_text, entries_text, headless_section, is_rendering,
    lemma_headless_spans_lines, plain_key, renders_as, single_line, tidy, Block, Entry,
    Sections,
};
use crate::listing::profile_names;
use crate::profile::{
    lemma_profile_keys, lemma_profile_section_tidy, profile_section, AwsProfileView,
    ProfileDetailsView,
};
use crate::rendering::{
    block_names, entries_strays, lemma_block_lists_name_and_strays, lemma_block_whole_lines,
    lemma_blocks_list_their_names, lemma_blocks_text_split, lemma_blocks_whole_lines,
    lemma_entries_list_nothing, lemma_entries_whole_lines, lemma_listed_entries_tidy,
    lemma_listing_of_rendering, lemma_profile_names_concat, lemma_section_is_listed,
    lemma_strays_lack, stray_names, tidy_blocks, tidy_entries,
};
use crate::store::{deleted, details_of, upserted};
use vstd::prelude::*;

verus! {

/// `names` holds every name of `sections` that fits on one line, each once,
/// and nothing else.
pub open spec fn lists_names_of(names: Seq<Seq<char>>, sections: Sections) -> bool {
    &&& names.no_duplicates()
    &&& forall|name: Seq<char>| #[trigger]
        names.contains(name) <==> sections.contains_key(name) && single_line(name)
}

/// Writing then listing: whatever the file held before, the text written
/// after a profile is added or edited lists that profile, provided that its
/// name is on one line.
pub proof fn law_upsert_then_list(sections: Sections, profile: AwsProfileView, text: Seq<char>)
    requires
        is_rendering(upserted(sections, profile), text),
        single_line(profile.profile_name),
    ensures
        profile_names(text).contains(profile.profile_name),
{
    lemma_headless_spans_lines();
    lemma_section_is_listed(
        upserted(sections, profile),
        headless_section(),
        text,
        profile.profile_name,
    );
}

/// Round trip, in memory: reading a profile from the sections to which it
/// was added gives back exactly the credentials that were written, session
/// token included. Nothing is said here of sections that were written out
/// as text and read in again.
pub proof fn law_upsert_then_details(sections: Sections, profile: AwsProfileView)
    ensures
        details_of(upserted(sections, profile), profile.profile_name) == Ok::<
            ProfileDetailsView,
            ProfileErrorView,
        >(
            ProfileDetailsView {
                access_key_id: profile.access_key_id,
                secret_access_key: profile.secret_access_key,
                session_token: profile.session_token,
            },
        ),
{
    lemma_profile_keys();
}

/// An edit clears stale fields, in memory: in the sections in which a
/// profile was put in place of an earlier one of its name, it reads back
/// without a session token if it was written without one. Nothing is said
/// here of sections that were written out as text and read in again.
pub proof fn law_edit_clears_session_token(
    sections: Sections,
    earlier: AwsProfileView,
    later: AwsProfileView,
)
    requires
        earlier.profile_name == later.profile_name,
        later.session_token is None,
    ensures
        details_of(upserted(upserted(sections, earlier), later), later.profile_name) matches Ok(
            details,
        ) && details.session_token is None,
{
    lemma_profile_keys();
    law_upsert_then_details(upserted(sections, earlier), later);
}

/// Writing a profile leaves every other section as it was, with its keys
/// and values.
pub proof fn law_upsert_keeps_others(sections: Sections, profile: AwsProfileView, other: Seq<char>)
    requires
        other != profile.profile_name,
    ensures
        upserted(sections, profile).contains_key(other) == sections.contains_key(other),
        sections.contains_key(other) ==> upserted(sections, profile)[other] == sections[other],
        details_of(upserted(sections, profile), other) == details_of(sections, other),
{
}

/// Deleting is idempotent, in memory: deleting a profile that is not there
/// changes nothing, and so does deleting a profile a second time. That a
/// delete never fails for want of the profile is stated where the profile is
/// deleted. Nothing is said here of sections that were written out as text
/// and read in again.
pub proof fn law_delete_idempotent(sections: Sections, name: Seq<char>)
    ensures
        !sections.contains_key(name) ==> deleted(sections, name) == sections,
        deleted(deleted(sections, name), name) == deleted(sections, name),
{
    assert(!sections.contains_key(name) ==> deleted(sections, name) =~= sections);
    assert(deleted(deleted(sections, name), name) =~= deleted(sections, name));
}

/// Reading a profile from the sections from which it was deleted fails with
/// a `ProfileNotFound` error.
pub proof fn law_delete_then_details(sections: Sections, name: Seq<char>)
    ensures
        details_of(deleted(sections, name), name) == Err::<ProfileDetailsView, ProfileErrorView>(
            ProfileErrorView::access_key_id_not_found(name),
        ),
{
}

/// Deleting a profile leaves every other section as it was, with its keys
/// and values.
pub proof fn law_delete_keeps_others(sections: Sections, name: Seq<char>, other: Seq<char>)
    requires
        other != name,
    ensures
        deleted(sections, name).contains_key(other) == sections.contains_key(other),
        sections.contains_key(other) ==> deleted(sections, name)[other] == sections[other],
        details_of(deleted(sections, name), other) == details_of(sections, other),
{
}

/// A listing of a written file whose sections are tidy finds exactly the
/// sections whose names fit on one line, each once: every section that a
/// header can name is listed.
pub proof fn law_listing_matches_store(sections: Sections, text: Seq<char>)
    requires
        tidy(sections),
        is_rendering(sections, text),
    ensures
        lists_names_of(profile_names(text), sections),
{
    lemma_headless_spans_lines();
    let headless = headless_section();
    let (head, blocks, eol) = choose|head: Seq<Entry>, blocks: Seq<Block>, eol: Seq<char>|
        renders_as(sections, headless, head, blocks, eol, text);
    lemma_listing_of_rendering(sections, headless, head, blocks, eol, text);
    let names = block_names(blocks);
    assert forall|name: Seq<char>| #[trigger]
        names.contains(name) <==> sections.contains_key(name) && single_line(name) by {
        if names.contains(name) {
            let i = choose|i: int| 0 <= i < names.len() && names[i] == name;
            assert(blocks[i].name == name);
            assert(sections.contains_key(name));
        }
        if sections.contains_key(name) && single_line(name) {
            let i = choose|i: int| 0 <= i < blocks.len() && (#[trigger] blocks[i]).name == name;
            assert(names[i] == name);
        }
    }
    assert forall|i: int, j: int|
        0 <= i < names.len() && 0 <= j < names.len() && i != j implies names[i] != names[j] by {
        assert(names[i] == blocks[i].name);
        assert(names[j] == blocks[j].name);
        if i < j {
            assert(blocks[i].name != blocks[j].name);
        } else {
            assert(blocks[j].name != blocks[i].name);
        }
    }
}

/// Adding a profile whose name and credentials fit on one line keeps tidy
/// sections tidy.
pub proof fn lemma_upserted_tidy(sections: Sections, profile: AwsProfileView)
    requires
        tidy(sections),
        profile.on_one_line(),
    ensures
        tidy(upserted(sections, profile)),
{
    lemma_profile_section_tidy(profile);
}

/// After a profile whose name and credentials fit on one line is added to a
/// file whose sections are tidy, the text written lists that profile and the
/// sections that were there, each once: no name is lost and none is gained
/// but that of the profile.
pub proof fn law_upsert_lists_names(sections: Sections, profile: AwsProfileView, text: Seq<char>)
    requires
        tidy(sections),
        profile.on_one_line(),
        is_rendering(upserted(sections, profile), text),
    ensures
        lists_names_of(profile_names(text), upserted(sections, profile)),
        profile_names(text).no_duplicates(),
        forall|name: Seq<char>| #[trigger]
            profile_names(text).contains(name) <==> name == profile.profile_name || (
            sections.contains_key(name) && single_line(name)),
{
    lemma_upserted_tidy(sections, profile);
    law_listing_matches_store(upserted(sections, profile), text);
}

/// A credential puts a header of `name` on a line of its own when it is
/// written, under one of the two line endings.
pub open spec fn spells_header(credential: Seq<char>, name: Seq<char>) -> bool {
    ||| stray_names(Some(credential), seq!['\n']).contains(name)
    ||| stray_names(Some(credential), seq!['\r', '\n']).contains(name)
}

/// One of the credentials of the profile spans lines so that, written out,
/// it shows a header of the profile's own name.
pub open spec fn spells_own_header(profile: AwsProfileView) -> bool {
    ||| spells_header(profile.access_key_id, profile.profile_name)
    ||| spells_header(profile.secret_access_key, profile.profile_name)
    ||| profile.session_token matches Some(token) && spells_header(token, profile.profile_name)
}

/// `name` stands in `names` at exactly one place.
pub open spec fn occurs_once(names: Seq<Seq<char>>, name: Seq<char>) -> bool {
    exists|i: int|
        0 <= i < names.len() && #[trigger] names[i] == name && forall|j: int|
            0 <= j < names.len() && j != i ==> #[trigger] names[j] != name
}

/// A profile whose credentials are each on one line spells no header.
pub proof fn lemma_one_line_spells_nothing(profile: AwsProfileView)
    requires
        profile.on_one_line(),
    ensures
        !spells_own_header(profile),
{
}

/// After a profile whose name is on one line is added to a file whose
/// sections are tidy, the text written has the header of the profile exactly
/// once, unless a credential of the profile itself spells that header on a
/// line of its own.
pub proof fn law_upsert_writes_one_header(
    sections: Sections,
    profile: AwsProfileView,
    text: Seq<char>,
)
    requires
        tidy(sections),
        single_line(profile.profile_name),
        !spells_own_header(profile),
        is_rendering(upserted(sections, profile), text),
    ensures
        occurs_once(profile_names(text), profile.profile_name),
{
    lemma_headless_spans_lines();
    lemma_profile_keys();
    let name = profile.profile_name;
    let written = upserted(sections, profile);
    let headless = headless_section();
    let (head, blocks, eol) = choose|head: Seq<Entry>, blocks: Seq<Block>, eol: Seq<char>|
        renders_as(written, headless, head, blocks, eol, text);
    assert(written.contains_key(name) && name != headless);
    let k = choose|i: int| 0 <= i < blocks.len() && (#[trigger] blocks[i]).name == name;
    let before = blocks.take(k);
    let after = blocks.skip(k + 1);
    let own = blocks[k];

    // What stands around the profile is as tidy as the file was.
    if written.contains_key(headless) {
        lemma_listed_entries_tidy(head, written[headless]);
    }
    assert(tidy_blocks(before)) by {
        assert forall|i: int| 0 <= i < before.len() implies single_line(
            (#[trigger] before[i]).name,
        ) && tidy_entries(before[i].entries) by {
            assert(before[i] == blocks[i]);
            assert(blocks[i].name != blocks[k].name);
            assert(sections.contains_key(blocks[i].name));
            lemma_listed_entries_tidy(blocks[i].entries, written[blocks[i].name]);
        }
    }
    assert(tidy_blocks(after)) by {
        assert forall|i: int| 0 <= i < after.len() implies single_line((#[trigger] after[i]).name)
            && tidy_entries(after[i].entries) by {
            assert(after[i] == blocks[k + 1 + i]);
            assert(blocks[k].name != blocks[k + 1 + i].name);
            assert(sections.contains_key(blocks[k + 1 + i].name));
            lemma_listed_entries_tidy(blocks[k + 1 + i].entries, written[blocks[k + 1 + i].name]);
        }
    }
    // The profile's own entries have plain keys and spell no header of its name.
    assert(written[name] == profile_section(profile));
    assert forall|i: int| 0 <= i < own.entries.len() implies plain_key(
        (#[trigger] own.entries[i]).key,
    ) && !stray_names(own.entries[i].value, eol).contains(name) by {
        assert(profile_section(profile).contains_key(own.entries[i].key));
    }
    lemma_strays_lack(own.entries, eol, name);
    lemma_block_lists_name_and_strays(own, eol);

    // The listing of the text, piece by piece.
    lemma_entries_list_nothing(head, eol);
    lemma_blocks_list_their_names(before, eol);
    lemma_blocks_list_their_names(after, eol);
    lemma_blocks_text_split(blocks, eol, k);
    lemma_entries_whole_lines(head, eol);
    lemma_blocks_whole_lines(before, eol);
    lemma_block_whole_lines(own, eol);
    let t_head = entries_text(head, eol);
    let t_before = blocks_text(before, eol);
    let t_own = block_text(own, eol);
    let t_after = blocks_text(after, eol);
    assert(text =~= t_head + (t_before + (t_own + t_after)));
    lemma_profile_names_concat(t_head, t_before + (t_own + t_after));
    lemma_profile_names_concat(t_before, t_own + t_after);
    lemma_profile_names_concat(t_own, t_after);
    let a = block_names(before);
    let strays = entries_strays(own.entries, eol);
    let b = block_names(after);
    let names = profile_names(text);
    assert(names =~= a + (seq![name] + strays) + b);
    let at = a.len() as int;
    assert(names[at] == name);
    assert forall|j: int| 0 <= j < names.len() && j != at implies #[trigger] names[j] != name by {
        if j < at {
            assert(names[j] == before[j].name);
            assert(before[j] == blocks[j]);
            assert(blocks[j].name != blocks[k].name);
        } else if j <= at + strays.len() {
            assert(names[j] == strays[j - at - 1]);
        } else {
            let i = j - at - 1 - strays.len();
            assert(names[j] == after[i].name);
            assert(after[i] == blocks[k + 1 + i]);
            assert(blocks[k].name != blocks[k + 1 + i].name);
        }
    }
}

/// After a profile is deleted from a file whose sections are tidy, the text
/// written lists the other sections, each once, and not the profile: no
/// other name is lost and none is gained.
pub proof fn law_delete_then_list(sections: Sections, name: Seq<char>, text: Seq<char>)
    requires
        tidy(sections),
        is_rendering(deleted(sections, name), text),
    ensures
        lists_names_of(profile_names(text), deleted(sections, name)),
        !profile_names(text).contains(name),
        forall|other: Seq<char>| #[trigger]
            profile_names(text).contains(other) <==> other != name && sections.contains_key(
                other,
            ) && single_line(other),
{
    law_listing_matches_store(deleted(sections, name), text);
}

} // verus!
