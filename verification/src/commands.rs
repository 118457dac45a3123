//! The profile commands. Each takes what the caller found at the place of
//! the credentials file and returns what the caller is to report or to write
//! back; none touches the file itself.

use crate::error::{ProfileError, ProfileErrorView};
use crate::format::{is_rendering, single_line, tidy, Sections};
use crate::laws::{
    law_delete_then_list, law_upsert_lists_names, law_upsert_then_list,
    law_upsert_writes_one_header, lists_names_of, occurs_once, spells_own_header,
};
use crate::listing::{list_profile_names, profile_names, views};
use crate::profile::{AwsProfile, ProfileDetails};
use crate::store::{deleted, details_of, parsed, upserted, ProfileStore};
use vstd::prelude::*;
use vstd::string::*;

verus! {

/// What the caller found at `<home>/.aws/credentials`.
#[derive(Clone, Debug, PartialEq, Eq)]
pub enum CredentialsFile {
    /// The home directory is not known, so there is no place to look at.
    HomeUnknown,
    /// There is no file at that place.
    Missing,
    /// There is a file at `path`, but it could not be read, for the reason given.
    Unreadable { path: String, reason: String },
    /// The text of the file at `path`.
    Contents { path: String, text: String },
}

/// Why the file at `path` could not be loaded: the place, then what went
/// wrong in reading or in parsing it.
pub open spec fn load_reason(path: Seq<char>, why: Seq<char>) -> Seq<char> {
    "couldn't read "@ + path + ": "@ + why
}

fn load_reason_of(path: &str, why: &str) -> (reason: String)
    ensures
        reason@ == load_reason(path@, why@),
{
    let mut reason = "couldn't read ".to_owned();
    reason.append(path);
    reason.append(": ");
    reason.append(why);
    reason
}

impl CredentialsFile {
    /// What loading the file gives where the home directory is known: the
    /// sections that the parser finds in its text, none where the file is
    /// missing, or the reason for which it cannot be loaded.
    pub open spec fn sections(&self) -> Result<Sections, Seq<char>> {
        match *self {
            CredentialsFile::Contents { path, text } => match parsed(text@) {
                Ok(sections) => Ok(sections),
                Err(complaint) => Err(load_reason(path@, complaint)),
            },
            CredentialsFile::Unreadable { path, reason } => Err(load_reason(path@, reason@)),
            _ => Ok(Sections::empty()),
        }
    }

    /// Loads the file into a store; a missing file gives an empty store.
    fn load(&self) -> (r: Result<ProfileStore, String>)
        requires
            !(self is HomeUnknown),
        ensures
            match self.sections() {
                Ok(sections) => r matches Ok(store) && store@ == sections && store.well_formed()
                    && tidy(store@),
                Err(reason) => r matches Err(e) && e@ == reason,
            },
    {
        match self {
            CredentialsFile::Contents { path, text } => match ProfileStore::parse(text.as_str()) {
                Ok(store) => Ok(store),
                Err(complaint) => Err(load_reason_of(path.as_str(), complaint.as_str())),
            },
            CredentialsFile::Unreadable { path, reason } => Err(
                load_reason_of(path.as_str(), reason.as_str()),
            ),
            _ => Ok(ProfileStore::new()),
        }
    }
}

/// Lists the profile names in the credentials file, in the order of its
/// lines. A file that is missing or cannot be read is an error, not an empty
/// list.
pub fn list_aws_profiles(file: &CredentialsFile) -> (r: Result<Vec<String>, ProfileError>)
    ensures
        match *file {
            CredentialsFile::HomeUnknown => r matches Err(e) && e@
                == ProfileErrorView::home_not_found(),
            CredentialsFile::Missing | CredentialsFile::Unreadable { .. } => r matches Err(e)
                && e@ == ProfileErrorView::read_failed(),
            CredentialsFile::Contents { text, .. } => r matches Ok(names) && views(names@)
                == profile_names(text@),
        },
{
    match file {
        CredentialsFile::HomeUnknown => Err(ProfileError::home_not_found()),
        CredentialsFile::Contents { text, .. } => Ok(list_profile_names(text.as_str())),
        _ => Err(ProfileError::read_failed()),
    }
}

/// Reads the credentials of `profile`. A missing file counts as a file
/// without profiles, so the profile is then not found.
pub fn get_aws_profile_details(file: &CredentialsFile, profile: &str) -> (r: Result<
    ProfileDetails,
    ProfileError,
>)
    ensures
        match *file {
            CredentialsFile::HomeUnknown => r matches Err(e) && e@
                == ProfileErrorView::home_not_found(),
            _ => match file.sections() {
                Err(reason) => r matches Err(e) && e@ == ProfileErrorView::load_failed(reason),
                Ok(sections) => match details_of(sections, profile@) {
                    Ok(details) => r matches Ok(d) && d@ == details,
                    Err(error) => r matches Err(e) && e@ == error,
                },
            },
        },
{
    if let CredentialsFile::HomeUnknown = file {
        return Err(ProfileError::home_not_found());
    }
    match file.load() {
        Err(reason) => Err(ProfileError::load_failed(reason.as_str())),
        Ok(store) => store.get_profile_details(profile),
    }
}

/// Adds `profile` to the credentials file, or puts it in place of the
/// profile of that name, and returns the new text of the file. A missing
/// file counts as an empty one.
///
/// The new text lists the profile if its name is on one line, and exactly
/// once unless one of its credentials spans lines and spells the profile's
/// own header. If its credentials are on one line too, the new text lists
/// exactly the profile and the sections that the file had, each once.
pub fn add_or_edit_aws_profile(file: &CredentialsFile, profile: AwsProfile) -> (r: Result<
    String,
    ProfileError,
>)
    ensures
        match *file {
            CredentialsFile::HomeUnknown => r matches Err(e) && e@
                == ProfileErrorView::home_not_found(),
            _ => match file.sections() {
                Err(reason) => r matches Err(e) && e@ == ProfileErrorView::load_existing_failed(
                    reason,
                ),
                Ok(sections) => {
                    &&& r matches Ok(text)
                    &&& is_rendering(upserted(sections, profile@), text@)
                    &&& single_line(profile@.profile_name) && !spells_own_header(profile@)
                        ==> occurs_once(profile_names(text@), profile@.profile_name)
                    &&& profile@.on_one_line() ==> lists_names_of(
                        profile_names(text@),
                        upserted(sections, profile@),
                    )
                },
            },
        },
        r matches Ok(text) ==> (single_line(profile@.profile_name) ==> profile_names(
            text@,
        ).contains(profile@.profile_name)),
{
    if let CredentialsFile::HomeUnknown = file {
        return Err(ProfileError::home_not_found());
    }
    match file.load() {
        Err(reason) => Err(ProfileError::load_existing_failed(reason.as_str())),
        Ok(store) => {
            let mut store = store;
            let ghost before = store@;
            store.upsert_profile(&profile);
            let text = store.to_text();
            proof {
                if single_line(profile@.profile_name) {
                    law_upsert_then_list(before, profile@, text@);
                }
                if single_line(profile@.profile_name) && !spells_own_header(profile@) {
                    law_upsert_writes_one_header(before, profile@, text@);
                }
                if profile@.on_one_line() {
                    law_upsert_lists_names(before, profile@, text@);
                }
            }
            Ok(text)
        },
    }
}

/// Deletes `profile` from the credentials file and returns the new text of
/// the file. Deleting a profile that is not there is no error, and a missing
/// file counts as an empty one. The new text lists exactly the other
/// sections that the file had, each once, and not the profile.
pub fn delete_aws_profile(file: &CredentialsFile, profile: &str) -> (r: Result<
    String,
    ProfileError,
>)
    ensures
        match *file {
            CredentialsFile::HomeUnknown => r matches Err(e) && e@
                == ProfileErrorView::home_not_found(),
            _ => match file.sections() {
                Err(reason) => r matches Err(e) && e@ == ProfileErrorView::load_failed(reason),
                Ok(sections) => {
                    &&& r matches Ok(text)
                    &&& is_rendering(deleted(sections, profile@), text@)
                    &&& lists_names_of(profile_names(text@), deleted(sections, profile@))
                },
            },
        },
        r matches Ok(text) ==> !profile_names(text@).contains(profile@),
{
    if let CredentialsFile::HomeUnknown = file {
        return Err(ProfileError::home_not_found());
    }
    match file.load() {
        Err(reason) => Err(ProfileError::load_failed(reason.as_str())),
        Ok(store) => {
            let mut store = store;
            let ghost before = store@;
            store.delete_profile(profile);
            let text = store.to_text();
            proof {
                law_delete_then_list(before, profile@, text@);
            }
            Ok(text)
        },
    }
}

} // verus!
