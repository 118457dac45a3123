//! The sections of a credentials file in memory, and the profile operations on them.

use crate::error::{ProfileError, ProfileErrorView};
use crate::format::{headless_section, is_rendering, lookup, tidy, Sections};
use crate::ini_file::{
    ini_exact, ini_get, ini_headless, ini_new, ini_parse, ini_read, ini_remove_section,
    ini_sections, ini_set, ini_set_default_section, ini_writes, MAX_TEXT_LENGTH,
};
use crate::profile::{
    access_key_id_key, lemma_profile_keys, profile_section, secret_access_key_key,
    session_token_key, AwsProfile, AwsProfileView, ProfileDetails, ProfileDetailsView,
};
use ini::configparser::ini::Ini;
use vstd::prelude::*;
use vstd::string::*;

verus! {

/// The sections after `profile` is added, or put in place of the section of
/// that name: nothing of an earlier section of that name is left.
pub open spec fn upserted(sections: Sections, profile: AwsProfileView) -> Sections {
    sections.insert(profile.profile_name, profile_section(profile))
}

/// The sections after the profile `name` is deleted.
pub open spec fn deleted(sections: Sections, name: Seq<char>) -> Sections {
    sections.remove(name)
}

/// What reading the profile `name` gives: its credentials, or the error that
/// names the first required key that is missing.
pub open spec fn details_of(sections: Sections, name: Seq<char>) -> Result<
    ProfileDetailsView,
    ProfileErrorView,
> {
    match lookup(sections, name, access_key_id_key()) {
        None => Err(ProfileErrorView::access_key_id_not_found(name)),
        Some(access_key_id) => match lookup(sections, name, secret_access_key_key()) {
            None => Err(ProfileErrorView::secret_access_key_not_found(name)),
            Some(secret_access_key) => Ok(
                ProfileDetailsView {
                    access_key_id,
                    secret_access_key,
                    session_token: lookup(sections, name, session_token_key()),
                },
            ),
        },
    }
}

/// The complaint about a text that is too long to be handed to the parser.
pub open spec fn too_long_complaint() -> Seq<char> {
    "the text is too long to be parsed"@
}

/// What reading the text of a credentials file gives. A text of more than
/// `MAX_TEXT_LENGTH` characters is turned down with a complaint of its own.
/// Any other text gives what the parser makes of it, set up as this library
/// sets it up: every section that a header names, `default` among them, is
/// a section of its own.
pub open spec fn parsed(text: Seq<char>) -> Result<Sections, Seq<char>> {
    if text.len() > MAX_TEXT_LENGTH {
        Err(too_long_complaint())
    } else {
        ini_parse(headless_section(), text)
    }
}

/// The sections of a credentials file, held by the INI parser.
pub struct ProfileStore {
    ini: Ini,
}

impl View for ProfileStore {
    type V = Sections;

    closed spec fn view(&self) -> Sections {
        ini_sections(self.ini)
    }
}

impl ProfileStore {
    /// The parser inside compares names as they are written and gives every
    /// section that a header can name a header of its own. Every store that
    /// this library hands out is well formed.
    pub closed spec fn well_formed(&self) -> bool {
        ini_exact(self.ini) && ini_headless(self.ini) == headless_section()
    }

    /// A parser without any section, set up for credentials files.
    fn parser() -> (ini: Ini)
        ensures
            ini_exact(ini),
            ini_headless(ini) == headless_section(),
            ini_sections(ini) == Sections::empty(),
    {
        let mut ini = ini_new();
        ini_set_default_section(&mut ini, "\n");
        ini
    }

    /// A store without any section.
    pub fn new() -> (store: ProfileStore)
        ensures
            store.well_formed(),
            store@ == Sections::empty(),
    {
        ProfileStore { ini: Self::parser() }
    }

    /// Reads the text of a credentials file. The result is what the parser
    /// makes of the text: its sections, which are tidy, or its complaint. A
    /// text that is too long for the parser is turned down before the parser
    /// sees it.
    pub fn parse(text: &str) -> (r: Result<ProfileStore, String>)
        ensures
            match parsed(text@) {
                Ok(sections) => r matches Ok(store) && store@ == sections,
                Err(complaint) => r matches Err(e) && e@ == complaint,
            },
            r matches Ok(store) ==> store.well_formed() && tidy(store@),
    {
        if text.unicode_len() > MAX_TEXT_LENGTH {
            return Err("the text is too long to be parsed".to_owned());
        }
        let mut ini = Self::parser();
        match ini_read(&mut ini, text) {
            Ok(()) => Ok(ProfileStore { ini }),
            Err(e) => Err(e),
        }
    }

    /// The credentials of `profile`. Fails with a `ProfileNotFound` error if
    /// the section or one of the two required keys is missing; a missing
    /// session token is no error.
    pub fn get_profile_details(&self, profile: &str) -> (r: Result<ProfileDetails, ProfileError>)
        requires
            self.well_formed(),
        ensures
            match details_of(self@, profile@) {
                Ok(details) => r matches Ok(d) && d@ == details,
                Err(error) => r matches Err(e) && e@ == error,
            },
    {
        let access_key_id = match ini_get(&self.ini, profile, "aws_access_key_id") {
            Some(value) => value,
            None => {
                return Err(ProfileError::access_key_id_not_found(profile));
            },
        };
        let secret_access_key = match ini_get(&self.ini, profile, "aws_secret_access_key") {
            Some(value) => value,
            None => {
                return Err(ProfileError::secret_access_key_not_found(profile));
            },
        };
        let session_token = ini_get(&self.ini, profile, "aws_session_token");
        Ok(ProfileDetails { access_key_id, secret_access_key, session_token })
    }

    /// Adds `profile`, or puts it in place of the profile of that name. Keys
    /// of an earlier profile of that name do not survive.
    pub fn upsert_profile(&mut self, profile: &AwsProfile)
        requires
            old(self).well_formed(),
        ensures
            final(self).well_formed(),
            final(self)@ == upserted(old(self)@, profile@),
    {
        proof {
            lemma_profile_keys();
        }
        let name = profile.profile_name.as_str();
        ini_remove_section(&mut self.ini, name);
        ini_set(&mut self.ini, name, "aws_access_key_id", Some(profile.access_key_id.clone()));
        ini_set(
            &mut self.ini,
            name,
            "aws_secret_access_key",
            Some(profile.secret_access_key.clone()),
        );
        match &profile.session_token {
            Some(token) => {
                ini_set(&mut self.ini, name, "aws_session_token", Some(token.clone()));
            },
            None => {},
        }
        assert(self@ =~~= upserted(old(self)@, profile@));
    }

    /// Deletes the profile `name` with all its keys. Deleting a profile that
    /// is not there changes nothing.
    pub fn delete_profile(&mut self, name: &str)
        requires
            old(self).well_formed(),
        ensures
            final(self).well_formed(),
            final(self)@ == deleted(old(self)@, name@),
    {
        ini_remove_section(&mut self.ini, name);
    }

    /// The store as the text of a credentials file.
    pub fn to_text(&self) -> (text: String)
        requires
            self.well_formed(),
        ensures
            is_rendering(self@, text@),
    {
        ini_writes(&self.ini)
    }
}

} // verus!
