//! Errors of the profile commands: a class and the text shown to the user.

use vstd::prelude::*;
use vstd::string::*;

verus! {

/// The classes into which every failure of a command falls.
#[derive(Clone, Copy, Debug, PartialEq, Eq, Structural)]
pub enum ErrorClass {
    /// The home directory could not be resolved.
    EnvironmentUnavailable,
    /// The credentials file could not be read or understood.
    FileUnreadable,
    /// The credentials file, or the directory that holds it, could not be written.
    FileUnwritable,
    /// The requested profile, or one of its required keys, is absent.
    ProfileNotFound,
    /// The remote identity check failed.
    VerificationFailed,
}

/// A failure of a command.
#[derive(Clone, Debug, PartialEq, Eq)]
pub struct ProfileError {
    pub class: ErrorClass,
    pub message: String,
}

/// The mathematical value of a [`ProfileError`].
pub struct ProfileErrorView {
    pub class: ErrorClass,
    pub message: Seq<char>,
}

impl View for ProfileError {
    type V = ProfileErrorView;

    open spec fn view(&self) -> ProfileErrorView {
        ProfileErrorView { class: self.class, message: self.message@ }
    }
}

impl ProfileErrorView {
    /// An error of class `class` whose message is `prefix` followed by `detail`.
    pub open spec fn with_detail(class: ErrorClass, prefix: Seq<char>, detail: Seq<char>) -> Self {
        ProfileErrorView { class, message: prefix + detail }
    }

    pub open spec fn home_not_found() -> Self {
        ProfileErrorView {
            class: ErrorClass::EnvironmentUnavailable,
            message: "Unable to find HOME directory"@,
        }
    }

    pub open spec fn read_failed() -> Self {
        ProfileErrorView {
            class: ErrorClass::FileUnreadable,
            message: "Unable to read AWS credentials file"@,
        }
    }

    pub open spec fn load_failed(reason: Seq<char>) -> Self {
        Self::with_detail(
            ErrorClass::FileUnreadable,
            "Failed to load AWS credentials file: "@,
            reason,
        )
    }

    pub open spec fn load_existing_failed(reason: Seq<char>) -> Self {
        Self::with_detail(
            ErrorClass::FileUnreadable,
            "Failed to load existing AWS credentials file: "@,
            reason,
        )
    }

    pub open spec fn create_directory_failed(reason: Seq<char>) -> Self {
        Self::with_detail(
            ErrorClass::FileUnwritable,
            "Failed to create .aws directory: "@,
            reason,
        )
    }

    pub open spec fn create_file_failed(reason: Seq<char>) -> Self {
        Self::with_detail(
            ErrorClass::FileUnwritable,
            "Failed to create AWS credentials file: "@,
            reason,
        )
    }

    pub open spec fn write_failed(reason: Seq<char>) -> Self {
        Self::with_detail(
            ErrorClass::FileUnwritable,
            "Failed to write to AWS credentials file: "@,
            reason,
        )
    }

    pub open spec fn update_failed(reason: Seq<char>) -> Self {
        Self::with_detail(
            ErrorClass::FileUnwritable,
            "Failed to update AWS credentials file: "@,
            reason,
        )
    }

    pub open spec fn access_key_id_not_found(profile: Seq<char>) -> Self {
        Self::with_detail(
            ErrorClass::ProfileNotFound,
            "Access Key ID not found for profile: "@,
            profile,
        )
    }

    pub open spec fn secret_access_key_not_found(profile: Seq<char>) -> Self {
        Self::with_detail(
            ErrorClass::ProfileNotFound,
            "Secret Access Key not found for profile: "@,
            profile,
        )
    }

    pub open spec fn identity_check_failed(reason: Seq<char>) -> Self {
        Self::with_detail(
            ErrorClass::VerificationFailed,
            "Failed to get AWS caller identity: "@,
            reason,
        )
    }
}

impl ProfileError {
    fn with_detail(class: ErrorClass, prefix: &str, detail: &str) -> (e: ProfileError)
        ensures
            e@ == ProfileErrorView::with_detail(class, prefix@, detail@),
    {
        let mut message = prefix.to_owned();
        message.append(detail);
        ProfileError { class, message }
    }

    /// The home directory is not known.
    pub fn home_not_found() -> (e: ProfileError)
        ensures
            e@ == ProfileErrorView::home_not_found(),
    {
        ProfileError {
            class: ErrorClass::EnvironmentUnavailable,
            message: "Unable to find HOME directory".to_owned(),
        }
    }

    /// The credentials file could not be read for listing.
    pub fn read_failed() -> (e: ProfileError)
        ensures
            e@ == ProfileErrorView::read_failed(),
    {
        ProfileError {
            class: ErrorClass::FileUnreadable,
            message: "Unable to read AWS credentials file".to_owned(),
        }
    }

    /// The credentials file could not be loaded, for the given reason.
    pub fn load_failed(reason: &str) -> (e: ProfileError)
        ensures
            e@ == ProfileErrorView::load_failed(reason@),
    {
        Self::with_detail(
            ErrorClass::FileUnreadable,
            "Failed to load AWS credentials file: ",
            reason,
        )
    }

    /// The credentials file could not be loaded before an edit, for the given reason.
    pub fn load_existing_failed(reason: &str) -> (e: ProfileError)
        ensures
            e@ == ProfileErrorView::load_existing_failed(reason@),
    {
        Self::with_detail(
            ErrorClass::FileUnreadable,
            "Failed to load existing AWS credentials file: ",
            reason,
        )
    }

    /// The directory of the credentials file could not be created.
    pub fn create_directory_failed(reason: &str) -> (e: ProfileError)
        ensures
            e@ == ProfileErrorView::create_directory_failed(reason@),
    {
        Self::with_detail(ErrorClass::FileUnwritable, "Failed to create .aws directory: ", reason)
    }

    /// The credentials file could not be created.
    pub fn create_file_failed(reason: &str) -> (e: ProfileError)
        ensures
            e@ == ProfileErrorView::create_file_failed(reason@),
    {
        Self::with_detail(
            ErrorClass::FileUnwritable,
            "Failed to create AWS credentials file: ",
            reason,
        )
    }

    /// The credentials file could not be written after an edit.
    pub fn write_failed(reason: &str) -> (e: ProfileError)
        ensures
            e@ == ProfileErrorView::write_failed(reason@),
    {
        Self::with_detail(
            ErrorClass::FileUnwritable,
            "Failed to write to AWS credentials file: ",
            reason,
        )
    }

    /// The credentials file could not be written after a deletion.
    pub fn update_failed(reason: &str) -> (e: ProfileError)
        ensures
            e@ == ProfileErrorView::update_failed(reason@),
    {
        Self::with_detail(
            ErrorClass::FileUnwritable,
            "Failed to update AWS credentials file: ",
            reason,
        )
    }

    /// The profile has no access key id (or does not exist).
    pub fn access_key_id_not_found(profile: &str) -> (e: ProfileError)
        ensures
            e@ == ProfileErrorView::access_key_id_not_found(profile@),
    {
        Self::with_detail(
            ErrorClass::ProfileNotFound,
            "Access Key ID not found for profile: ",
            profile,
        )
    }

    /// The profile has no secret access key.
    pub fn secret_access_key_not_found(profile: &str) -> (e: ProfileError)
        ensures
            e@ == ProfileErrorView::secret_access_key_not_found(profile@),
    {
        Self::with_detail(
            ErrorClass::ProfileNotFound,
            "Secret Access Key not found for profile: ",
            profile,
        )
    }

    /// The remote identity check failed, for the given reason.
    pub fn identity_check_failed(reason: &str) -> (e: ProfileError)
        ensures
            e@ == ProfileErrorView::identity_check_failed(reason@),
    {
        Self::with_detail(
            ErrorClass::VerificationFailed,
            "Failed to get AWS caller identity: ",
            reason,
        )
    }
}

} // verus!
