//! Profiles: what a caller writes into a section, and what it reads back.

use crate::format::{plain_key, single_line, tidy_section, Section};
use vstd::prelude::*;

verus! {

/// A profile as the caller supplies it for adding or editing.
#[derive(Clone, Debug, PartialEq, Eq)]
pub struct AwsProfile {
    pub profile_name: String,
    pub access_key_id: String,
    pub secret_access_key: String,
    pub session_token: Option<String>,
}

/// The mathematical value of an [`AwsProfile`].
pub struct AwsProfileView {
    pub profile_name: Seq<char>,
    pub access_key_id: Seq<char>,
    pub secret_access_key: Seq<char>,
    pub session_token: Option<Seq<char>>,
}

impl AwsProfileView {
    /// The name and each credential of the profile fit on one line.
    pub open spec fn on_one_line(self) -> bool {
        &&& single_line(self.profile_name)
        &&& single_line(self.access_key_id)
        &&& single_line(self.secret_access_key)
        &&& self.session_token matches Some(token) ==> single_line(token)
    }
}

impl View for AwsProfile {
    type V = AwsProfileView;

    open spec fn view(&self) -> AwsProfileView {
        AwsProfileView {
            profile_name: self.profile_name@,
            access_key_id: self.access_key_id@,
            secret_access_key: self.secret_access_key@,
            session_token: self.session_token.deep_view(),
        }
    }
}

/// The credentials stored under a profile.
#[derive(Clone, Debug, PartialEq, Eq)]
pub struct ProfileDetails {
    pub access_key_id: String,
    pub secret_access_key: String,
    pub session_token: Option<String>,
}

/// The mathematical value of a [`ProfileDetails`].
pub struct ProfileDetailsView {
    pub access_key_id: Seq<char>,
    pub secret_access_key: Seq<char>,
    pub session_token: Option<Seq<char>>,
}

impl View for ProfileDetails {
    type V = ProfileDetailsView;

    open spec fn view(&self) -> ProfileDetailsView {
        ProfileDetailsView {
            access_key_id: self.access_key_id@,
            secret_access_key: self.secret_access_key@,
            session_token: self.session_token.deep_view(),
        }
    }
}

/// The key under which a section holds the access key id.
pub open spec fn access_key_id_key() -> Seq<char> {
    "aws_access_key_id"@
}

/// The key under which a section holds the secret access key.
pub open spec fn secret_access_key_key() -> Seq<char> {
    "aws_secret_access_key"@
}

/// The key under which a section holds the session token, if it has one.
pub open spec fn session_token_key() -> Seq<char> {
    "aws_session_token"@
}

/// The three keys of a profile differ from one another, and none of them could
/// be taken for a header or spans two lines.
pub proof fn lemma_profile_keys()
    ensures
        access_key_id_key() != secret_access_key_key(),
        access_key_id_key() != session_token_key(),
        secret_access_key_key() != session_token_key(),
        plain_key(access_key_id_key()),
        plain_key(secret_access_key_key()),
        plain_key(session_token_key()),
{
    reveal_strlit("aws_access_key_id");
    reveal_strlit("aws_secret_access_key");
    reveal_strlit("aws_session_token");
    assert(access_key_id_key()[4] == 'a');
    assert(session_token_key()[4] == 's');
    assert(access_key_id_key().len() == 17);
    assert(secret_access_key_key().len() == 21);
    assert(session_token_key().len() == 17);
}

/// The section that a profile is written as: the two required keys, and the
/// session token only where the profile has one.
pub open spec fn profile_section(profile: AwsProfileView) -> Section {
    let required = Map::<Seq<char>, Option<Seq<char>>>::empty().insert(
        access_key_id_key(),
        Some(profile.access_key_id),
    ).insert(secret_access_key_key(), Some(profile.secret_access_key));
    match profile.session_token {
        Some(token) => required.insert(session_token_key(), Some(token)),
        None => required,
    }
}

/// The section of a profile whose credentials fit on one line is tidy.
pub proof fn lemma_profile_section_tidy(profile: AwsProfileView)
    requires
        profile.on_one_line(),
    ensures
        tidy_section(profile_section(profile)),
{
    lemma_profile_keys();
}

} // verus!
