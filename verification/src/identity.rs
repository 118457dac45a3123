//! The identity check: what the remote service answered, and how it is reported.

use crate::error::{ProfileError, ProfileErrorView};
use vstd::prelude::*;
use vstd::string::*;

verus! {

/// Who the credentials of a profile belong to, as the identity service sees it.
#[derive(Clone, Debug, PartialEq, Eq)]
pub struct CallerIdentity {
    pub arn: String,
    pub user_id: String,
    pub account: String,
}

/// The mathematical value of a [`CallerIdentity`].
pub struct CallerIdentityView {
    pub arn: Seq<char>,
    pub user_id: Seq<char>,
    pub account: Seq<char>,
}

impl View for CallerIdentity {
    type V = CallerIdentityView;

    open spec fn view(&self) -> CallerIdentityView {
        CallerIdentityView { arn: self.arn@, user_id: self.user_id@, account: self.account@ }
    }
}

/// The text of a field of the answer; a field that is missing counts as empty.
pub open spec fn text_or_empty(field: Option<&str>) -> Seq<char> {
    match field {
        Some(text) => text@,
        None => Seq::empty(),
    }
}

/// The line that reports an identity to the user.
pub open spec fn identity_summary(identity: CallerIdentityView) -> Seq<char> {
    "ARN: "@ + identity.arn + ", User ID: "@ + identity.user_id + ", Account: "@
        + identity.account
}

fn owned_or_empty(field: Option<&str>) -> (text: String)
    ensures
        text@ == text_or_empty(field),
{
    match field {
        Some(text) => text.to_owned(),
        None => String::new(),
    }
}

/// Takes the identity out of the three fields of the service's answer, each
/// of which may be missing.
pub fn get_caller_identity(
    arn: Option<&str>,
    user_id: Option<&str>,
    account: Option<&str>,
) -> (identity: CallerIdentity)
    ensures
        identity@ == (CallerIdentityView {
            arn: text_or_empty(arn),
            user_id: text_or_empty(user_id),
            account: text_or_empty(account),
        }),
{
    CallerIdentity {
        arn: owned_or_empty(arn),
        user_id: owned_or_empty(user_id),
        account: owned_or_empty(account),
    }
}

/// Reports the outcome of the identity check: the summary of the identity
/// found, or a `VerificationFailed` error that carries the reason for which
/// the call failed.
pub fn check_aws_identity(outcome: Result<CallerIdentity, String>) -> (r: Result<
    String,
    ProfileError,
>)
    ensures
        match outcome {
            Ok(identity) => r matches Ok(summary) && summary@ == identity_summary(identity@),
            Err(reason) => r matches Err(e) && e@ == ProfileErrorView::identity_check_failed(
                reason@,
            ),
        },
{
    match outcome {
        Ok(identity) => {
            let mut summary = "ARN: ".to_owned();
            summary.append(identity.arn.as_str());
            summary.append(", User ID: ");
            summary.append(identity.user_id.as_str());
            summary.append(", Account: ");
            summary.append(identity.account.as_str());
            Ok(summary)
        },
        Err(reason) => Err(ProfileError::identity_check_failed(reason.as_str())),
    }
}

} // verus!
