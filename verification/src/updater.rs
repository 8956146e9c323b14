//! What a check for a newer version of the application amounts to. Asking the
//! update service and installing are left to the caller.

use vstd::prelude::*;

verus! {

/// What the user is told about updates.
#[derive(Clone, Debug, PartialEq, Eq)]
pub struct UpdateInfo {
    /// Whether a newer version is on offer.
    pub available: bool,
    /// The version on offer.
    pub version: Option<String>,
    /// The version that is running.
    pub current_version: String,
    /// The release notes of the version on offer.
    pub body: Option<String>,
    /// The release date of the version on offer.
    pub date: Option<String>,
}

/// An `UpdateInfo` with its texts as sequences of characters.
pub struct UpdateInfoView {
    pub available: bool,
    pub version: Option<Seq<char>>,
    pub current_version: Seq<char>,
    pub body: Option<Seq<char>>,
    pub date: Option<Seq<char>>,
}

impl View for UpdateInfo {
    type V = UpdateInfoView;

    open spec fn view(&self) -> UpdateInfoView {
        UpdateInfoView {
            available: self.available,
            version: self.version.deep_view(),
            current_version: self.current_version@,
            body: self.body.deep_view(),
            date: self.date.deep_view(),
        }
    }
}

/// A newer version as the update service describes it.
#[derive(Clone, Debug, PartialEq, Eq)]
pub struct AvailableUpdate {
    /// Its version.
    pub version: String,
    /// Its release notes, if it has any.
    pub body: Option<String>,
    /// Its release date, if it has one.
    pub date: Option<String>,
}

/// How asking the update service went.
#[derive(Clone, Debug, PartialEq, Eq)]
pub enum UpdateCheck {
    /// The updater could not be had; the reason is given.
    UpdaterUnavailable(String),
    /// The updater could not complete the check; the reason is given.
    CheckFailed(String),
    /// The running version is the newest.
    UpToDate,
    /// A newer version is on offer.
    Available(AvailableUpdate),
}

/// What to tell the user where the check did not come to an answer.
pub open spec fn check_failure(check: UpdateCheck) -> Option<Seq<char>> {
    match check {
        UpdateCheck::UpdaterUnavailable(reason) => Some("Updater not available: "@ + reason@),
        UpdateCheck::CheckFailed(reason) => Some("Failed to check for updates: "@ + reason@),
        UpdateCheck::UpToDate => None,
        UpdateCheck::Available(_) => None,
    }
}

/// What to tell the user about updates after a check that came to an answer.
pub open spec fn update_info(current_version: Seq<char>, check: UpdateCheck) -> UpdateInfoView {
    match check {
        UpdateCheck::Available(update) => UpdateInfoView {
            available: true,
            version: Some(update.version@),
            current_version,
            body: update.body.deep_view(),
            date: update.date.deep_view(),
        },
        _ => UpdateInfoView {
            available: false,
            version: None,
            current_version,
            body: None,
            date: None,
        },
    }
}

/// What the user is told about updates, given the running version and how
/// asking the update service went. A check that came to no answer is an
/// error that quotes the reason.
pub fn check_for_updates(current_version: String, check: UpdateCheck) -> (r: Result<
    UpdateInfo,
    String,
>)
    ensures
        match check_failure(check) {
            Some(text) => r is Err && r->Err_0@ == text,
            None => r is Ok && r->Ok_0@ == update_info(current_version@, check),
        },
{
    match check {
        UpdateCheck::UpdaterUnavailable(reason) => Err(
            String::from_str("Updater not available: ").concat(reason.as_str()),
        ),
        UpdateCheck::CheckFailed(reason) => Err(
            String::from_str("Failed to check for updates: ").concat(reason.as_str()),
        ),
        UpdateCheck::UpToDate => Ok(
            UpdateInfo { available: false, version: None, current_version, body: None, date: None },
        ),
        UpdateCheck::Available(update) => Ok(
            UpdateInfo {
                available: true,
                version: Some(update.version),
                current_version,
                body: update.body,
                date: update.date,
            },
        ),
    }
}

/// The update to install, given how asking the update service went. A check
/// that came to no answer is an error that quotes the reason, and so is one
/// that found the running version to be the newest.
pub fn install_update(check: UpdateCheck) -> (r: Result<AvailableUpdate, String>)
    ensures
        match check {
            UpdateCheck::Available(update) => r == Ok::<AvailableUpdate, String>(update),
            UpdateCheck::UpToDate => r is Err && r->Err_0@ == "No update available"@,
            _ => r is Err && Some(r->Err_0@) == check_failure(check),
        },
{
    match check {
        UpdateCheck::UpdaterUnavailable(reason) => Err(
            String::from_str("Updater not available: ").concat(reason.as_str()),
        ),
        UpdateCheck::CheckFailed(reason) => Err(
            String::from_str("Failed to check for updates: ").concat(reason.as_str()),
        ),
        UpdateCheck::UpToDate => Err(String::from_str("No update available")),
        UpdateCheck::Available(update) => Ok(update),
    }
}

/// What to tell the user where installing the update failed for `reason`.
pub fn install_failure(reason: &str) -> (text: String)
    ensures
        text@ == "Failed to install update: "@ + reason@,
{
    String::from_str("Failed to install update: ").concat(reason)
}

} // verus!
