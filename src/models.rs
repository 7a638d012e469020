//! The data the application keeps and exchanges.
use vstd::prelude::*;

verus! {

/// Minutes between two alert refreshes when the configuration names none.
pub const DEFAULT_REFRESH_INTERVAL_MINUTES: u32 = 60;

/// The refresh interval used when the stored configuration has none.
pub fn default_refresh_interval() -> (r: u32)
    ensures
        r == DEFAULT_REFRESH_INTERVAL_MINUTES,
{
    DEFAULT_REFRESH_INTERVAL_MINUTES
}

/// The persisted configuration: the one stored credential and the user's
/// preferences.
#[derive(Clone, Debug)]
pub struct AppConfig {
    pub access_token: Option<String>,
    pub selected_repos: Vec<String>,
    pub refresh_interval_minutes: u32,
}

pub struct AppConfigModel {
    pub access_token: Option<Seq<char>>,
    pub selected_repos: Seq<Seq<char>>,
    pub refresh_interval_minutes: u32,
}

pub open spec fn opt_string_view(s: Option<String>) -> Option<Seq<char>> {
    match s {
        Some(t) => Some(t@),
        None => None,
    }
}

pub open spec fn strings_view(v: Seq<String>) -> Seq<Seq<char>> {
    v.map_values(|s: String| s@)
}

impl View for AppConfig {
    type V = AppConfigModel;

    open spec fn view(&self) -> AppConfigModel {
        AppConfigModel {
            access_token: opt_string_view(self.access_token),
            selected_repos: strings_view(self.selected_repos@),
            refresh_interval_minutes: self.refresh_interval_minutes,
        }
    }
}

impl Default for AppConfig {
    fn default() -> (r: AppConfig)
        ensures
            r@.access_token is None,
            r@.selected_repos.len() == 0,
            r@.refresh_interval_minutes == DEFAULT_REFRESH_INTERVAL_MINUTES,
    {
        AppConfig {
            access_token: None,
            selected_repos: Vec::new(),
            refresh_interval_minutes: DEFAULT_REFRESH_INTERVAL_MINUTES,
        }
    }
}

/// Open alert counts over the selected repositories.
#[derive(Clone, Debug)]
pub struct AlertsResponse {
    pub total_alerts: usize,
    pub repos: Vec<RepoAlerts>,
}

/// Open alerts of one repository.
#[derive(Clone, Debug)]
pub struct RepoAlerts {
    pub name: String,
    pub alerts: usize,
    pub dependabot_enabled: bool,
}

/// One Dependabot alert as the provider lists it.
#[derive(Clone, Debug)]
pub struct GitHubAlert {
    pub state: String,
}

/// One repository as the provider lists it.
#[derive(Clone, Debug)]
pub struct GitHubRepo {
    pub full_name: String,
    pub name: String,
    pub owner: GitHubOwner,
    pub private: bool,
    pub permissions: Option<GitHubPermissions>,
}

#[derive(Clone, Debug)]
pub struct GitHubOwner {
    pub login: String,
}

#[derive(Clone, Copy, Debug)]
pub struct GitHubPermissions {
    pub admin: Option<bool>,
    pub push: Option<bool>,
    pub pull: Option<bool>,
}

/// A repository offered for selection.
#[derive(Clone, Debug)]
pub struct RepoInfo {
    pub full_name: String,
    pub name: String,
    pub owner: String,
    pub selected: bool,
}

/// The signed-in user as the provider describes it.
#[derive(Clone, Debug)]
pub struct GitHubUser {
    pub login: String,
    pub name: Option<String>,
    pub avatar_url: Option<String>,
}

/// Whether a user is signed in, and as whom.
#[derive(Clone, Debug)]
pub struct AuthStatus {
    pub authenticated: bool,
    pub username: Option<String>,
}

#[derive(Clone, Debug)]
pub struct GitHubOrg {
    pub login: String,
}

/// An account whose repositories can be listed: the user or an organization.
#[derive(Clone, Debug)]
pub struct OwnerInfo {
    pub name: String,
    pub is_user: bool,
}

} // verus!
