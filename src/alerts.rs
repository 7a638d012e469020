//! Aggregation of open Dependabot alerts over the selected repositories.
use vstd::prelude::*;
use crate::models::{AlertsResponse, GitHubAlert, RepoAlerts};

verus! {

/// The status with which the alerts endpoint says Dependabot is off.
pub const STATUS_UNPROCESSABLE: u16 = 422;

/// What fetching one repository's alerts gave.
#[derive(Clone, Debug)]
pub enum AlertFetch {
    /// The request did not get through.
    Transport,
    /// The endpoint answered; `alerts` is the body read as a list of alerts,
    /// `None` where it is not one.
    Reply { status: u16, alerts: Option<Vec<GitHubAlert>> },
}

pub open spec fn is_open(a: GitHubAlert) -> bool {
    a.state@ == "open"@
}

/// How many of the alerts are open.
pub open spec fn open_count(alerts: Seq<GitHubAlert>) -> nat
    decreases alerts.len(),
{
    if alerts.len() == 0 {
        0
    } else {
        open_count(alerts.drop_last()) + if is_open(alerts.last()) {
            1nat
        } else {
            0nat
        }
    }
}

pub proof fn lemma_open_count_bound(alerts: Seq<GitHubAlert>)
    ensures
        open_count(alerts) <= alerts.len(),
    decreases alerts.len(),
{
    if alerts.len() > 0 {
        lemma_open_count_bound(alerts.drop_last());
    }
}

/// Counts the open alerts.
pub fn count_open(alerts: &Vec<GitHubAlert>) -> (r: usize)
    ensures
        r == open_count(alerts@),
{
    let open = String::from_str("open");
    let mut n: usize = 0;
    let mut i: usize = 0;
    while i < alerts.len()
        invariant
            i <= alerts@.len(),
            open@ == "open"@,
            n == open_count(alerts@.take(i as int)),
        decreases alerts.len() - i,
    {
        assert(alerts@.take(i + 1).drop_last() =~= alerts@.take(i as int));
        proof {
            lemma_open_count_bound(alerts@.take(i as int));
        }
        if alerts[i].state == open {
            n = n + 1;
        }
        i = i + 1;
    }
    assert(alerts@.take(alerts@.len() as int) =~= alerts@);
    n
}

/// Whether a fetch shows Dependabot enabled: a reply other than 422 whose
/// body is a list of alerts.
pub open spec fn fetch_enabled(f: AlertFetch) -> bool {
    f matches AlertFetch::Reply { status, alerts } && status != STATUS_UNPROCESSABLE && alerts is Some
}

/// The open alerts a fetch counts for its repository.
pub open spec fn fetch_count(f: AlertFetch) -> nat {
    if fetch_enabled(f) {
        open_count(f->Reply_alerts->Some_0@)
    } else {
        0
    }
}

/// The entry for one repository.
pub fn repo_alerts(name: &String, fetch: &AlertFetch) -> (r: RepoAlerts)
    ensures
        r.name@ == name@,
        r.dependabot_enabled == fetch_enabled(*fetch),
        r.alerts == fetch_count(*fetch),
{
    let name = name.clone();
    match fetch {
        AlertFetch::Reply { status, alerts: Some(alerts) } => {
            if *status == STATUS_UNPROCESSABLE {
                RepoAlerts { name, alerts: 0, dependabot_enabled: false }
            } else {
                let n = count_open(alerts);
                RepoAlerts { name, alerts: n, dependabot_enabled: true }
            }
        },
        _ => RepoAlerts { name, alerts: 0, dependabot_enabled: false },
    }
}

/// Sum of the alert counts of the entries.
pub open spec fn total_of(repos: Seq<RepoAlerts>) -> nat
    decreases repos.len(),
{
    if repos.len() == 0 {
        0
    } else {
        total_of(repos.drop_last()) + repos.last().alerts as nat
    }
}

/// The total, saturated at `usize::MAX`.
pub open spec fn capped_total(repos: Seq<RepoAlerts>) -> nat {
    if total_of(repos) > usize::MAX {
        usize::MAX as nat
    } else {
        total_of(repos)
    }
}

/// The response over the repositories' fetches, in the order given.
pub fn summarize_alerts(fetched: &Vec<(String, AlertFetch)>) -> (r: AlertsResponse)
    ensures
        r.repos@.len() == fetched@.len(),
        forall|i: int|
            0 <= i < fetched@.len() ==> {
                &&& (#[trigger] r.repos@[i]).name@ == fetched@[i].0@
                &&& r.repos@[i].dependabot_enabled == fetch_enabled(fetched@[i].1)
                &&& r.repos@[i].alerts == fetch_count(fetched@[i].1)
            },
        r.total_alerts == capped_total(r.repos@),
{
    let mut repos: Vec<RepoAlerts> = Vec::new();
    let mut total: usize = 0;
    let mut i: usize = 0;
    while i < fetched.len()
        invariant
            i <= fetched@.len(),
            repos@.len() == i,
            forall|j: int|
                0 <= j < i ==> {
                    &&& (#[trigger] repos@[j]).name@ == fetched@[j].0@
                    &&& repos@[j].dependabot_enabled == fetch_enabled(fetched@[j].1)
                    &&& repos@[j].alerts == fetch_count(fetched@[j].1)
                },
            total == capped_total(repos@),
        decreases fetched.len() - i,
    {
        let entry = repo_alerts(&fetched[i].0, &fetched[i].1);
        let ghost before = repos@;
        total = total.saturating_add(entry.alerts);
        repos.push(entry);
        assert(repos@.drop_last() =~= before);
        i = i + 1;
    }
    AlertsResponse { total_alerts: total, repos }
}

} // verus!
