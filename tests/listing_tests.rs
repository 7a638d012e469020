use github_security_alerts::alerts::{count_open, repo_alerts, summarize_alerts, AlertFetch};
use github_security_alerts::models::{
    default_refresh_interval, AppConfig, GitHubAlert, GitHubOrg, GitHubOwner, GitHubRepo,
};
use github_security_alerts::repos::{
    alerts_endpoint, collect_owners, lex_le_str, next_page, repos_endpoint, repos_for_owner,
};
use github_security_alerts::state::AppState;
use github_security_alerts::text::decimal_string;
use github_security_alerts::tray::{
    generate_tray_icon, tray_icon_kind, tray_tooltip, window_title, TrayIconKind, TrayIcons,
};
use github_security_alerts::visibility::VisibilityConfig;

fn alert(state: &str) -> GitHubAlert {
    GitHubAlert { state: state.to_string() }
}

fn repo(owner: &str, name: &str) -> GitHubRepo {
    GitHubRepo {
        full_name: format!("{}/{}", owner, name),
        name: name.to_string(),
        owner: GitHubOwner { login: owner.to_string() },
        private: false,
        permissions: None,
    }
}

fn icons() -> TrayIcons {
    TrayIcons { gray: vec![1], green: vec![2, 2], red: vec![3, 3, 3] }
}

#[test]
fn open_alerts_are_counted() {
    let alerts = vec![alert("open"), alert("fixed"), alert("open"), alert("dismissed")];
    assert_eq!(count_open(&alerts), 2);
    let fetch = AlertFetch::Reply { status: 200, alerts: Some(alerts) };
    let r = repo_alerts(&"o/r".to_string(), &fetch);
    assert_eq!(r.alerts, 2);
    assert!(r.dependabot_enabled);
}

#[test]
fn disabled_or_failed_fetches_count_zero() {
    let off = AlertFetch::Reply { status: 422, alerts: Some(vec![alert("open")]) };
    assert!(!repo_alerts(&"a".to_string(), &off).dependabot_enabled);
    let unreadable = AlertFetch::Reply { status: 404, alerts: None };
    assert_eq!(repo_alerts(&"b".to_string(), &unreadable).alerts, 0);
    assert!(!repo_alerts(&"c".to_string(), &AlertFetch::Transport).dependabot_enabled);
}

#[test]
fn summary_totals_in_order() {
    let fetched = vec![
        ("a/x".to_string(), AlertFetch::Reply { status: 200, alerts: Some(vec![alert("open")]) }),
        ("a/y".to_string(), AlertFetch::Transport),
        (
            "a/z".to_string(),
            AlertFetch::Reply { status: 200, alerts: Some(vec![alert("open"), alert("open")]) },
        ),
    ];
    let s = summarize_alerts(&fetched);
    assert_eq!(s.total_alerts, 3);
    let names: Vec<&str> = s.repos.iter().map(|r| r.name.as_str()).collect();
    assert_eq!(names, vec!["a/x", "a/y", "a/z"]);
    assert_eq!(summarize_alerts(&Vec::new()).total_alerts, 0);
}

#[test]
fn tray_icon_choice() {
    assert_eq!(tray_icon_kind(Some(3), false), TrayIconKind::Gray);
    assert_eq!(tray_icon_kind(None, true), TrayIconKind::Gray);
    assert_eq!(tray_icon_kind(Some(0), true), TrayIconKind::Green);
    assert_eq!(tray_icon_kind(Some(7), true), TrayIconKind::Red);
    assert_eq!(generate_tray_icon(Some(7), true, &icons()), vec![3, 3, 3]);
    assert_eq!(generate_tray_icon(Some(0), true, &icons()), vec![2, 2]);
}

#[test]
fn tooltip_and_title_texts() {
    assert_eq!(tray_tooltip(12, true), "GitHub Security Alerts - 12 alert(s)!");
    assert_eq!(tray_tooltip(0, true), "GitHub Security Alerts - No alerts");
    assert_eq!(tray_tooltip(5, false), "GitHub Security Alerts - No repositories configured");
    assert_eq!(window_title(3, true), "GitHub Alerts - 3 alert(s)");
    assert_eq!(window_title(0, true), "GitHub Alerts");
    assert_eq!(window_title(0, false), "GitHub Alerts - Configure repositories");
}

#[test]
fn decimal_numerals() {
    assert_eq!(decimal_string(0), "0");
    assert_eq!(decimal_string(907), "907");
    assert_eq!(decimal_string(u64::MAX), "18446744073709551615");
}

#[test]
fn user_listing_filters_sorts_and_marks() {
    let repos = vec![repo("Mona", "zeta"), repo("other", "alpha"), repo("mona", "Beta"), repo("MONA", "alpha")];
    let selected = vec!["mona/Beta".to_string()];
    let infos = repos_for_owner(&repos, "mona", true, &selected);
    let names: Vec<&str> = infos.iter().map(|r| r.name.as_str()).collect();
    assert_eq!(names, vec!["alpha", "Beta", "zeta"]);
    assert_eq!(infos[0].owner, "MONA");
    assert!(infos[1].selected);
    assert!(!infos[2].selected);
}

#[test]
fn org_listing_keeps_every_repo() {
    let repos = vec![repo("acme", "b"), repo("someone", "a")];
    let infos = repos_for_owner(&repos, "acme", false, &Vec::new());
    let names: Vec<&str> = infos.iter().map(|r| r.full_name.as_str()).collect();
    assert_eq!(names, vec!["someone/a", "acme/b"]);
}

#[test]
fn lexicographic_order() {
    assert!(lex_le_str("abc", "abd"));
    assert!(lex_le_str("ab", "abc"));
    assert!(!lex_le_str("b", "abc"));
    assert!(lex_le_str("", ""));
}

#[test]
fn owners_user_first() {
    let orgs = vec![GitHubOrg { login: "acme".to_string() }, GitHubOrg { login: "beta".to_string() }];
    let owners = collect_owners(Some("mona".to_string()), &orgs);
    assert_eq!(owners.len(), 3);
    assert!(owners[0].is_user);
    assert_eq!(owners[2].name, "beta");
    assert!(!owners[2].is_user);
    assert_eq!(collect_owners(None, &orgs).len(), 2);
}

#[test]
fn paging_stops() {
    assert_eq!(next_page(1, true, 100), Some(2));
    assert_eq!(next_page(1, true, 0), None);
    assert_eq!(next_page(3, false, 100), None);
    assert_eq!(next_page(20, true, 100), None);
}

#[test]
fn endpoints() {
    assert_eq!(repos_endpoint("mona", true), "https://api.github.com/user/repos");
    assert_eq!(repos_endpoint("acme", false), "https://api.github.com/orgs/acme/repos");
    assert_eq!(alerts_endpoint("acme/b"), "https://api.github.com/repos/acme/b/dependabot/alerts");
}

#[test]
fn app_state_tray_update_and_start() {
    let mut config = AppConfig::default();
    assert_eq!(config.refresh_interval_minutes, default_refresh_interval());
    assert_eq!(default_refresh_interval(), 60);
    config.access_token = Some("   ".to_string());
    let mut state = AppState::new(config, VisibilityConfig::immediate());
    assert!(state.shows_window_at_start());
    assert!(!state.window_displayed());
    let p = state.update_tray_icon(4, &icons());
    assert_eq!(state.alert_count, 4);
    assert_eq!(p.icon, vec![1]);
    assert_eq!(p.title, "GitHub Alerts - Configure repositories");
    state.session.set_selected_repos(vec!["a/b".to_string()]);
    let p = state.update_tray_icon(4, &icons());
    assert_eq!(p.icon, vec![3, 3, 3]);
    assert_eq!(p.tooltip, "GitHub Security Alerts - 4 alert(s)!");
    let mut config = AppConfig::default();
    config.access_token = Some(" tok ".to_string());
    assert!(!AppState::new(config, VisibilityConfig::deferred()).shows_window_at_start());
}
