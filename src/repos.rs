//! Listing the accounts and repositories a user can pick from.
use vstd::prelude::*;
use vstd::seq_lib::{to_multiset_build, to_multiset_insert};
use crate::models::{strings_view, GitHubOrg, GitHubRepo, OwnerInfo, RepoInfo};

verus! {

/// Pages of 100 repositories fetched at most for one owner.
pub const MAX_PAGES: u32 = 20;

pub const API_ROOT: &'static str = "https://api.github.com";

/// What `str::to_lowercase` makes of a string.
pub uninterp spec fn lower_of(s: Seq<char>) -> Seq<char>;

/// Relies on `str::to_lowercase`: the lower-case form, which depends on the
/// characters alone.
#[verifier::external_body]
fn lowercase(s: &str) -> (r: String)
    ensures
        r@ == lower_of(s@),
{
    s.to_lowercase()
}

/// Lexicographic order on characters by code point; on valid text it is the
/// order of `String`'s comparison.
pub open spec fn lex_le(a: Seq<char>, b: Seq<char>) -> bool
    decreases a.len(),
{
    if a.len() == 0 {
        true
    } else if b.len() == 0 {
        false
    } else if a[0] as u32 != b[0] as u32 {
        (a[0] as u32) < (b[0] as u32)
    } else {
        lex_le(a.drop_first(), b.drop_first())
    }
}

pub proof fn lemma_lex_total(a: Seq<char>, b: Seq<char>)
    ensures
        lex_le(a, b) || lex_le(b, a),
    decreases a.len(),
{
    if a.len() > 0 && b.len() > 0 && a[0] as u32 == b[0] as u32 {
        lemma_lex_total(a.drop_first(), b.drop_first());
    }
}

pub proof fn lemma_lex_transitive(a: Seq<char>, b: Seq<char>, c: Seq<char>)
    requires
        lex_le(a, b),
        lex_le(b, c),
    ensures
        lex_le(a, c),
    decreases a.len(),
{
    if a.len() > 0 && b.len() > 0 && c.len() > 0 && a[0] as u32 == b[0] as u32 && b[0] as u32
        == c[0] as u32 {
        lemma_lex_transitive(a.drop_first(), b.drop_first(), c.drop_first());
    }
}

/// Whether `a` comes no later than `b` in lexicographic order.
pub fn lex_le_str(a: &str, b: &str) -> (r: bool)
    ensures
        r == lex_le(a@, b@),
{
    let n = a.unicode_len();
    let m = b.unicode_len();
    let mut i: usize = 0;
    assert(a@.subrange(0, n as int) =~= a@);
    assert(b@.subrange(0, m as int) =~= b@);
    while i < n && i < m
        invariant
            n == a@.len(),
            m == b@.len(),
            i <= n,
            i <= m,
            lex_le(a@, b@) == lex_le(a@.subrange(i as int, n as int), b@.subrange(i as int, m as int)),
        decreases n - i,
    {
        let x = a.get_char(i);
        let y = b.get_char(i);
        let ghost sa = a@.subrange(i as int, n as int);
        let ghost sb = b@.subrange(i as int, m as int);
        assert(sa[0] == x && sb[0] == y);
        if x as u32 != y as u32 {
            return (x as u32) < (y as u32);
        }
        assert(sa.drop_first() =~= a@.subrange(i + 1, n as int));
        assert(sb.drop_first() =~= b@.subrange(i + 1, m as int));
        i = i + 1;
    }
    i == n
}

pub open spec fn name_key(r: RepoInfo) -> Seq<char> {
    lower_of(r.name@)
}

/// Ordered by lower-cased name.
pub open spec fn sorted_by_name(s: Seq<RepoInfo>) -> bool {
    forall|i: int, j: int| 0 <= i < j < s.len() ==> lex_le(name_key(#[trigger] s[i]), name_key(#[trigger] s[j]))
}

/// Sorts by lower-cased name, keeping the order of equal names.
pub fn sort_by_name(v: Vec<RepoInfo>) -> (r: Vec<RepoInfo>)
    ensures
        sorted_by_name(r@),
        r@.to_multiset() == v@.to_multiset(),
{
    let ghost orig = v@;
    let mut input = v;
    let mut out: Vec<RepoInfo> = Vec::new();
    let ghost mut k: int = 0;
    assert(out@ =~= orig.take(0));
    assert(input@ =~= orig.subrange(0, orig.len() as int));
    while input.len() > 0
        invariant
            0 <= k <= orig.len(),
            input@ == orig.subrange(k, orig.len() as int),
            sorted_by_name(out@),
            out@.to_multiset() == orig.take(k).to_multiset(),
        decreases input.len(),
    {
        let x = input.remove(0);
        let kx = lowercase(x.name.as_str());
        let mut j: usize = 0;
        loop
            invariant
                j <= out@.len(),
                kx@ == name_key(x),
                forall|t: int| 0 <= t < j ==> lex_le(name_key(#[trigger] out@[t]), name_key(x)),
            ensures
                j <= out@.len(),
                forall|t: int| 0 <= t < j ==> lex_le(name_key(#[trigger] out@[t]), name_key(x)),
                j < out@.len() ==> !lex_le(name_key(out@[j as int]), name_key(x)),
            decreases out.len() - j,
        {
            if j >= out.len() {
                break;
            }
            let kj = lowercase(out[j].name.as_str());
            if !lex_le_str(kj.as_str(), kx.as_str()) {
                break;
            }
            j = j + 1;
        }
        let ghost before = out@;
        proof {
            if j < before.len() {
                lemma_lex_total(name_key(before[j as int]), name_key(x));
            }
            assert forall|t: int| j <= t < before.len() implies lex_le(name_key(x), name_key(
                #[trigger] before[t],
            )) by {
                if t > j {
                    lemma_lex_transitive(name_key(x), name_key(before[j as int]), name_key(before[t]));
                }
            }
            to_multiset_insert(before, j as int, x);
            to_multiset_build(orig.take(k), x);
            assert(orig.take(k + 1) =~= orig.take(k).push(x));
        }
        out.insert(j, x);
        proof {
            let after = out@;
            assert forall|a: int, b: int| 0 <= a < b < after.len() implies lex_le(
                name_key(#[trigger] after[a]),
                name_key(#[trigger] after[b]),
            ) by {
                if a < j && b == j {
                } else if a < j && b > j {
                    assert(after[b] == before[b - 1]);
                    lemma_lex_transitive(name_key(before[a]), name_key(x), name_key(before[b - 1]));
                } else if a == j {
                    assert(after[b] == before[b - 1]);
                } else if a > j {
                    assert(after[a] == before[a - 1] && after[b] == before[b - 1]);
                } else {
                    assert(after[a] == before[a] && after[b] == before[b]);
                }
            }
            k = k + 1;
            assert(input@ =~= orig.subrange(k, orig.len() as int));
        }
    }
    assert(orig.take(k) =~= orig);
    out
}

/// Whether a repository's owner is `owner`, ignoring case.
pub open spec fn owned_by(r: GitHubRepo, owner: Seq<char>) -> bool {
    lower_of(r.owner.login@) == lower_of(owner)
}

/// The entry offered for a repository.
pub open spec fn info_of(r: GitHubRepo, selected: Seq<Seq<char>>) -> RepoInfo {
    RepoInfo {
        full_name: r.full_name,
        name: r.name,
        owner: r.owner.login,
        selected: selected.contains(r.full_name@),
    }
}

/// The entries for the fetched repositories, in their order: for the user's
/// own account only those it owns (listings of a user also hold
/// repositories of others it collaborates on).
pub open spec fn listing(repos: Seq<GitHubRepo>, owner: Seq<char>, is_user: bool, selected: Seq<Seq<char>>) -> Seq<RepoInfo>
    decreases repos.len(),
{
    if repos.len() == 0 {
        seq![]
    } else {
        let rest = listing(repos.drop_last(), owner, is_user, selected);
        if !is_user || owned_by(repos.last(), owner) {
            rest.push(info_of(repos.last(), selected))
        } else {
            rest
        }
    }
}

/// Whether `names` holds `name`.
pub fn contains_name(names: &Vec<String>, name: &String) -> (r: bool)
    ensures
        r == strings_view(names@).contains(name@),
{
    let mut i: usize = 0;
    while i < names.len()
        invariant
            i <= names@.len(),
            forall|t: int| 0 <= t < i ==> names@[t]@ != name@,
        decreases names.len() - i,
    {
        if names[i] == *name {
            assert(strings_view(names@)[i as int] == name@);
            return true;
        }
        i = i + 1;
    }
    assert forall|t: int| 0 <= t < strings_view(names@).len() implies strings_view(names@)[t] != name@ by {
        assert(strings_view(names@)[t] == names@[t]@);
    }
    false
}

/// The entries offered for one owner: filtered as `listing` says, marked
/// when selected, and sorted by lower-cased name.
pub fn repos_for_owner(repos: &Vec<GitHubRepo>, owner: &str, is_user: bool, selected: &Vec<String>) -> (r: Vec<RepoInfo>)
    ensures
        sorted_by_name(r@),
        r@.to_multiset() == listing(repos@, owner@, is_user, strings_view(selected@)).to_multiset(),
{
    let ghost sel = strings_view(selected@);
    let owner_key = lowercase(owner);
    let mut infos: Vec<RepoInfo> = Vec::new();
    let mut i: usize = 0;
    while i < repos.len()
        invariant
            i <= repos@.len(),
            owner_key@ == lower_of(owner@),
            sel == strings_view(selected@),
            infos@ == listing(repos@.take(i as int), owner@, is_user, sel),
        decreases repos.len() - i,
    {
        let r = &repos[i];
        assert(repos@.take(i + 1).drop_last() =~= repos@.take(i as int));
        let keep = if is_user {
            let login_key = lowercase(r.owner.login.as_str());
            login_key == owner_key
        } else {
            true
        };
        if keep {
            let selected_here = contains_name(selected, &r.full_name);
            infos.push(
                RepoInfo {
                    full_name: r.full_name.clone(),
                    name: r.name.clone(),
                    owner: r.owner.login.clone(),
                    selected: selected_here,
                },
            );
        }
        i = i + 1;
    }
    assert(repos@.take(repos@.len() as int) =~= repos@);
    sort_by_name(infos)
}

/// The accounts to offer: the user first (when its lookup succeeded), then
/// its organizations in the order given.
pub fn collect_owners(user_login: Option<String>, orgs: &Vec<GitHubOrg>) -> (r: Vec<OwnerInfo>)
    ensures
        r@.len() == (if user_login is Some { 1int } else { 0int }) + orgs@.len(),
        user_login matches Some(l) ==> r@[0].name@ == l@ && r@[0].is_user,
        forall|i: int|
            0 <= i < orgs@.len() ==> {
                let o = #[trigger] orgs@[i];
                let e = r@[(if user_login is Some { 1int } else { 0int }) + i];
                e.name@ == o.login@ && !e.is_user
            },
{
    let mut owners: Vec<OwnerInfo> = Vec::new();
    let offset: usize = match user_login {
        Some(login) => {
            owners.push(OwnerInfo { name: login, is_user: true });
            1
        },
        None => 0,
    };
    let mut i: usize = 0;
    while i < orgs.len()
        invariant
            i <= orgs@.len(),
            offset <= 1,
            owners@.len() == offset + i,
            user_login is Some <==> offset == 1,
            user_login matches Some(l) ==> owners@[0].name@ == l@ && owners@[0].is_user,
            forall|t: int|
                0 <= t < i ==> {
                    let e = #[trigger] owners@[offset + t];
                    e.name@ == orgs@[t].login@ && !e.is_user
                },
        decreases orgs.len() - i,
    {
        owners.push(OwnerInfo { name: orgs[i].login.clone(), is_user: false });
        i = i + 1;
    }
    owners
}

/// The page to fetch after `page`, or `None` to stop: after a failed or
/// empty page, and after `MAX_PAGES` pages.
pub fn next_page(page: u32, succeeded: bool, count: usize) -> (r: Option<u32>)
    ensures
        r == (if !succeeded || count == 0 || page >= MAX_PAGES {
            None
        } else {
            Some((page + 1) as u32)
        }),
{
    if !succeeded || count == 0 || page >= MAX_PAGES {
        None
    } else {
        Some(page + 1)
    }
}

pub open spec fn repos_url(owner: Seq<char>, is_user: bool) -> Seq<char> {
    if is_user {
        API_ROOT@ + "/user/repos"@
    } else {
        API_ROOT@ + "/orgs/"@ + owner + "/repos"@
    }
}

/// Where the repositories of an owner are listed.
pub fn repos_endpoint(owner: &str, is_user: bool) -> (r: String)
    ensures
        r@ == repos_url(owner@, is_user),
{
    let mut url = String::from_str(API_ROOT);
    if is_user {
        url.append("/user/repos");
    } else {
        url.append("/orgs/");
        url.append(owner);
        url.append("/repos");
    }
    url
}

pub open spec fn alerts_url(repo: Seq<char>) -> Seq<char> {
    API_ROOT@ + "/repos/"@ + repo + "/dependabot/alerts"@
}

/// Where the Dependabot alerts of a repository (`owner/name`) are listed.
pub fn alerts_endpoint(repo: &str) -> (r: String)
    ensures
        r@ == alerts_url(repo@),
{
    let mut url = String::from_str(API_ROOT);
    url.append("/repos/");
    url.append(repo);
    url.append("/dependabot/alerts");
    url
}

} // verus!
