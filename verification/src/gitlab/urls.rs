//! The request URLs of the platform endpoints the exporter consumes, built
//! from the configured hostname and plain identifiers.

use vstd::prelude::*;

use crate::gitlab::token::{spec_access_level_number, AccessLevel};
use crate::text::{fmt_u64, fmt_usize, spec_dec};

verus! {

/// The URL that lists projects, optionally restricted to those where the
/// credential has owner access.
pub open spec fn spec_projects_list_url(hostname: Seq<char>, owned_only: bool) -> Seq<char> {
    "https://"@ + hostname + "/api/v4/projects?per_page=100&archived=false"@ + if owned_only {
        "&min_access_level="@ + spec_dec(spec_access_level_number(AccessLevel::Owner) as nat)
    } else {
        Seq::empty()
    }
}

/// Builds the project-listing URL.
pub fn projects_list_url(hostname: &str, owned_only: bool) -> (r: String)
    ensures
        r@ == spec_projects_list_url(hostname@, owned_only),
{
    let mut s = String::new();
    s.append("https://");
    s.append(hostname);
    s.append("/api/v4/projects?per_page=100&archived=false");
    if owned_only {
        s.append("&min_access_level=");
        let lvl = AccessLevel::Owner;
        let t = fmt_u64(lvl.as_u8() as u64);
        s.append(t.as_str());
    }
    proof {
        assert(s@ =~= spec_projects_list_url(hostname@, owned_only));
    }
    s
}

/// The URL that lists groups, optionally restricted to those where the
/// credential has owner access.
pub open spec fn spec_groups_list_url(hostname: Seq<char>, owned_only: bool) -> Seq<char> {
    "https://"@ + hostname + "/api/v4/groups?per_page=100&archived=false"@ + if owned_only {
        "&min_access_level="@ + spec_dec(spec_access_level_number(AccessLevel::Owner) as nat)
    } else {
        Seq::empty()
    }
}

/// Builds the group-listing URL.
pub fn groups_list_url(hostname: &str, owned_only: bool) -> (r: String)
    ensures
        r@ == spec_groups_list_url(hostname@, owned_only),
{
    let mut s = String::new();
    s.append("https://");
    s.append(hostname);
    s.append("/api/v4/groups?per_page=100&archived=false");
    if owned_only {
        s.append("&min_access_level=");
        let lvl = AccessLevel::Owner;
        let t = fmt_u64(lvl.as_u8() as u64);
        s.append(t.as_str());
    }
    proof {
        assert(s@ =~= spec_groups_list_url(hostname@, owned_only));
    }
    s
}

/// The URL that lists a project's access tokens.
pub open spec fn spec_project_tokens_url(hostname: Seq<char>, id: int) -> Seq<char> {
    "https://"@ + hostname + "/api/v4/projects/"@ + spec_dec(id as nat)
        + "/access_tokens?per_page=100"@
}

/// Builds the URL that lists a project's access tokens.
pub fn project_tokens_url(hostname: &str, id: usize) -> (r: String)
    ensures
        r@ == spec_project_tokens_url(hostname@, id as int),
{
    let mut s = String::new();
    s.append("https://");
    s.append(hostname);
    s.append("/api/v4/projects/");
    let t = fmt_usize(id);
    s.append(t.as_str());
    s.append("/access_tokens?per_page=100");
    proof {
        assert(s@ =~= spec_project_tokens_url(hostname@, id as int));
    }
    s
}

/// The URL that lists a group's access tokens.
pub open spec fn spec_group_tokens_url(hostname: Seq<char>, id: int) -> Seq<char> {
    "https://"@ + hostname + "/api/v4/groups/"@ + spec_dec(id as nat)
        + "/access_tokens?per_page=100"@
}

/// Builds the URL that lists a group's access tokens.
pub fn group_tokens_url(hostname: &str, id: usize) -> (r: String)
    ensures
        r@ == spec_group_tokens_url(hostname@, id as int),
{
    let mut s = String::new();
    s.append("https://");
    s.append(hostname);
    s.append("/api/v4/groups/");
    let t = fmt_usize(id);
    s.append(t.as_str());
    s.append("/access_tokens?per_page=100");
    proof {
        assert(s@ =~= spec_group_tokens_url(hostname@, id as int));
    }
    s
}

/// The URL that fetches a single group by id.
pub open spec fn spec_group_url(hostname: Seq<char>, id: int) -> Seq<char> {
    "https://"@ + hostname + "/api/v4/groups/"@ + spec_dec(id as nat)
}

/// Builds the URL that fetches a single group by id.
pub fn group_url(hostname: &str, id: usize) -> (r: String)
    ensures
        r@ == spec_group_url(hostname@, id as int),
{
    let mut s = String::new();
    s.append("https://");
    s.append(hostname);
    s.append("/api/v4/groups/");
    let t = fmt_usize(id);
    s.append(t.as_str());
    proof {
        assert(s@ =~= spec_group_url(hostname@, id as int));
    }
    s
}

/// The URL that lists users.
pub open spec fn spec_users_url(hostname: Seq<char>) -> Seq<char> {
    "https://"@ + hostname + "/api/v4/users?per_page=100"@
}

/// Builds the user-listing URL.
pub fn users_url(hostname: &str) -> (r: String)
    ensures
        r@ == spec_users_url(hostname@),
{
    let mut s = String::new();
    s.append("https://");
    s.append(hostname);
    s.append("/api/v4/users?per_page=100");
    s
}

/// The URL that lists all personal access tokens.
pub open spec fn spec_personal_access_tokens_url(hostname: Seq<char>) -> Seq<char> {
    "https://"@ + hostname + "/api/v4/personal_access_tokens?per_page=100"@
}

/// Builds the personal-access-token listing URL.
pub fn personal_access_tokens_url(hostname: &str) -> (r: String)
    ensures
        r@ == spec_personal_access_tokens_url(hostname@),
{
    let mut s = String::new();
    s.append("https://");
    s.append(hostname);
    s.append("/api/v4/personal_access_tokens?per_page=100");
    s
}

/// The URL that reports the current authenticated identity.
pub open spec fn spec_current_user_url(hostname: Seq<char>) -> Seq<char> {
    "https://"@ + hostname + "/api/v4/user"@
}

/// Builds the current-identity URL.
pub fn current_user_url(hostname: &str) -> (r: String)
    ensures
        r@ == spec_current_user_url(hostname@),
{
    let mut s = String::new();
    s.append("https://");
    s.append(hostname);
    s.append("/api/v4/user");
    s
}

} // verus!
