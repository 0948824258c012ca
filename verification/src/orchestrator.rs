//! The refresh orchestrator's decisions: how entities are split into
//! bounded-concurrency chunks, how each pipeline renders its tokens, which
//! users count as humans, and how the three pipelines' results aggregate
//! into one snapshot or one failure.
//!
//! The requests themselves, and the task spawning, live outside the
//! verified world; they hand this module plain lists and take plain text
//! back.

use std::collections::HashMap;
use vstd::prelude::*;

use crate::date::Date;
use crate::error::Error;
use crate::gitlab::project::Project;
use crate::gitlab::token::{AccessToken, PersonalAccessToken, Token};
use crate::gitlab::user::{spec_is_bot_username, is_bot_username, User};
use crate::prometheus_metrics::{build, spec_build};

verus! {

broadcast use vstd::std_specs::hash::group_hash_axioms;

/// The chunk size of the two chunked pipelines: the configured cap on
/// concurrent requests, split evenly across them, and at least one.
pub open spec fn spec_chunk_size(max_concurrent: int) -> int {
    if max_concurrent / 2 < 1 {
        1
    } else {
        max_concurrent / 2
    }
}

/// Computes the per-pipeline chunk size from the configured cap on
/// concurrent requests.
pub fn chunk_size(max_concurrent_requests: u16) -> (r: usize)
    ensures
        r as int == spec_chunk_size(max_concurrent_requests as int),
        r >= 1,
{
    let half = (max_concurrent_requests / 2) as usize;
    if half < 1 {
        1
    } else {
        half
    }
}

/// How many chunks a list of `len` entities makes at a given chunk size.
pub open spec fn spec_chunk_count(len: int, size: int) -> int {
    (len + size - 1) / size
}

/// Splits `len` entities into consecutive chunks of at most `size`: the
/// k-th chunk covers the half-open index range `k*size .. min((k+1)*size,
/// len)`.  All requests of one chunk are issued concurrently and the whole
/// chunk is awaited before the next one starts; this caps in-flight
/// requests and the chunks proceed sequentially.
pub fn chunk_bounds(len: usize, size: usize) -> (r: Vec<(usize, usize)>)
    requires
        size >= 1,
    ensures
        r@.len() == spec_chunk_count(len as int, size as int),
        forall|k: int|
            0 <= k < r@.len() ==> {
                &&& (#[trigger] r@[k]).0 as int == k * size
                &&& r@[k].1 as int == (if k * size + size <= len {
                    k * size + size
                } else {
                    len as int
                })
            },
{
    let mut r: Vec<(usize, usize)> = Vec::new();
    let mut start: usize = 0;
    proof {
        assert(0int * size == 0) by (nonlinear_arith);
    }
    while start < len
        invariant
            size >= 1,
            start <= len,
            start as int == r@.len() * size || (start == len && r@.len() >= 1 && (r@.len() - 1)
                * size < len && len <= r@.len() * size),
            forall|k: int|
                0 <= k < r@.len() ==> {
                    &&& (#[trigger] r@[k]).0 as int == k * size
                    &&& r@[k].1 as int == (if k * size + size <= len {
                        k * size + size
                    } else {
                        len as int
                    })
                },
        decreases len - start,
    {
        proof {
            assert(start as int == r@.len() * size);
        }
        let end: usize = if size <= len - start {
            start + size
        } else {
            len
        };
        let ghost k = r@.len() as int;
        r.push((start, end));
        proof {
            assert(r@[k].0 as int == k * size);
            assert((k + 1) * size == k * size + size) by (nonlinear_arith);
        }
        start = end;
    }
    proof {
        let c = r@.len() as int;
        let l = len as int;
        let s = size as int;
        if start as int == c * s {
            assert(l == c * s);
            assert((c * s + s - 1) / s == c) by (nonlinear_arith)
                requires
                    s >= 1,
                    c >= 0,
            ;
        } else {
            assert((c - 1) * s < l && l <= c * s);
            assert((l + s - 1) / s == c) by (nonlinear_arith)
                requires
                    s >= 1,
                    c >= 1,
                    (c - 1) * s < l,
                    l <= c * s,
            ;
        }
    }
    r
}

/// What one project token contributes to the snapshot: nothing when it
/// never expires and such tokens are skipped, its rendered block
/// otherwise.
pub open spec fn spec_project_token_piece(
    p: Project,
    tok: AccessToken,
    today: Date,
    skip_non_expiring: bool,
) -> Seq<char> {
    if skip_non_expiring && tok.expires_at is None {
        Seq::empty()
    } else {
        spec_build(
            Token::Project { token: tok, full_path: p.path_with_namespace, web_url: p.web_url },
            today,
        )
    }
}

/// The concatenated blocks of a project's tokens, in listing order.
pub open spec fn spec_project_tokens_text(
    p: Project,
    toks: Seq<AccessToken>,
    today: Date,
    skip_non_expiring: bool,
) -> Seq<char>
    decreases toks.len(),
{
    if toks.len() == 0 {
        Seq::empty()
    } else {
        spec_project_token_piece(p, toks[0], today, skip_non_expiring)
            + spec_project_tokens_text(p, toks.drop_first(), today, skip_non_expiring)
    }
}

/// Renders all tokens of one project, in listing order, skipping
/// never-expiring tokens when so configured.
#[verifier::loop_isolation(false)]
pub fn render_project_tokens(
    project: &Project,
    tokens: Vec<AccessToken>,
    today: &Date,
    skip_non_expiring: bool,
) -> (r: String)
    ensures
        r@ == spec_project_tokens_text(*project, tokens@, *today, skip_non_expiring),
{
    let ghost all = tokens@;
    let mut res = String::new();
    let mut rest = tokens;
    while rest.len() > 0
        invariant
            res@ + spec_project_tokens_text(*project, rest@, *today, skip_non_expiring)
                == spec_project_tokens_text(*project, all, *today, skip_non_expiring),
        decreases rest@.len(),
    {
        let ghost prev = rest@;
        let tok = rest.remove(0);
        proof {
            assert(rest@ =~= prev.drop_first());
            assert(prev[0] == tok);
        }
        let skip_this = skip_non_expiring && tok.expires_at.is_none();
        if !skip_this {
            let t = Token::Project {
                token: tok,
                full_path: project.path_with_namespace.clone(),
                web_url: project.web_url.clone(),
            };
            let block = build(&t, today);
            res.append(block.as_str());
        }
        proof {
            assert(res@ + spec_project_tokens_text(*project, rest@, *today, skip_non_expiring)
                =~= spec_project_tokens_text(*project, all, *today, skip_non_expiring));
        }
    }
    proof {
        assert(res@ =~= spec_project_tokens_text(*project, all, *today, skip_non_expiring));
    }
    res
}

/// What one group token contributes to the snapshot.
pub open spec fn spec_group_token_piece(
    full_path: String,
    web_url: String,
    tok: AccessToken,
    today: Date,
    skip_non_expiring: bool,
) -> Seq<char> {
    if skip_non_expiring && tok.expires_at is None {
        Seq::empty()
    } else {
        spec_build(Token::Group { token: tok, full_path: full_path, web_url: web_url }, today)
    }
}

/// The concatenated blocks of a group's tokens, in listing order.
pub open spec fn spec_group_tokens_text(
    full_path: String,
    web_url: String,
    toks: Seq<AccessToken>,
    today: Date,
    skip_non_expiring: bool,
) -> Seq<char>
    decreases toks.len(),
{
    if toks.len() == 0 {
        Seq::empty()
    } else {
        spec_group_token_piece(full_path, web_url, toks[0], today, skip_non_expiring)
            + spec_group_tokens_text(
            full_path,
            web_url,
            toks.drop_first(),
            today,
            skip_non_expiring,
        )
    }
}

/// Renders all tokens of one group against its resolved full path, in
/// listing order, skipping never-expiring tokens when so configured.
#[verifier::loop_isolation(false)]
pub fn render_group_tokens(
    full_path: &String,
    web_url: &String,
    tokens: Vec<AccessToken>,
    today: &Date,
    skip_non_expiring: bool,
) -> (r: String)
    ensures
        r@ == spec_group_tokens_text(*full_path, *web_url, tokens@, *today, skip_non_expiring),
{
    let ghost all = tokens@;
    let mut res = String::new();
    let mut rest = tokens;
    while rest.len() > 0
        invariant
            res@ + spec_group_tokens_text(*full_path, *web_url, rest@, *today, skip_non_expiring)
                == spec_group_tokens_text(*full_path, *web_url, all, *today, skip_non_expiring),
        decreases rest@.len(),
    {
        let ghost prev = rest@;
        let tok = rest.remove(0);
        proof {
            assert(rest@ =~= prev.drop_first());
            assert(prev[0] == tok);
        }
        let skip_this = skip_non_expiring && tok.expires_at.is_none();
        if !skip_this {
            let t = Token::Group {
                token: tok,
                full_path: full_path.clone(),
                web_url: web_url.clone(),
            };
            let block = build(&t, today);
            res.append(block.as_str());
        }
        proof {
            assert(res@ + spec_group_tokens_text(
                *full_path,
                *web_url,
                rest@,
                *today,
                skip_non_expiring,
            ) =~= spec_group_tokens_text(*full_path, *web_url, all, *today, skip_non_expiring));
        }
    }
    proof {
        assert(res@ =~= spec_group_tokens_text(*full_path, *web_url, all, *today,
            skip_non_expiring));
    }
    res
}

/// The retained human users, as a map from user id to username: every
/// listed user except the machine accounts, later records overwriting
/// earlier ones with the same id.
pub open spec fn spec_human_ids(users: Seq<User>) -> Map<usize, String>
    decreases users.len(),
{
    if users.len() == 0 {
        Map::empty()
    } else {
        let m = spec_human_ids(users.drop_last());
        if spec_is_bot_username(users.last().username@) {
            m
        } else {
            m.insert(users.last().id, users.last().username)
        }
    }
}

/// Filters the listed users down to human accounts, keyed by user id.
#[verifier::loop_isolation(false)]
pub fn human_user_ids(users: &Vec<User>) -> (r: HashMap<usize, String>)
    ensures
        r@ == spec_human_ids(users@),
{
    let mut m: HashMap<usize, String> = HashMap::new();
    let n = users.len();
    let mut i: usize = 0;
    while i < n
        invariant
            i <= n,
            m@ == spec_human_ids(users@.take(i as int)),
        decreases n - i,
    {
        let u = &users[i];
        if !is_bot_username(u.username.as_str()) {
            m.insert(u.id, u.username.clone());
        }
        proof {
            assert(users@.take(i + 1).drop_last() =~= users@.take(i as int));
            assert(users@.take(i + 1).last() == users@[i as int]);
        }
        i += 1;
    }
    proof {
        assert(users@.take(n as int) =~= users@);
    }
    m
}

/// What one personal access token contributes to the snapshot: nothing
/// when its owner is not a retained human user, nothing when it never
/// expires and such tokens are skipped, its rendered block (with the
/// username as path) otherwise.
pub open spec fn spec_user_token_piece(
    usernames: Map<usize, String>,
    tok: PersonalAccessToken,
    today: Date,
    skip_non_expiring: bool,
) -> Seq<char> {
    if !usernames.contains_key(tok.user_id) {
        Seq::empty()
    } else if skip_non_expiring && tok.expires_at is None {
        Seq::empty()
    } else {
        spec_build(Token::User { token: tok, full_path: usernames[tok.user_id] }, today)
    }
}

/// The concatenated blocks of the retained personal access tokens, in
/// listing order.
pub open spec fn spec_user_tokens_text(
    usernames: Map<usize, String>,
    toks: Seq<PersonalAccessToken>,
    today: Date,
    skip_non_expiring: bool,
) -> Seq<char>
    decreases toks.len(),
{
    if toks.len() == 0 {
        Seq::empty()
    } else {
        spec_user_token_piece(usernames, toks[0], today, skip_non_expiring)
            + spec_user_tokens_text(usernames, toks.drop_first(), today, skip_non_expiring)
    }
}

/// Renders the personal access tokens that belong to a retained human
/// user, in listing order, using the username as the owner path; tokens of
/// unretained users are dropped, and never-expiring tokens are skipped
/// when so configured.
#[verifier::loop_isolation(false)]
pub fn render_user_tokens(
    tokens: Vec<PersonalAccessToken>,
    usernames: &HashMap<usize, String>,
    today: &Date,
    skip_non_expiring: bool,
) -> (r: String)
    ensures
        r@ == spec_user_tokens_text(usernames@, tokens@, *today, skip_non_expiring),
{
    let ghost all = tokens@;
    let mut res = String::new();
    let mut rest = tokens;
    while rest.len() > 0
        invariant
            res@ + spec_user_tokens_text(usernames@, rest@, *today, skip_non_expiring)
                == spec_user_tokens_text(usernames@, all, *today, skip_non_expiring),
        decreases rest@.len(),
    {
        let ghost prev = rest@;
        let tok = rest.remove(0);
        proof {
            assert(rest@ =~= prev.drop_first());
            assert(prev[0] == tok);
        }
        let skip_this = skip_non_expiring && tok.expires_at.is_none();
        match usernames.get(&tok.user_id) {
            Some(username) => {
                if !skip_this {
                    let t = Token::User { token: tok, full_path: username.clone() };
                    let block = build(&t, today);
                    res.append(block.as_str());
                }
            },
            None => {},
        }
        proof {
            assert(res@ + spec_user_tokens_text(usernames@, rest@, *today, skip_non_expiring)
                =~= spec_user_tokens_text(usernames@, all, *today, skip_non_expiring));
        }
    }
    proof {
        assert(res@ =~= spec_user_tokens_text(usernames@, all, *today, skip_non_expiring));
    }
    res
}

/// What the users pipeline does after the identity check.
#[derive(Debug, PartialEq)]
pub enum UsersPlan {
    /// The identity lacks administrator rights: contribute an empty result
    /// and warn — the one soft failure of the system.  Neither users nor
    /// tokens are listed.
    SkipNotAdmin,
    /// The identity is an administrator: list users and personal access
    /// tokens.
    ListUsers,
}

/// Decides the users pipeline from the authenticated identity: it proceeds
/// exactly when the identity is an administrator.
pub fn users_plan(current_user: &User) -> (r: UsersPlan)
    ensures
        (r == UsersPlan::ListUsers) == current_user.is_admin,
        (r == UsersPlan::SkipNotAdmin) == !current_user.is_admin,
{
    if current_user.is_admin {
        UsersPlan::ListUsers
    } else {
        UsersPlan::SkipNotAdmin
    }
}

/// The soft outcome of the users pipeline when the identity lacks
/// administrator rights: an empty, successful contribution.
pub fn users_not_admin_result() -> (r: Result<String, Error>)
    ensures
        r matches Ok(s) && s@ == Seq::<char>::empty(),
{
    Ok(String::new())
}

/// Joins the three pipelines' outcomes into one refresh result: the first
/// hard failure — in projects, groups, users order — fails the whole
/// refresh with a prefixed message and every sibling contribution is
/// discarded; when all three succeed the snapshot is their concatenation.
pub fn combine_results(
    projects: Result<String, Error>,
    groups: Result<String, Error>,
    users: Result<String, Error>,
) -> (r: Result<String, String>)
    ensures
        match projects {
            Err(e) => r matches Err(m) && m@ == "Failed to get projects tokens: "@
                + e.spec_message(),
            Ok(p) => match groups {
                Err(e) => r matches Err(m) && m@ == "Failed to get groups tokens: "@
                    + e.spec_message(),
                Ok(g) => match users {
                    Err(e) => r matches Err(m) && m@ == "Failed to get users tokens: "@
                        + e.spec_message(),
                    Ok(u) => r matches Ok(s) && s@ == p@ + g@ + u@,
                },
            },
        },
{
    match projects {
        Err(e) => {
            let mut m = String::new();
            m.append("Failed to get projects tokens: ");
            m.append(e.message().as_str());
            Err(m)
        },
        Ok(p) => {
            match groups {
                Err(e) => {
                    let mut m = String::new();
                    m.append("Failed to get groups tokens: ");
                    m.append(e.message().as_str());
                    Err(m)
                },
                Ok(g) => {
                    match users {
                        Err(e) => {
                            let mut m = String::new();
                            m.append("Failed to get users tokens: ");
                            m.append(e.message().as_str());
                            Err(m)
                        },
                        Ok(u) => {
                            let mut s = p;
                            s.append(g.as_str());
                            s.append(u.as_str());
                            Ok(s)
                        },
                    }
                },
            }
        },
    }
}

} // verus!
