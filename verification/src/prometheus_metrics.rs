//! Renders one monitoring-metric block per token: a help and a type
//! comment, then a single sample line whose value is the signed number of
//! days until the token expires.

use vstd::prelude::*;

use crate::date::{spec_date_text, spec_day_number, Date};
use crate::gitlab::token::{spec_access_level_text, spec_scopes_text, Token};
use crate::text::{bool_str, fmt_i64, fmt_u64, push_char, spec_dec, spec_dec_int};

verus! {

/// Value reported when a token has no expiration date.
pub const DEFAULT_TOKEN_VALIDITY_DAYS: u16 = 9999;

/// Whether a character may appear in a metric name.
pub open spec fn spec_metric_char_ok(c: char) -> bool {
    ||| 97 <= c as int <= 122  // 'a'..='z'
    ||| 65 <= c as int <= 90  // 'A'..='Z'
    ||| 48 <= c as int <= 57  // '0'..='9'
    ||| c == '_'
    ||| c == ':'
}

/// The text with every character outside the metric-name alphabet replaced
/// by an underscore.
pub open spec fn spec_sanitize(s: Seq<char>) -> Seq<char> {
    s.map_values(
        |c: char|
            if spec_metric_char_ok(c) {
                c
            } else {
                '_'
            },
    )
}

/// Whether a character may appear in a metric name.
fn is_metric_char(c: char) -> (r: bool)
    ensures
        r == spec_metric_char_ok(c),
{
    let v = c as u32;
    (97 <= v && v <= 122) || (65 <= v && v <= 90) || (48 <= v && v <= 57) || v == 95 || v == 58
}

/// Replaces every character outside the metric-name alphabet by an
/// underscore.
#[verifier::loop_isolation(false)]
fn sanitize(s: &str) -> (r: String)
    ensures
        r@ == spec_sanitize(s@),
{
    let n = s.unicode_len();
    let mut out = String::new();
    let mut i: usize = 0;
    while i < n
        invariant
            i <= n,
            out@ == spec_sanitize(s@.take(i as int)),
        decreases n - i,
    {
        let c = s.get_char(i);
        let kept: char = if is_metric_char(c) {
            c
        } else {
            '_'
        };
        push_char(&mut out, kept);
        proof {
            assert(spec_sanitize(s@.take(i + 1)) =~= spec_sanitize(s@.take(i as int)).push(kept));
        }
        i += 1;
    }
    proof {
        assert(s@.take(n as int) =~= s@);
    }
    out
}

/// The sanitized metric name derived from the owner path and the token
/// name.
pub open spec fn spec_metric_name(full_path: Seq<char>, name: Seq<char>) -> Seq<char> {
    spec_sanitize("gitlab_token_"@ + full_path + "_"@ + name)
}

/// Builds the sanitized metric name from the owner path and the token name.
fn metric_name(full_path: &str, name: &str) -> (r: String)
    ensures
        r@ == spec_metric_name(full_path@, name@),
{
    let mut raw = String::new();
    raw.append("gitlab_token_");
    raw.append(full_path);
    raw.append("_");
    raw.append(name);
    sanitize(raw.as_str())
}

/// The label key of a token's owner kind.
pub open spec fn spec_token_type_text(t: Token) -> Seq<char> {
    match t {
        Token::Group { .. } => "group"@,
        Token::Project { .. } => "project"@,
        Token::User { .. } => "user"@,
    }
}

/// The token's name.
pub open spec fn spec_token_name(t: Token) -> Seq<char> {
    match t {
        Token::Group { token, .. } => token.name@,
        Token::Project { token, .. } => token.name@,
        Token::User { token, .. } => token.name@,
    }
}

/// Whether the token is active.
pub open spec fn spec_token_active(t: Token) -> bool {
    match t {
        Token::Group { token, .. } => token.active,
        Token::Project { token, .. } => token.active,
        Token::User { token, .. } => token.active,
    }
}

/// Whether the token is revoked.
pub open spec fn spec_token_revoked(t: Token) -> bool {
    match t {
        Token::Group { token, .. } => token.revoked,
        Token::Project { token, .. } => token.revoked,
        Token::User { token, .. } => token.revoked,
    }
}

/// The token's expiry date, absent for tokens that never expire.
pub open spec fn spec_token_expiry(t: Token) -> Option<Date> {
    match t {
        Token::Group { token, .. } => token.expires_at,
        Token::Project { token, .. } => token.expires_at,
        Token::User { token, .. } => token.expires_at,
    }
}

/// The resolved full path of the token's owner.
pub open spec fn spec_token_full_path(t: Token) -> Seq<char> {
    match t {
        Token::Group { full_path, .. } => full_path@,
        Token::Project { full_path, .. } => full_path@,
        Token::User { full_path, .. } => full_path@,
    }
}

/// The access-level label, present for project and group tokens only.
pub open spec fn spec_level_piece(t: Token) -> Seq<char> {
    match t {
        Token::Group { token, .. } => "access_level=\""@ + spec_access_level_text(
            token.access_level,
        ) + "\","@,
        Token::Project { token, .. } => "access_level=\""@ + spec_access_level_text(
            token.access_level,
        ) + "\","@,
        Token::User { .. } => Seq::empty(),
    }
}

/// The web-URL label, present for project and group tokens only.
pub open spec fn spec_url_piece(t: Token) -> Seq<char> {
    match t {
        Token::Group { web_url, .. } => "web_url=\""@ + web_url@ + "\","@,
        Token::Project { web_url, .. } => "web_url=\""@ + web_url@ + "\","@,
        Token::User { .. } => Seq::empty(),
    }
}

/// The tail of the sample line: the expiry label (when there is one), the
/// closing brace, and the sample value — the signed number of days from
/// `today` to the expiry date, or the fixed sentinel for a token that never
/// expires.
pub open spec fn spec_expiry_piece(t: Token, today: Date) -> Seq<char> {
    match spec_token_expiry(t) {
        Some(d) => ",expires_at=\""@ + spec_date_text(
            d.spec_year() as nat,
            d.spec_month() as nat,
            d.spec_day() as nat,
        ) + "\"} "@ + spec_dec_int(
            spec_day_number(d.spec_year(), d.spec_month(), d.spec_day()) - spec_day_number(
                today.spec_year(),
                today.spec_month(),
                today.spec_day(),
            ),
        ),
        None => "} "@ + spec_dec(DEFAULT_TOKEN_VALIDITY_DAYS as nat),
    }
}

/// The full rendered block for one token: a help comment, a type comment,
/// and the sample line with its labels and value.
pub open spec fn spec_build(t: Token, today: Date) -> Seq<char> {
    let mname = spec_metric_name(spec_token_full_path(t), spec_token_name(t));
    "# HELP "@ + mname + " Days before Gitlab token expires\n"@ + "# TYPE "@ + mname + " gauge\n"@
        + mname + "{"@ + spec_token_type_text(t) + "=\""@ + spec_token_full_path(t)
        + "\",token_name=\""@ + spec_token_name(t) + "\",active=\""@ + crate::text::spec_bool_str(
        spec_token_active(t),
    ) + "\",revoked=\""@ + crate::text::spec_bool_str(spec_token_revoked(t)) + "\","@
        + spec_level_piece(t) + spec_url_piece(t) + "scopes=\""@ + spec_scopes_text(t) + "\""@
        + spec_expiry_piece(t, today)
}

/// Renders the access-level label of a project or group token.
fn level_piece(t: &Token) -> (r: String)
    ensures
        r@ == spec_level_piece(*t),
{
    match t {
        Token::Group { token, .. } => {
            let mut s = String::new();
            s.append("access_level=\"");
            s.append(token.access_level.as_str());
            s.append("\",");
            s
        },
        Token::Project { token, .. } => {
            let mut s = String::new();
            s.append("access_level=\"");
            s.append(token.access_level.as_str());
            s.append("\",");
            s
        },
        Token::User { .. } => String::new(),
    }
}

/// Renders the web-URL label of a project or group token.
fn url_piece(t: &Token) -> (r: String)
    ensures
        r@ == spec_url_piece(*t),
{
    match t {
        Token::Group { web_url, .. } => {
            let mut s = String::new();
            s.append("web_url=\"");
            s.append(web_url.as_str());
            s.append("\",");
            s
        },
        Token::Project { web_url, .. } => {
            let mut s = String::new();
            s.append("web_url=\"");
            s.append(web_url.as_str());
            s.append("\",");
            s
        },
        Token::User { .. } => String::new(),
    }
}

/// Renders the expiry label (when present), the closing brace, and the
/// sample value.
fn expiry_piece(t: &Token, today: &Date) -> (r: String)
    ensures
        r@ == spec_expiry_piece(*t, *today),
{
    let expires: Option<Date> = match t {
        Token::Group { token, .. } => token.expires_at,
        Token::Project { token, .. } => token.expires_at,
        Token::User { token, .. } => token.expires_at,
    };
    match expires {
        Some(d) => {
            let mut s = String::new();
            s.append(",expires_at=\"");
            let dt = d.to_text();
            s.append(dt.as_str());
            s.append("\"} ");
            let days = d.day_number() - today.day_number();
            let ds = fmt_i64(days);
            s.append(ds.as_str());
            s
        },
        None => {
            let mut s = String::new();
            s.append("} ");
            let ds = fmt_u64(DEFAULT_TOKEN_VALIDITY_DAYS as u64);
            s.append(ds.as_str());
            s
        },
    }
}

/// Renders the metric block for one token against the given current date.
/// The metric name always starts with `gitlab_token_`.
pub fn build(gitlab_token: &Token, today: &Date) -> (res: String)
    ensures
        res@ == spec_build(*gitlab_token, *today),
{
    let token_type: &str = match gitlab_token {
        Token::Group { .. } => "group",
        Token::Project { .. } => "project",
        Token::User { .. } => "user",
    };
    let (name_s, active, revoked): (&String, bool, bool) = match gitlab_token {
        Token::Group { token, .. } => (&token.name, token.active, token.revoked),
        Token::Project { token, .. } => (&token.name, token.active, token.revoked),
        Token::User { token, .. } => (&token.name, token.active, token.revoked),
    };
    let full_path_s: &String = match gitlab_token {
        Token::Group { full_path, .. } => full_path,
        Token::Project { full_path, .. } => full_path,
        Token::User { full_path, .. } => full_path,
    };
    let mname = metric_name(full_path_s.as_str(), name_s.as_str());

    let mut res = String::new();
    res.append("# HELP ");
    res.append(mname.as_str());
    res.append(" Days before Gitlab token expires\n");
    res.append("# TYPE ");
    res.append(mname.as_str());
    res.append(" gauge\n");
    res.append(mname.as_str());
    res.append("{");
    res.append(token_type);
    res.append("=\"");
    res.append(full_path_s.as_str());
    res.append("\",token_name=\"");
    res.append(name_s.as_str());
    res.append("\",active=\"");
    res.append(bool_str(active));
    res.append("\",revoked=\"");
    res.append(bool_str(revoked));
    res.append("\",");
    let lvl = level_piece(gitlab_token);
    res.append(lvl.as_str());
    let urlp = url_piece(gitlab_token);
    res.append(urlp.as_str());
    res.append("scopes=\"");
    let sc = gitlab_token.scopes();
    res.append(sc.as_str());
    res.append("\"");
    let exp = expiry_piece(gitlab_token, today);
    res.append(exp.as_str());
    proof {
        assert(res@ =~= spec_build(*gitlab_token, *today));
    }
    res
}

} // verus!
