//! The rendered metric blocks, parsed back with the exposition-format
//! pattern and checked field by field.

use regex::Regex;

use gitlab_tokens::date::{today, Date};
use gitlab_tokens::gitlab::token::{
    AccessLevel, AccessToken, AccessTokenScope, PersonalAccessToken, PersonalAccessTokenScope,
    Token,
};
use gitlab_tokens::prometheus_metrics::{build, DEFAULT_TOKEN_VALIDITY_DAYS};

fn metric_regex() -> Regex {
    Regex::new(
        r#"^(?x) # use the x flag to enable insigificant whitespace mode
gitlab_token_(?<fullname>\w+)
\{
(?<origin_type>project|group|user)="(?<origin_name>[^"]+)",
token_name="(?<name>[^"]+)",
active="(?<active>true|false)",
revoked="(?<revoked>true|false)",
(access_level="(?<access_level>(guest|reporter|developer|maintainer|owner))",)?     # Not defined for PersonalAccessToken
(web_url="(?<web_url>[^"]+)",)?                                                     # Not defined for PersonalAccessToken
(scopes="(?<scopes>\[[^\]]+\])")                                                    # Must always be defined and not empty
(,expires_at="(?<expires_at>\+?[0-9]{4,6}-[0-9]{2}-[0-9]{2})")?                     # Not defined if the token has no expiry date
\}
\s(?<days>-?[0-9]+)$
"#,
    )
    .unwrap()
}

fn get_first_non_comment_line(text: &str) -> &str {
    text.lines().find(|line| !line.starts_with('#')).unwrap()
}

fn default_access_token() -> AccessToken {
    AccessToken {
        access_level: AccessLevel::Guest,
        active: true,
        expires_at: Some(Date::new(2119, 5, 14).unwrap()),
        name: "project_token".to_string(),
        revoked: false,
        scopes: vec![AccessTokenScope::Api],
    }
}

fn default_project_token() -> Token {
    Token::Project {
        token: default_access_token(),
        full_path: "project_path".to_string(),
        web_url: "http://project_web_url/".to_string(),
    }
}

fn default_group_token() -> Token {
    Token::Group {
        token: default_access_token(),
        full_path: "project_path".to_string(),
        web_url: "http://project_web_url/".to_string(),
    }
}

fn default_personal_access_token() -> PersonalAccessToken {
    PersonalAccessToken {
        active: true,
        expires_at: Some(Date::new(2139, 1, 1).unwrap()),
        name: "user_token".to_string(),
        revoked: false,
        scopes: vec![PersonalAccessTokenScope::ReadRepository],
        user_id: 123,
    }
}

fn default_user_token() -> Token {
    Token::User { token: default_personal_access_token(), full_path: "user_path".to_string() }
}

fn date_plus_days(base: &Date, days: i64) -> Date {
    let nd = chrono::NaiveDate::from_ymd_opt(base.year() as i32, base.month(), base.day()).unwrap();
    let shifted = if days >= 0 {
        nd.checked_add_days(chrono::Days::new(days as u64)).unwrap()
    } else {
        nd.checked_sub_days(chrono::Days::new((-days) as u64)).unwrap()
    };
    Date::new(
        chrono::Datelike::year(&shifted) as u32,
        chrono::Datelike::month(&shifted),
        chrono::Datelike::day(&shifted),
    )
    .unwrap()
}

#[test]
fn project_token_metric_match_re() {
    let token = default_project_token();
    let metric = build(&token, &today());
    let line = get_first_non_comment_line(&metric);
    let caps_opt = metric_regex().captures(line);
    assert!(caps_opt.is_some(), "metric doesn't match RE!");
    let captures = caps_opt.unwrap();

    let (project_token, full_path, web_url) = match &token {
        Token::Project { token, full_path, web_url } => (token, full_path, web_url),
        _ => panic!(),
    };

    assert_eq!(&captures["fullname"], format!("{full_path}_{}", project_token.name));
    assert_eq!(&captures["origin_type"], "project");

    assert_eq!(&captures["origin_name"], full_path.as_str());
    assert_eq!(&captures["name"], project_token.name);
    assert_eq!(&captures["active"], project_token.active.to_string());
    assert_eq!(&captures["revoked"], project_token.revoked.to_string());
    assert_eq!(&captures["access_level"], project_token.access_level.as_str());
    assert_eq!(&captures["web_url"], web_url.as_str());
    assert_eq!(&captures["scopes"], token.scopes());
    assert_eq!(&captures["expires_at"], project_token.expires_at.unwrap().to_text());
}

#[test]
fn group_token_metric_match_re() {
    let token = default_group_token();
    let metric = build(&token, &today());
    let line = get_first_non_comment_line(&metric);
    let caps_opt = metric_regex().captures(line);
    assert!(caps_opt.is_some(), "metric doesn't match RE!");
    let captures = caps_opt.unwrap();

    let (group_token, full_path, web_url) = match &token {
        Token::Group { token, full_path, web_url } => (token, full_path, web_url),
        _ => panic!(),
    };

    assert_eq!(&captures["fullname"], format!("{full_path}_{}", group_token.name));
    assert_eq!(&captures["origin_type"], "group");

    assert_eq!(&captures["origin_name"], full_path.as_str());
    assert_eq!(&captures["name"], group_token.name);
    assert_eq!(&captures["active"], group_token.active.to_string());
    assert_eq!(&captures["revoked"], group_token.revoked.to_string());
    assert_eq!(&captures["access_level"], group_token.access_level.as_str());
    assert_eq!(&captures["web_url"], web_url.as_str());
    assert_eq!(&captures["scopes"], token.scopes());
    assert_eq!(&captures["expires_at"], group_token.expires_at.unwrap().to_text());
}

#[test]
fn user_token_metric_match_re() {
    let token = default_user_token();
    let metric = build(&token, &today());
    let line = get_first_non_comment_line(&metric);
    let caps_opt = metric_regex().captures(line);
    assert!(caps_opt.is_some(), "metric doesn't match RE!");
    let captures = caps_opt.unwrap();

    let (user_token, full_path) = match &token {
        Token::User { token, full_path } => (token, full_path),
        _ => panic!(),
    };

    assert_eq!(&captures["fullname"], format!("{full_path}_{}", user_token.name));
    assert_eq!(&captures["origin_type"], "user");

    assert_eq!(&captures["origin_name"], full_path.as_str());
    assert_eq!(&captures["name"], user_token.name);
    assert_eq!(&captures["active"], user_token.active.to_string());
    assert_eq!(&captures["revoked"], user_token.revoked.to_string());
    assert_eq!(&captures["scopes"], token.scopes());
    assert_eq!(&captures["expires_at"], user_token.expires_at.unwrap().to_text());
}

#[test]
/// Check if the generated metric name contains authorized characters only
fn project_token_metric_special_chars() {
    let mut project_token = default_access_token();
    project_token.name = "project token name with lot's-of_special-characters!?.|#".to_owned();

    let token = Token::Project {
        token: project_token,
        full_path: "path/with-special,characters=+".to_owned(),
        web_url: "http://project_web_url/".to_owned(),
    };

    let metric = build(&token, &today());
    let line = get_first_non_comment_line(&metric);
    let caps_opt = metric_regex().captures(line);
    assert!(caps_opt.is_some(), "metric doesn't match RE!");
    let captures = caps_opt.unwrap();

    // Special characters must be replaced with underscores
    assert_eq!(
        &captures["fullname"],
        "path_with_special_characters___project_token_name_with_lot_s_of_special_characters_____"
    );
}

#[test]
/// Check if the generated metric name contains authorized characters only
fn group_token_metric_special_chars() {
    let mut group_token = default_access_token();
    group_token.name = "group token name with special-characters|#".to_owned();

    let token = Token::Group {
        token: group_token,
        full_path: "path/with/slashes-and-dashes".to_owned(),
        web_url: "http://project_web_url/".to_owned(),
    };

    let metric = build(&token, &today());
    let line = get_first_non_comment_line(&metric);
    let caps_opt = metric_regex().captures(line);
    assert!(caps_opt.is_some(), "metric doesn't match RE!");
    let captures = caps_opt.unwrap();

    // Special characters must be replaced with underscores
    assert_eq!(
        &captures["fullname"],
        "path_with_slashes_and_dashes_group_token_name_with_special_characters__"
    );
}

#[test]
/// Check if the generated metric name contains authorized characters only
fn user_token_metric_special_chars() {
    let mut user_token = default_personal_access_token();
    user_token.name = "user token name with spaces".to_owned();

    let token = Token::User { token: user_token, full_path: "path/with/slashes".to_owned() };

    let metric = build(&token, &today());
    let line = get_first_non_comment_line(&metric);
    let caps_opt = metric_regex().captures(line);
    assert!(caps_opt.is_some(), "metric doesn't match RE!");
    let captures = caps_opt.unwrap();

    // Special characters must be replaced with underscores
    assert_eq!(&captures["fullname"], "path_with_slashes_user_token_name_with_spaces");
}

#[test]
/// Check if the metric's value (the number of days before the token expires) is correct
fn project_token_valid_days_remaining() {
    const DAYS: u64 = 44;

    let now = today();
    let mut project_token = default_access_token();
    project_token.expires_at = Some(date_plus_days(&now, DAYS as i64));

    let token = Token::Project {
        token: project_token,
        full_path: "project_path".to_owned(),
        web_url: "http://project_web_url/".to_owned(),
    };

    let metric = build(&token, &now);
    let line = get_first_non_comment_line(&metric);
    let caps_opt = metric_regex().captures(line);
    assert!(caps_opt.is_some(), "metric doesn't match RE!");
    let captures = caps_opt.unwrap();

    assert_eq!(captures["days"].parse::<u64>().unwrap(), DAYS)
}

#[test]
/// Check if the metric's value (the number of days after the token expired) is correct
fn project_token_expired_days() {
    const DAYS: u64 = 44;

    let now = today();
    let mut project_token = default_access_token();
    project_token.expires_at = Some(date_plus_days(&now, -(DAYS as i64)));

    let token = Token::Project {
        token: project_token,
        full_path: "project_path".to_owned(),
        web_url: "http://project_web_url/".to_owned(),
    };

    let metric = build(&token, &now);
    let line = get_first_non_comment_line(&metric);
    let caps_opt = metric_regex().captures(line);
    assert!(caps_opt.is_some(), "metric doesn't match RE!");
    let captures = caps_opt.unwrap();

    assert_eq!(captures["days"].parse::<isize>().unwrap(), -(DAYS as isize))
}

#[test]
/// Check if token scopes are correct
fn project_token_scopes() {
    let mut project_token = default_access_token();
    project_token.scopes = vec![AccessTokenScope::Api, AccessTokenScope::WriteRepository];

    let token = Token::Project {
        token: project_token,
        full_path: "project_path".to_owned(),
        web_url: "http://project_web_url/".to_owned(),
    };

    let metric = build(&token, &today());
    let line = get_first_non_comment_line(&metric);
    let caps_opt = metric_regex().captures(line);
    assert!(caps_opt.is_some(), "metric doesn't match RE!");
    let captures = caps_opt.unwrap();

    assert_eq!(&captures["scopes"], "[api,write_repository]");
}

#[test]
/// Check if token scopes are correct
fn user_token_scopes() {
    let mut user_token = default_personal_access_token();
    user_token.scopes = vec![
        PersonalAccessTokenScope::AdminMode,
        PersonalAccessTokenScope::Api,
        PersonalAccessTokenScope::ReadRepository,
    ];

    let token = Token::User { token: user_token, full_path: "user_path".to_owned() };

    let metric = build(&token, &today());
    let line = get_first_non_comment_line(&metric);
    let caps_opt = metric_regex().captures(line);
    assert!(caps_opt.is_some(), "metric doesn't match RE!");
    let captures = caps_opt.unwrap();

    assert_eq!(&captures["scopes"], "[admin_mode,api,read_repository]");
}

#[test]
/// Check if non expiring project token metrics are rendered correctly
fn project_token_no_expiration() {
    let mut project_token = default_access_token();
    project_token.expires_at = None;

    let token = Token::Project {
        token: project_token,
        full_path: "project_path".to_owned(),
        web_url: "http://project_web_url/".to_owned(),
    };

    let metric = build(&token, &today());
    let line = get_first_non_comment_line(&metric);
    let caps_opt = metric_regex().captures(line);
    assert!(caps_opt.is_some(), "metric doesn't match RE!");
    let captures = caps_opt.unwrap();

    assert_eq!(captures["days"].parse::<u16>().unwrap(), DEFAULT_TOKEN_VALIDITY_DAYS);

    assert!(captures.name("expires_at").is_none());
}

#[test]
/// Check if non expiring group token metrics are rendered correctly
fn group_token_no_expiration() {
    let mut group_token = default_access_token();
    group_token.expires_at = None;

    let token = Token::Group {
        token: group_token,
        full_path: "project_path".to_owned(),
        web_url: "http://project_web_url/".to_owned(),
    };

    let metric = build(&token, &today());
    let line = get_first_non_comment_line(&metric);
    let caps_opt = metric_regex().captures(line);
    assert!(caps_opt.is_some(), "metric doesn't match RE!");
    let captures = caps_opt.unwrap();

    assert_eq!(captures["days"].parse::<u16>().unwrap(), DEFAULT_TOKEN_VALIDITY_DAYS);

    assert!(captures.name("expires_at").is_none());
}

#[test]
/// Check if non expiring user token metrics are rendered correctly
fn user_token_no_expiration() {
    let mut user_token = default_personal_access_token();
    user_token.expires_at = None;

    let token = Token::User { token: user_token, full_path: "user_path".to_owned() };

    let metric = build(&token, &today());
    let line = get_first_non_comment_line(&metric);
    let caps_opt = metric_regex().captures(line);
    assert!(caps_opt.is_some(), "metric doesn't match RE!");
    let captures = caps_opt.unwrap();

    assert_eq!(captures["days"].parse::<u16>().unwrap(), DEFAULT_TOKEN_VALIDITY_DAYS);

    assert!(captures.name("expires_at").is_none());
}

#[test]
/// Check if a project token with an expiry date with a 5 digits year is rendered correctly
fn project_token_expiry_year_10000() {
    let mut project_token = default_access_token();
    project_token.expires_at = Some(Date::new(10000, 12, 31).unwrap());

    let token = Token::Project {
        token: project_token,
        full_path: "project_path".to_owned(),
        web_url: "http://project_web_url/".to_owned(),
    };

    let metric = build(&token, &today());
    let line = get_first_non_comment_line(&metric);
    let caps_opt = metric_regex().captures(line);
    assert!(caps_opt.is_some(), "metric doesn't match RE!");
    let captures = caps_opt.unwrap();

    assert_eq!(&captures["expires_at"], "+10000-12-31");
}

#[test]
/// Check if a group token with an expiry date with a 5 digits year is rendered correctly
fn group_token_expiry_year_10000() {
    let mut group_token = default_access_token();
    group_token.expires_at = Some(Date::new(10000, 12, 31).unwrap());

    let token = Token::Group {
        token: group_token,
        full_path: "project_path".to_owned(),
        web_url: "http://project_web_url/".to_owned(),
    };

    let metric = build(&token, &today());
    let line = get_first_non_comment_line(&metric);
    let caps_opt = metric_regex().captures(line);
    assert!(caps_opt.is_some(), "metric doesn't match RE!");
    let captures = caps_opt.unwrap();

    assert_eq!(&captures["expires_at"], "+10000-12-31");
}

#[test]
/// Check if a user token with an expiry date with a 5 digits year is rendered correctly
fn user_token_expiry_year_10000() {
    let mut user_token = default_personal_access_token();
    user_token.expires_at = Some(Date::new(10000, 12, 31).unwrap());

    let token = Token::User { token: user_token, full_path: "user_path".to_owned() };

    let metric = build(&token, &today());
    let line = get_first_non_comment_line(&metric);
    let caps_opt = metric_regex().captures(line);
    assert!(caps_opt.is_some(), "metric doesn't match RE!");
    let captures = caps_opt.unwrap();

    assert_eq!(&captures["expires_at"], "+10000-12-31");
}

#[test]
/// Check if a project token with an expiry date with a 6 digits year is rendered correctly
fn project_token_expiry_year_250000() {
    let mut project_token = default_access_token();
    project_token.expires_at = Some(Date::new(250000, 12, 31).unwrap());

    let token = Token::Project {
        token: project_token,
        full_path: "project_path".to_owned(),
        web_url: "http://project_web_url/".to_owned(),
    };

    let metric = build(&token, &today());
    let line = get_first_non_comment_line(&metric);
    let caps_opt = metric_regex().captures(line);
    assert!(caps_opt.is_some(), "metric doesn't match RE!");
    let captures = caps_opt.unwrap();

    assert_eq!(&captures["expires_at"], "+250000-12-31");
}

#[test]
/// Check if a group token with an expiry date with a 6 digits year is rendered correctly
fn group_token_expiry_year_250000() {
    let mut group_token = default_access_token();
    group_token.expires_at = Some(Date::new(250000, 12, 31).unwrap());

    let token = Token::Group {
        token: group_token,
        full_path: "project_path".to_owned(),
        web_url: "http://project_web_url/".to_owned(),
    };

    let metric = build(&token, &today());
    let line = get_first_non_comment_line(&metric);
    let caps_opt = metric_regex().captures(line);
    assert!(caps_opt.is_some(), "metric doesn't match RE!");
    let captures = caps_opt.unwrap();

    assert_eq!(&captures["expires_at"], "+250000-12-31");
}

#[test]
/// Check if a user token with an expiry date with a 6 digits year is rendered correctly
fn user_token_expiry_year_250000() {
    let mut user_token = default_personal_access_token();
    user_token.expires_at = Some(Date::new(250000, 12, 31).unwrap());

    let token = Token::User { token: user_token, full_path: "user_path".to_owned() };

    let metric = build(&token, &today());
    let line = get_first_non_comment_line(&metric);
    let caps_opt = metric_regex().captures(line);
    assert!(caps_opt.is_some(), "metric doesn't match RE!");
    let captures = caps_opt.unwrap();

    assert_eq!(&captures["expires_at"], "+250000-12-31");
}
