//! The two kinds of access token the exporter reads, and the common token
//! type that rendering consumes.

use vstd::prelude::*;

use crate::date::Date;

verus! {

/// The access level attached to a project or group access token.
#[derive(Copy, Debug)]
pub enum AccessLevel {
    Developer,
    Guest,
    Maintainer,
    Owner,
    Reporter,
}

/// The label text of an access level.
pub open spec fn spec_access_level_text(l: AccessLevel) -> Seq<char> {
    match l {
        AccessLevel::Guest => "guest"@,
        AccessLevel::Reporter => "reporter"@,
        AccessLevel::Developer => "developer"@,
        AccessLevel::Maintainer => "maintainer"@,
        AccessLevel::Owner => "owner"@,
    }
}

/// The numeric value the platform uses for an access level.
pub open spec fn spec_access_level_number(l: AccessLevel) -> int {
    match l {
        AccessLevel::Guest => 10,
        AccessLevel::Reporter => 20,
        AccessLevel::Developer => 30,
        AccessLevel::Maintainer => 40,
        AccessLevel::Owner => 50,
    }
}

impl AccessLevel {
    /// The label text of this access level.
    pub fn as_str(&self) -> (r: &'static str)
        ensures
            r@ == spec_access_level_text(*self),
    {
        match self {
            AccessLevel::Guest => "guest",
            AccessLevel::Reporter => "reporter",
            AccessLevel::Developer => "developer",
            AccessLevel::Maintainer => "maintainer",
            AccessLevel::Owner => "owner",
        }
    }

    /// The numeric value the platform uses for this access level.
    pub fn as_u8(&self) -> (r: u8)
        ensures
            r as int == spec_access_level_number(*self),
    {
        match self {
            AccessLevel::Guest => 10,
            AccessLevel::Reporter => 20,
            AccessLevel::Developer => 30,
            AccessLevel::Maintainer => 40,
            AccessLevel::Owner => 50,
        }
    }
}

impl Clone for AccessLevel {
    /// An exact copy.
    fn clone(&self) -> (r: Self)
        ensures
            r == *self,
    {
        *self
    }
}

/// The scopes a project or group access token can carry.
#[derive(Copy, Debug)]
pub enum AccessTokenScope {
    AiFeatures,
    Api,
    CreateRunner,
    K8sProxy,
    ManageRunner,
    ReadApi,
    ReadObservability,
    ReadRegistry,
    ReadRepository,
    ReadVirtualRegistry,
    SelfRotate,
    WriteObservability,
    WriteRegistry,
    WriteRepository,
    WriteVirtualRegistry,
}

/// The label text of a project or group token scope.
pub open spec fn spec_access_scope_text(s: AccessTokenScope) -> Seq<char> {
    match s {
        AccessTokenScope::AiFeatures => "ai_features"@,
        AccessTokenScope::Api => "api"@,
        AccessTokenScope::CreateRunner => "create_runner"@,
        AccessTokenScope::K8sProxy => "k8s_proxy"@,
        AccessTokenScope::ManageRunner => "manage_runner"@,
        AccessTokenScope::ReadApi => "read_api"@,
        AccessTokenScope::ReadObservability => "read_observability"@,
        AccessTokenScope::ReadRegistry => "read_registry"@,
        AccessTokenScope::ReadRepository => "read_repository"@,
        AccessTokenScope::ReadVirtualRegistry => "read_virtual_repository"@,
        AccessTokenScope::SelfRotate => "self_rotate"@,
        AccessTokenScope::WriteObservability => "write_observability"@,
        AccessTokenScope::WriteRegistry => "write_registry"@,
        AccessTokenScope::WriteRepository => "write_repository"@,
        AccessTokenScope::WriteVirtualRegistry => "write_virtual_registry"@,
    }
}

impl AccessTokenScope {
    /// The label text of this scope.
    pub fn as_str(&self) -> (r: &'static str)
        ensures
            r@ == spec_access_scope_text(*self),
    {
        match self {
            AccessTokenScope::AiFeatures => "ai_features",
            AccessTokenScope::Api => "api",
            AccessTokenScope::CreateRunner => "create_runner",
            AccessTokenScope::K8sProxy => "k8s_proxy",
            AccessTokenScope::ManageRunner => "manage_runner",
            AccessTokenScope::ReadApi => "read_api",
            AccessTokenScope::ReadObservability => "read_observability",
            AccessTokenScope::ReadRegistry => "read_registry",
            AccessTokenScope::ReadRepository => "read_repository",
            AccessTokenScope::ReadVirtualRegistry => "read_virtual_repository",
            AccessTokenScope::SelfRotate => "self_rotate",
            AccessTokenScope::WriteObservability => "write_observability",
            AccessTokenScope::WriteRegistry => "write_registry",
            AccessTokenScope::WriteRepository => "write_repository",
            AccessTokenScope::WriteVirtualRegistry => "write_virtual_registry",
        }
    }
}

impl Clone for AccessTokenScope {
    /// An exact copy.
    fn clone(&self) -> (r: Self)
        ensures
            r == *self,
    {
        *self
    }
}

/// The scopes a personal access token can carry.
#[derive(Copy, Debug)]
pub enum PersonalAccessTokenScope {
    AdminMode,
    AiFeatures,
    Api,
    CreateRunner,
    K8sProxy,
    ManageRunner,
    ReadApi,
    ReadObservability,
    ReadRegistry,
    ReadRepository,
    ReadServicePing,
    ReadUser,
    ReadVirtualRegistry,
    SelfRotate,
    Sudo,
    WriteObservability,
    WriteRegistry,
    WriteRepository,
    WriteVirtualRegistry,
}

/// The label text of a personal token scope.
pub open spec fn spec_personal_scope_text(s: PersonalAccessTokenScope) -> Seq<char> {
    match s {
        PersonalAccessTokenScope::AdminMode => "admin_mode"@,
        PersonalAccessTokenScope::AiFeatures => "ai_features"@,
        PersonalAccessTokenScope::Api => "api"@,
        PersonalAccessTokenScope::CreateRunner => "create_runner"@,
        PersonalAccessTokenScope::K8sProxy => "k8s_proxy"@,
        PersonalAccessTokenScope::ManageRunner => "manage_runner"@,
        PersonalAccessTokenScope::ReadApi => "read_api"@,
        PersonalAccessTokenScope::ReadObservability => "read_observability"@,
        PersonalAccessTokenScope::ReadRegistry => "read_registry"@,
        PersonalAccessTokenScope::ReadRepository => "read_repository"@,
        PersonalAccessTokenScope::ReadServicePing => "read_service_ping"@,
        PersonalAccessTokenScope::ReadUser => "read_user"@,
        PersonalAccessTokenScope::ReadVirtualRegistry => "read_virtual_registry"@,
        PersonalAccessTokenScope::SelfRotate => "self_rotate"@,
        PersonalAccessTokenScope::Sudo => "sudo"@,
        PersonalAccessTokenScope::WriteObservability => "write_observability"@,
        PersonalAccessTokenScope::WriteRegistry => "write_registry"@,
        PersonalAccessTokenScope::WriteRepository => "write_repository"@,
        PersonalAccessTokenScope::WriteVirtualRegistry => "write_virtual_registry"@,
    }
}

impl PersonalAccessTokenScope {
    /// The label text of this scope.
    pub fn as_str(&self) -> (r: &'static str)
        ensures
            r@ == spec_personal_scope_text(*self),
    {
        match self {
            PersonalAccessTokenScope::AdminMode => "admin_mode",
            PersonalAccessTokenScope::AiFeatures => "ai_features",
            PersonalAccessTokenScope::Api => "api",
            PersonalAccessTokenScope::CreateRunner => "create_runner",
            PersonalAccessTokenScope::K8sProxy => "k8s_proxy",
            PersonalAccessTokenScope::ManageRunner => "manage_runner",
            PersonalAccessTokenScope::ReadApi => "read_api",
            PersonalAccessTokenScope::ReadObservability => "read_observability",
            PersonalAccessTokenScope::ReadRegistry => "read_registry",
            PersonalAccessTokenScope::ReadRepository => "read_repository",
            PersonalAccessTokenScope::ReadServicePing => "read_service_ping",
            PersonalAccessTokenScope::ReadUser => "read_user",
            PersonalAccessTokenScope::ReadVirtualRegistry => "read_virtual_registry",
            PersonalAccessTokenScope::SelfRotate => "self_rotate",
            PersonalAccessTokenScope::Sudo => "sudo",
            PersonalAccessTokenScope::WriteObservability => "write_observability",
            PersonalAccessTokenScope::WriteRegistry => "write_registry",
            PersonalAccessTokenScope::WriteRepository => "write_repository",
            PersonalAccessTokenScope::WriteVirtualRegistry => "write_virtual_registry",
        }
    }
}

impl Clone for PersonalAccessTokenScope {
    /// An exact copy.
    fn clone(&self) -> (r: Self)
        ensures
            r == *self,
    {
        *self
    }
}

/// A project or group access token, as the list endpoints report it.
#[derive(Debug)]
pub struct AccessToken {
    /// Access level
    pub access_level: AccessLevel,
    /// Active
    pub active: bool,
    /// Expiration date; absent for tokens that never expire
    pub expires_at: Option<Date>,
    /// Name
    pub name: String,
    /// Revoked
    pub revoked: bool,
    /// Scopes
    pub scopes: Vec<AccessTokenScope>,
}

impl Clone for AccessToken {
    /// A copy whose every field reads the same.
    fn clone(&self) -> (r: Self)
        ensures
            r.access_level == self.access_level,
            r.active == self.active,
            r.expires_at == self.expires_at,
            r.name@ == self.name@,
            r.revoked == self.revoked,
            r.scopes@ == self.scopes@,
    {
        let scopes = self.scopes.clone();
        proof {
            assert(scopes@ =~= self.scopes@);
        }
        AccessToken {
            access_level: self.access_level,
            active: self.active,
            expires_at: self.expires_at,
            name: self.name.clone(),
            revoked: self.revoked,
            scopes,
        }
    }
}

/// A personal access token, as the list endpoint reports it.
#[derive(Debug)]
pub struct PersonalAccessToken {
    /// Active
    pub active: bool,
    /// Expiration date; absent for tokens that never expire
    pub expires_at: Option<Date>,
    /// Name
    pub name: String,
    /// Revoked
    pub revoked: bool,
    /// Scopes
    pub scopes: Vec<PersonalAccessTokenScope>,
    /// User id
    pub user_id: usize,
}

impl Clone for PersonalAccessToken {
    /// A copy whose every field reads the same.
    fn clone(&self) -> (r: Self)
        ensures
            r.active == self.active,
            r.expires_at == self.expires_at,
            r.name@ == self.name@,
            r.revoked == self.revoked,
            r.scopes@ == self.scopes@,
            r.user_id == self.user_id,
    {
        let scopes = self.scopes.clone();
        proof {
            assert(scopes@ =~= self.scopes@);
        }
        PersonalAccessToken {
            active: self.active,
            expires_at: self.expires_at,
            name: self.name.clone(),
            revoked: self.revoked,
            scopes,
            user_id: self.user_id,
        }
    }
}

/// A common token type: a raw token record together with the resolved full
/// path of its owning entity (and that entity's URL for projects and
/// groups).
#[derive(Debug)]
pub enum Token {
    /// Group token
    Group { token: AccessToken, full_path: String, web_url: String },
    /// Project token
    Project { token: AccessToken, full_path: String, web_url: String },
    /// User token
    User { token: PersonalAccessToken, full_path: String },
}

/// The scope list of a sequence of project or group token scopes, joined
/// with commas.
pub open spec fn spec_joined_access(ss: Seq<AccessTokenScope>) -> Seq<char>
    decreases ss.len(),
{
    if ss.len() == 0 {
        Seq::empty()
    } else if ss.len() == 1 {
        spec_access_scope_text(ss[0])
    } else {
        spec_joined_access(ss.drop_last()) + ","@ + spec_access_scope_text(ss.last())
    }
}

/// The scope list of a sequence of personal token scopes, joined with
/// commas.
pub open spec fn spec_joined_personal(ss: Seq<PersonalAccessTokenScope>) -> Seq<char>
    decreases ss.len(),
{
    if ss.len() == 0 {
        Seq::empty()
    } else if ss.len() == 1 {
        spec_personal_scope_text(ss[0])
    } else {
        spec_joined_personal(ss.drop_last()) + ","@ + spec_personal_scope_text(ss.last())
    }
}

/// The bracketed, comma-joined rendering of a token's scopes.
pub open spec fn spec_scopes_text(t: Token) -> Seq<char> {
    match t {
        Token::Group { token, .. } => "["@ + spec_joined_access(token.scopes@) + "]"@,
        Token::Project { token, .. } => "["@ + spec_joined_access(token.scopes@) + "]"@,
        Token::User { token, .. } => "["@ + spec_joined_personal(token.scopes@) + "]"@,
    }
}

/// Joins project or group token scopes with commas inside brackets.
fn join_access_scopes(scopes: &Vec<AccessTokenScope>) -> (r: String)
    ensures
        r@ == "["@ + spec_joined_access(scopes@) + "]"@,
{
    let mut res = String::new();
    res.append("[");
    proof {
        assert(res@ =~= "["@ + spec_joined_access(scopes@.take(0)));
    }
    let n = scopes.len();
    let mut i: usize = 0;
    while i < n
        invariant
            n == scopes@.len(),
            i <= n,
            res@ == "["@ + spec_joined_access(scopes@.take(i as int)),
        decreases n - i,
    {
        if i > 0 {
            res.append(",");
        }
        res.append(scopes[i].as_str());
        proof {
            assert(scopes@.take(i + 1).drop_last() =~= scopes@.take(i as int));
            assert(scopes@.take(i + 1).last() == scopes@[i as int]);
            if i == 0 {
                assert(spec_joined_access(scopes@.take(1)) == spec_access_scope_text(
                    scopes@.take(1)[0],
                ));
            }
        }
        i += 1;
    }
    proof {
        assert(scopes@.take(n as int) =~= scopes@);
    }
    res.append("]");
    res
}

/// Joins personal token scopes with commas inside brackets.
fn join_personal_scopes(scopes: &Vec<PersonalAccessTokenScope>) -> (r: String)
    ensures
        r@ == "["@ + spec_joined_personal(scopes@) + "]"@,
{
    let mut res = String::new();
    res.append("[");
    proof {
        assert(res@ =~= "["@ + spec_joined_personal(scopes@.take(0)));
    }
    let n = scopes.len();
    let mut i: usize = 0;
    while i < n
        invariant
            n == scopes@.len(),
            i <= n,
            res@ == "["@ + spec_joined_personal(scopes@.take(i as int)),
        decreases n - i,
    {
        if i > 0 {
            res.append(",");
        }
        res.append(scopes[i].as_str());
        proof {
            assert(scopes@.take(i + 1).drop_last() =~= scopes@.take(i as int));
            assert(scopes@.take(i + 1).last() == scopes@[i as int]);
            if i == 0 {
                assert(spec_joined_personal(scopes@.take(1)) == spec_personal_scope_text(
                    scopes@.take(1)[0],
                ));
            }
        }
        i += 1;
    }
    proof {
        assert(scopes@.take(n as int) =~= scopes@);
    }
    res.append("]");
    res
}

impl Token {
    /// Renders this token's scopes as a bracketed, comma-joined list, e.g.
    /// `[api,write_repository]`.
    pub fn scopes(&self) -> (r: String)
        ensures
            r@ == spec_scopes_text(*self),
    {
        match self {
            Token::Group { token, .. } => join_access_scopes(&token.scopes),
            Token::Project { token, .. } => join_access_scopes(&token.scopes),
            Token::User { token, .. } => join_personal_scopes(&token.scopes),
        }
    }
}

} // verus!
