use vstd::prelude::*;
use crate::role::UserRole;
use crate::token::unix_now;

verus! {

/// The stored credential of an account: the email it signs in with and its
/// password hash. Shares its `id` with the account's user profile.
#[derive(Debug)]
pub struct Auth {
    pub id: String,
    pub email: String,
    pub password: String,
    pub active: bool,
    /// Unix seconds.
    pub created_at: i64,
}

pub ghost struct AuthView {
    pub id: Seq<char>,
    pub email: Seq<char>,
    pub password: Seq<char>,
    pub active: bool,
    pub created_at: int,
}

impl View for Auth {
    type V = AuthView;

    open spec fn view(&self) -> AuthView {
        AuthView {
            id: self.id@,
            email: self.email@,
            password: self.password@,
            active: self.active,
            created_at: self.created_at as int,
        }
    }
}

pub open spec fn opt_view(o: Option<String>) -> Option<Seq<char>> {
    match o {
        Some(s) => Some(s@),
        None => None,
    }
}

pub(crate) fn copy_opt(o: &Option<String>) -> (r: Option<String>)
    ensures
        opt_view(r) == opt_view(*o),
{
    match o {
        Some(s) => Some(s.clone()),
        None => None,
    }
}

impl Auth {
    /// An active credential created now.
    pub fn new(id: String, email: String, password_hash: String) -> (r: Auth)
        ensures
            r.id@ == id@,
            r.email@ == email@,
            r.password@ == password_hash@,
            r.active,
    {
        Auth { id, email, password: password_hash, active: true, created_at: unix_now() }
    }

    pub fn duplicate(&self) -> (r: Auth)
        ensures
            r@ == self@,
    {
        Auth {
            id: self.id.clone(),
            email: self.email.clone(),
            password: self.password.clone(),
            active: self.active,
            created_at: self.created_at,
        }
    }
}

/// The profile of an account. `settings` and `info` hold JSON text.
#[derive(Debug)]
pub struct User {
    pub id: String,
    pub name: String,
    pub email: String,
    pub role: UserRole,
    pub profile_image_url: String,
    /// Creation time, Unix seconds.
    pub timestamp: i64,
    pub api_key: Option<String>,
    pub settings: Option<String>,
    pub info: Option<String>,
    pub oauth_sub: Option<String>,
    pub last_active_at: Option<i64>,
}

pub ghost struct UserView {
    pub id: Seq<char>,
    pub name: Seq<char>,
    pub email: Seq<char>,
    pub role: UserRole,
    pub profile_image_url: Seq<char>,
    pub timestamp: int,
    pub api_key: Option<Seq<char>>,
    pub settings: Option<Seq<char>>,
    pub info: Option<Seq<char>>,
    pub oauth_sub: Option<Seq<char>>,
    pub last_active_at: Option<i64>,
}

impl View for User {
    type V = UserView;

    open spec fn view(&self) -> UserView {
        UserView {
            id: self.id@,
            name: self.name@,
            email: self.email@,
            role: self.role,
            profile_image_url: self.profile_image_url@,
            timestamp: self.timestamp as int,
            api_key: opt_view(self.api_key),
            settings: opt_view(self.settings),
            info: opt_view(self.info),
            oauth_sub: opt_view(self.oauth_sub),
            last_active_at: self.last_active_at,
        }
    }
}

/// Relies on `uuid::Uuid::new_v4`: a random identifier in hyphenated form.
/// Nothing is promised of its value.
#[verifier::external_body]
pub(crate) fn random_uuid() -> (r: String) {
    uuid::Uuid::new_v4().to_string()
}

pub open spec fn api_key_prefix() -> Seq<char> {
    "sk-"@
}

impl User {
    /// A profile created now under a fresh random id, with no optional data.
    pub fn new(name: String, email: String, role: UserRole, profile_image_url: String) -> (r: User)
        ensures
            r.name@ == name@,
            r.email@ == email@,
            r.role == role,
            r.profile_image_url@ == profile_image_url@,
            r.api_key is None && r.settings is None && r.info is None,
            r.oauth_sub is None && r.last_active_at is None,
    {
        User {
            id: random_uuid(),
            name,
            email,
            role,
            profile_image_url,
            timestamp: unix_now(),
            api_key: None,
            settings: None,
            info: None,
            oauth_sub: None,
            last_active_at: None,
        }
    }

    /// Gives the profile a fresh API key, `sk-` followed by a random id;
    /// nothing else changes.
    pub fn generate_api_key(&mut self)
        ensures
            final(self).api_key matches Some(k) && k@.len() >= 3
                && k@.subrange(0, 3) == api_key_prefix(),
            final(self)@ == (UserView { api_key: final(self)@.api_key, ..old(self)@ }),
    {
        let mut key = String::from_str("sk-");
        key.append(random_uuid().as_str());
        proof {
            reveal_strlit("sk-");
            assert(key@.subrange(0, 3) =~= api_key_prefix());
        }
        self.api_key = Some(key);
    }

    pub fn duplicate(&self) -> (r: User)
        ensures
            r@ == self@,
    {
        User {
            id: self.id.clone(),
            name: self.name.clone(),
            email: self.email.clone(),
            role: self.role,
            profile_image_url: self.profile_image_url.clone(),
            timestamp: self.timestamp,
            api_key: copy_opt(&self.api_key),
            settings: copy_opt(&self.settings),
            info: copy_opt(&self.info),
            oauth_sub: copy_opt(&self.oauth_sub),
            last_active_at: self.last_active_at,
        }
    }
}

/// A credential to be stored.
#[derive(Debug, Clone)]
pub struct NewAuth {
    pub id: String,
    pub email: String,
    pub password: String,
}

/// A user profile to be created. `password` is the plaintext the account is
/// opened with; it is hashed before anything is stored.
#[derive(Debug, Clone)]
pub struct NewUser {
    pub name: String,
    pub email: String,
    pub password: String,
    pub role: UserRole,
    pub profile_image_url: String,
}

/// Body of a signin request.
#[derive(Debug, Clone)]
pub struct LoginRequest {
    pub email: String,
    pub password: String,
}

/// Body of a signup request.
#[derive(Debug, Clone)]
pub struct SignupRequest {
    pub name: String,
    pub email: String,
    pub password: String,
}

/// Answer to a successful signin or signup.
#[derive(Debug, Clone)]
pub struct TokenResponse {
    pub token: String,
    pub token_type: String,
}

/// A chat message to be stored.
#[derive(Debug, Clone)]
pub struct NewMessage {
    pub id: String,
    pub chat_id: String,
    pub user_id: String,
    pub role: String,
    pub content: String,
    pub model: Option<String>,
    pub parent_id: Option<String>,
}

pub open spec fn default_profile_image_url() -> Seq<char> {
    "/user.png"@
}

/// The profile image a new account starts with.
pub fn default_profile_image() -> (r: String)
    ensures
        r@ == default_profile_image_url(),
{
    String::from_str("/user.png")
}

} // verus!
