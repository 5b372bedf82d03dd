use vstd::prelude::*;
use crate::config::AppConfig;
use crate::error::{message_of, AppError};
use crate::password::{argon2_salt_ok, fresh_salt, hash_password_with_salt, hashes_password, password_len_ok, password_verdict, verify_password};
use crate::records::{random_uuid, default_profile_image, default_profile_image_url, Auth, AuthView, LoginRequest, SignupRequest, TokenResponse, User, UserView};
use crate::role::{role_name, UserRole};
use crate::store::{email_taken, id_taken, AccountStore, AccountView};
use crate::token::{create_token_at, issued_claims, token_for, unix_now, MAX_CLOCK_SECONDS};

verus! {

/// The role a new account gets: the first account is promoted to admin,
/// every later one is an ordinary user.
pub open spec fn promoted_role(user_count: int) -> UserRole {
    if user_count == 0 {
        UserRole::Admin
    } else {
        UserRole::User
    }
}

pub open spec fn invalid_credentials_message() -> Seq<char> {
    "Invalid email or password"@
}

pub open spec fn bearer_type() -> Seq<char> {
    "Bearer"@
}

/// The account a successful signup adds.
pub open spec fn signed_up_account(
    req_name: Seq<char>,
    req_email: Seq<char>,
    id: Seq<char>,
    role: UserRole,
    hash: Seq<char>,
    now: int,
) -> AccountView {
    AccountView {
        auth: AuthView { id, email: req_email, password: hash, active: true, created_at: now },
        user: UserView {
            id,
            name: req_name,
            email: req_email,
            role,
            profile_image_url: default_profile_image_url(),
            timestamp: now,
            api_key: None,
            settings: None,
            info: None,
            oauth_sub: None,
            last_active_at: None,
        },
    }
}

/// Decides whether a signup may go ahead and with which role, from the
/// signup switch, whether the email is already registered, and how many
/// accounts exist.
pub fn signup_role(enabled: bool, email_registered: bool, user_count: usize) -> (r: Result<UserRole, AppError>)
    ensures
        (r matches Err(e) && e is Forbidden) <==> !enabled,
        (r matches Err(e) && e is ValidationError) <==> enabled && email_registered,
        enabled && !email_registered ==> (r matches Ok(role) && role == promoted_role(user_count as int)),
{
    if !enabled {
        return Err(AppError::Forbidden(String::from_str("Signup is disabled")));
    }
    if email_registered {
        return Err(AppError::ValidationError(String::from_str("User with this email already exists")));
    }
    if user_count == 0 {
        Ok(UserRole::Admin)
    } else {
        Ok(UserRole::User)
    }
}

/// The credential and profile of a new account, created at `now`.
pub fn new_account(req: &SignupRequest, id: String, role: UserRole, hash: String, now: i64) -> (r: (Auth, User))
    ensures
        (AccountView { auth: r.0@, user: r.1@ }) == signed_up_account(req.name@, req.email@, id@, role, hash@, now as int),
{
    let auth = Auth { id: id.clone(), email: req.email.clone(), password: hash, active: true, created_at: now };
    let user = User {
        id,
        name: req.name.clone(),
        email: req.email.clone(),
        role,
        profile_image_url: default_profile_image(),
        timestamp: now,
        api_key: None,
        settings: None,
        info: None,
        oauth_sub: None,
        last_active_at: None,
    };
    (auth, user)
}

/// The answer to a successful signup or signin of `user`: a bearer token
/// issued at `now` for its id, email and role.
pub fn issue_response(user: &User, secret: &str, now: i64) -> (r: TokenResponse)
    requires
        -MAX_CLOCK_SECONDS <= now <= MAX_CLOCK_SECONDS,
    ensures
        r.token@ == token_for(secret@, issued_claims(user.id@, user.email@, role_name(user.role), now as int)),
        r.token_type@ == bearer_type(),
{
    let token = create_token_at(user.id.clone(), user.email.clone(), user.role.to_string(), secret, now);
    TokenResponse { token, token_type: String::from_str("Bearer") }
}

/// `issue_response` at the current time.
pub fn issue_response_now(user: &User, secret: &str) -> (r: TokenResponse)
    ensures
        r.token_type@ == bearer_type(),
        exists|now: int| r.token@ == token_for(secret@, #[trigger] issued_claims(user.id@, user.email@,
            role_name(user.role), now)),
{
    let now = unix_now();
    issue_response(user, secret, now)
}

/// The signin decision over the credential stored for the email, if any:
/// the account id when the password opens it, else the generic failure
/// (or a hash failure for a corrupt stored hash).
pub fn signin_identity(credential: &Option<Auth>, password: &str) -> (r: Result<String, AppError>)
    ensures
        match credential {
            None => r matches Err(e) && e is AuthError && message_of(e) == invalid_credentials_message(),
            Some(a) => {
                let verdict = password_verdict(password@, a.password@);
                &&& verdict is None ==> (r matches Err(e) && e is HashError)
                &&& verdict == Some(false) ==> (r matches Err(e) && e is AuthError
                    && message_of(e) == invalid_credentials_message())
                &&& verdict == Some(true) ==> (r matches Ok(id) && id@ == a.id@)
            },
        },
{
    let auth = match credential {
        Some(a) => a,
        None => { return Err(AppError::AuthError(String::from_str("Invalid email or password"))); },
    };
    let valid = verify_password(password, auth.password.as_str())?;
    if !valid {
        return Err(AppError::AuthError(String::from_str("Invalid email or password")));
    }
    Ok(auth.id.clone())
}

/// Signs up a new account, given the fresh account id, the fresh password
/// salt and the current time. On any failure nothing is stored. Checking
/// the count and adding the account happen under one exclusive borrow of
/// the store, so no two signups can both see an empty store.
pub fn signup_with(
    store: &mut AccountStore,
    enabled: bool,
    secret: &str,
    req: &SignupRequest,
    id: String,
    salt: &str,
    now: i64,
) -> (r: Result<TokenResponse, AppError>)
    requires
        old(store).wf(),
        -MAX_CLOCK_SECONDS <= now <= MAX_CLOCK_SECONDS,
    ensures
        final(store).wf(),
        r is Err ==> final(store)@ == old(store)@,
        (r matches Err(e) && e is Forbidden) <==> !enabled,
        (r matches Err(e) && e is ValidationError) <==> enabled && email_taken(old(store)@, req.email@),
        r matches Err(e) && e is HashError ==> !(argon2_salt_ok(salt@) && password_len_ok(req.password@)),
        r matches Err(e) && e is DatabaseError ==> id_taken(old(store)@, id@),
        r matches Err(e) ==> e is Forbidden || e is ValidationError || e is HashError || e is DatabaseError,
        enabled && !email_taken(old(store)@, req.email@) && !id_taken(old(store)@, id@)
            && argon2_salt_ok(salt@) && password_len_ok(req.password@) ==> r is Ok,
        r is Ok ==> enabled && !email_taken(old(store)@, req.email@),
        r matches Ok(resp) ==> exists|hash: Seq<char>|
            hashes_password(req.password@, hash)
            && #[trigger] signed_up_account(req.name@, req.email@, id@, promoted_role(old(store)@.len() as int), hash, now as int)
                == final(store)@.last()
            && final(store)@ == old(store)@.push(signed_up_account(req.name@, req.email@, id@,
                promoted_role(old(store)@.len() as int), hash, now as int)),
        r matches Ok(resp) ==> resp.token@ == token_for(secret@, issued_claims(id@, req.email@,
            role_name(promoted_role(old(store)@.len() as int)), now as int))
            && resp.token_type@ == bearer_type(),
{
    let registered = store.position_of_email(req.email.as_str()).is_some();
    let role = signup_role(enabled, registered, store.count_users())?;
    let hash = hash_password_with_salt(req.password.as_str(), salt)?;
    let ghost hash_v = hash@;
    let (auth, user) = new_account(req, id, role, hash, now);
    let created = user.duplicate();
    store.create_account(auth, user)?;
    proof {
        assert(store@.last() == signed_up_account(req.name@, req.email@, created.id@, role, hash_v, now as int));
    }
    Ok(issue_response(&created, secret, now))
}

/// Signs in: the email must belong to an account whose stored hash the
/// password opens. An unknown email and a wrong password fail alike.
pub fn signin_with(store: &AccountStore, secret: &str, req: &LoginRequest, now: i64) -> (r: Result<TokenResponse, AppError>)
    requires
        store.wf(),
        -MAX_CLOCK_SECONDS <= now <= MAX_CLOCK_SECONDS,
    ensures
        !email_taken(store@, req.email@) ==> (r matches Err(e) && e is AuthError
            && message_of(e) == invalid_credentials_message()),
        forall|i: int| 0 <= i < store@.len() && (#[trigger] store@[i]).auth.email == req.email@ ==> {
            let verdict = password_verdict(req.password@, store@[i].auth.password);
            &&& verdict is None ==> (r matches Err(e) && e is HashError)
            &&& verdict == Some(false) ==> (r matches Err(e) && e is AuthError
                && message_of(e) == invalid_credentials_message())
            &&& verdict == Some(true) ==> (r matches Ok(resp)
                && resp.token@ == token_for(secret@, issued_claims(store@[i].user.id, store@[i].user.email,
                    role_name(store@[i].user.role), now as int))
                && resp.token_type@ == bearer_type())
        },
{
    let credential = store.get_credential_by_email(req.email.as_str());
    let ghost j = choose|j: int| 0 <= j < store@.len() && (#[trigger] store@[j]).auth == credential->0@
        && credential->0@.email == req.email@;
    proof {
        if credential is Some {
            assert forall|i: int| 0 <= i < store@.len() && (#[trigger] store@[i]).auth.email == req.email@
                implies i == j by {
                if i < j {
                    assert(store@[i].auth.email != store@[j].auth.email);
                } else if j < i {
                    assert(store@[j].auth.email != store@[i].auth.email);
                }
            }
        }
    }
    let id = signin_identity(&credential, req.password.as_str())?;
    proof {
        assert(id_taken(store@, id@)) by {
            assert(store@[j].auth.id == id@);
        }
    }
    let user = match store.get_user_by_id(id.as_str()) {
        Some(u) => u,
        None => { return Err(AppError::AuthError(String::from_str("User not found"))); },
    };
    proof {
        let k = choose|k: int| 0 <= k < store@.len() && (#[trigger] store@[k]).user == user@
            && store@[k].auth.id == id@;
        if k < j {
            assert(store@[k].auth.id != store@[j].auth.id);
        } else if j < k {
            assert(store@[j].auth.id != store@[k].auth.id);
        }
        assert(store@[j].user == user@);
    }
    Ok(issue_response(&user, secret, now))
}

/// Signs up a new account under a fresh random id and salt, stamped with
/// the current time. Only a clash of the random id with a stored one can
/// make an allowed signup with an acceptable password fail.
pub fn signup(store: &mut AccountStore, config: &AppConfig, req: &SignupRequest) -> (r: Result<TokenResponse, AppError>)
    requires
        old(store).wf(),
    ensures
        final(store).wf(),
        r is Err ==> final(store)@ == old(store)@,
        (r matches Err(e) && e is Forbidden) <==> !config.enable_signup,
        (r matches Err(e) && e is ValidationError) <==> config.enable_signup && email_taken(old(store)@, req.email@),
        config.enable_signup && !email_taken(old(store)@, req.email@) && password_len_ok(req.password@)
            ==> (r is Ok || (r matches Err(e) && e is DatabaseError)),
        r matches Ok(resp) ==> resp.token_type@ == bearer_type() && exists|id: Seq<char>, hash: Seq<char>, now: int|
            hashes_password(req.password@, hash)
            && final(store)@ == old(store)@.push(#[trigger] signed_up_account(req.name@, req.email@, id,
                promoted_role(old(store)@.len() as int), hash, now))
            && resp.token@ == token_for(config.webui_secret_key@, issued_claims(id, req.email@,
                role_name(promoted_role(old(store)@.len() as int)), now)),
{
    let id = random_uuid();
    let salt = fresh_salt();
    let now = unix_now();
    signup_with(store, config.enable_signup, config.webui_secret_key.as_str(), req, id, salt.as_str(), now)
}

/// Signs in at the current time.
pub fn signin(store: &AccountStore, config: &AppConfig, req: &LoginRequest) -> (r: Result<TokenResponse, AppError>)
    requires
        store.wf(),
    ensures
        !email_taken(store@, req.email@) ==> (r matches Err(e) && e is AuthError
            && message_of(e) == invalid_credentials_message()),
        forall|i: int| 0 <= i < store@.len() && (#[trigger] store@[i]).auth.email == req.email@ ==> {
            let verdict = password_verdict(req.password@, store@[i].auth.password);
            &&& verdict is None ==> (r matches Err(e) && e is HashError)
            &&& verdict == Some(false) ==> (r matches Err(e) && e is AuthError
                && message_of(e) == invalid_credentials_message())
            &&& verdict == Some(true) ==> (r matches Ok(resp) && resp.token_type@ == bearer_type()
                && exists|now: int| resp.token@ == token_for(config.webui_secret_key@,
                    #[trigger] issued_claims(store@[i].user.id, store@[i].user.email, role_name(store@[i].user.role), now)))
        },
{
    let now = unix_now();
    signin_with(store, config.webui_secret_key.as_str(), req, now)
}

/// The first-account promotion happens at most once: of two signups that
/// succeed one after the other, at most one yields an admin.
pub proof fn lemma_at_most_one_promotion(
    s0: Seq<AccountView>,
    s1: Seq<AccountView>,
    s2: Seq<AccountView>,
    first: AccountView,
    second: AccountView,
)
    requires
        s1 == s0.push(first),
        first.user.role == promoted_role(s0.len() as int),
        s2 == s1.push(second),
        second.user.role == promoted_role(s1.len() as int),
    ensures
        !(first.user.role == UserRole::Admin && second.user.role == UserRole::Admin),
        second.user.role == UserRole::User,
{
}

/// A signup is promoted to admin exactly when no account exists yet.
pub proof fn lemma_promotion_only_when_empty(user_count: nat)
    ensures
        (promoted_role(user_count as int) == UserRole::Admin) <==> user_count == 0,
{
}

} // verus!
