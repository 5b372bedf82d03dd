use vstd::prelude::*;
use crate::token::ClaimsView;
use crate::error::AppError;
use crate::role::{role_name, UserRole};
use crate::text::{chars_of, has_at, matches_at, same_chars, string_of};
use crate::token::{check_token_at, token_verdict, unix_now, Claims};

verus! {

pub open spec fn bearer_prefix() -> Seq<char> {
    "Bearer "@
}

/// The token that an `Authorization` header value carries under the Bearer
/// scheme, if it uses that scheme.
pub open spec fn bearer_token_of(header: Seq<char>) -> Option<Seq<char>> {
    if has_at(header, 0, bearer_prefix()) {
        Some(header.subrange(bearer_prefix().len() as int, header.len() as int))
    } else {
        None
    }
}

/// The identity that a request with the given `Authorization` header value
/// proves at `now`, if any: the header must be present, use the Bearer
/// scheme, and carry a token that checks under `secret`.
pub open spec fn request_identity(header: Option<Seq<char>>, secret: Seq<char>, now: int) -> Option<ClaimsView> {
    match header {
        None => None,
        Some(h) => match bearer_token_of(h) {
            None => None,
            Some(t) => match token_verdict(secret, t, now) {
                Ok(c) => Some(c),
                Err(_) => None,
            },
        },
    }
}

pub open spec fn header_view(header: Option<&str>) -> Option<Seq<char>> {
    match header {
        Some(h) => Some(h@),
        None => None,
    }
}

/// Takes the token out of an `Authorization` header value of the form
/// `Bearer <token>`.
pub fn bearer_token(header: &str) -> (r: Option<String>)
    ensures
        match r {
            Some(t) => bearer_token_of(header@) == Some(t@),
            None => bearer_token_of(header@) is None,
        },
{
    let h = chars_of(header);
    let prefix = chars_of("Bearer ");
    if !matches_at(&h, 0, &prefix) {
        return None;
    }
    let mut rest: Vec<char> = Vec::new();
    let mut i: usize = prefix.len();
    while i < h.len()
        invariant
            prefix.len() <= i <= h.len(),
            rest@ == h@.subrange(prefix.len() as int, i as int),
        decreases h.len() - i,
    {
        rest.push(h[i]);
        proof {
            assert(rest@ =~= h@.subrange(prefix.len() as int, i + 1));
        }
        i = i + 1;
    }
    Some(string_of(&rest))
}

/// Admission to a protected route at instant `now`: a request without the
/// header, with another scheme, or with a token that does not check is
/// refused as unauthorized; otherwise its claims are handed on.
pub fn authenticate_at(header: Option<&str>, secret: &str, now: i64) -> (r: Result<Claims, AppError>)
    ensures
        match r {
            Ok(c) => request_identity(header_view(header), secret@, now as int) == Some(c@),
            Err(e) => request_identity(header_view(header), secret@, now as int) is None
                && (e is AuthError || e is TokenError),
        },
{
    let h = match header {
        Some(h) => h,
        None => { return Err(AppError::AuthError(String::from_str("Not authenticated"))); },
    };
    let token = match bearer_token(h) {
        Some(t) => t,
        None => { return Err(AppError::AuthError(String::from_str("Not authenticated"))); },
    };
    match check_token_at(token.as_str(), secret, now) {
        Ok(c) => Ok(c),
        Err(f) => Err(f.to_app_error()),
    }
}

/// Admission to a route that also serves anonymous requests, at instant
/// `now`: the claims when the request proves an identity, else nothing; the
/// request goes on either way.
pub fn authenticate_optional_at(header: Option<&str>, secret: &str, now: i64) -> (r: Option<Claims>)
    ensures
        match r {
            Some(c) => request_identity(header_view(header), secret@, now as int) == Some(c@),
            None => request_identity(header_view(header), secret@, now as int) is None,
        },
{
    match authenticate_at(header, secret, now) {
        Ok(c) => Some(c),
        Err(_) => None,
    }
}

/// Admission to a protected route at the current time.
pub fn authenticate(header: Option<&str>, secret: &str) -> (r: Result<Claims, AppError>)
    ensures
        r matches Ok(c) ==> exists|now: int| #[trigger] request_identity(header_view(header), secret@, now) == Some(c@),
        r matches Err(e) ==> e is AuthError || e is TokenError,
{
    let now = unix_now();
    authenticate_at(header, secret, now)
}

/// Admission to a route open to anonymous requests, at the current time.
pub fn authenticate_optional(header: Option<&str>, secret: &str) -> (r: Option<Claims>)
    ensures
        r matches Some(c) ==> exists|now: int| #[trigger] request_identity(header_view(header), secret@, now) == Some(c@),
{
    let now = unix_now();
    authenticate_optional_at(header, secret, now)
}

/// Whether the claims name the admin role.
pub fn is_admin_claims(claims: &Claims) -> (r: bool)
    ensures
        r == (claims.role@ == role_name(UserRole::Admin)),
{
    proof {
        reveal_strlit("admin");
    }
    let admin = chars_of("admin");
    assert(admin@ == role_name(UserRole::Admin));
    same_chars(&chars_of(claims.role.as_str()), &admin)
}

/// Admin-only handlers admit only claims with the admin role.
pub fn require_admin(claims: &Claims) -> (r: Result<(), AppError>)
    ensures
        r is Ok <==> claims.role@ == role_name(UserRole::Admin),
        r matches Err(e) ==> e is Forbidden,
{
    proof {
        reveal_strlit("admin");
    }
    if is_admin_claims(claims) {
        Ok(())
    } else {
        Err(AppError::Forbidden(String::from_str("Admin access required")))
    }
}

/// A user's own profile is open to that user and to admins.
pub fn can_access_user(claims: &Claims, user_id: &str) -> (r: bool)
    ensures
        r == (claims.sub@ == user_id@ || claims.role@ == role_name(UserRole::Admin)),
{
    same_chars(&chars_of(claims.sub.as_str()), &chars_of(user_id)) || is_admin_claims(claims)
}

} // verus!
