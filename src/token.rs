use vstd::prelude::*;
use base64::engine::general_purpose::URL_SAFE_NO_PAD;
use base64::Engine;
use jsonwebtoken::{Algorithm, DecodingKey, EncodingKey, Header};
use serde_json::Value;
use crate::error::{AppError, TokenFailure};
use crate::text::{chars_of, push_all, string_of};

verus! {

/// Days for which an issued token stays valid.
pub const TOKEN_VALIDITY_DAYS: i64 = 7;

pub const SECONDS_PER_DAY: i64 = 86400;

/// Seconds past `exp` during which a token is still accepted, to absorb
/// clock skew between machines.
pub const EXPIRY_LEEWAY_SECONDS: i64 = 60;

/// Bound on the magnitude of any instant the clock reports: chrono's
/// `DateTime<Utc>` spans the years -262143 to 262142.
pub const MAX_CLOCK_SECONDS: i64 = 10_000_000_000_000;

/// Bound on the validity period that `Claims::new` accepts, in days.
pub const MAX_VALIDITY_DAYS: i64 = 100_000_000;

/// The base64url text (unpadded, URL-safe alphabet) of the UTF-8 bytes of `t`.
pub uninterp spec fn b64_text(t: Seq<char>) -> Seq<char>;

/// The text whose UTF-8 bytes `s` encodes in unpadded base64url, if `s` is a
/// canonical encoding of valid UTF-8.
pub uninterp spec fn b64_untext(s: Seq<char>) -> Option<Seq<char>>;

/// The base64url HMAC-SHA256 tag of the UTF-8 bytes of `message` under the
/// UTF-8 bytes of `secret`.
pub uninterp spec fn hs256_sig(secret: Seq<char>, message: Seq<char>) -> Seq<char>;

/// A character of the URL-safe base64 alphabet.
pub open spec fn b64url_char(c: char) -> bool {
    ('A' <= c && c <= 'Z') || ('a' <= c && c <= 'z') || ('0' <= c && c <= '9') || c == '-' || c == '_'
}

/// Relies on base64's `URL_SAFE_NO_PAD` engine: its encoding, and that its
/// decoder, which rejects padding and non-zero trailing bits, reads it back.
#[verifier::external_body]
fn b64_encode_text(t: &Vec<char>) -> (r: Vec<char>)
    ensures
        r@ == b64_text(t@),
        b64_untext(r@) == Some(t@),
        forall|k: int| 0 <= k < r@.len() ==> b64url_char(#[trigger] r@[k]),
{
    let s: String = t.iter().collect();
    URL_SAFE_NO_PAD.encode(s.as_bytes()).chars().collect()
}

/// Relies on base64's `URL_SAFE_NO_PAD` decoder followed by `String::from_utf8`.
#[verifier::external_body]
fn b64_decode_text(s: &Vec<char>) -> (r: Option<Vec<char>>)
    ensures
        match r {
            Some(v) => b64_untext(s@) == Some(v@),
            None => b64_untext(s@) is None,
        },
{
    let s: String = s.iter().collect();
    let bytes = URL_SAFE_NO_PAD.decode(s.as_bytes()).ok()?;
    String::from_utf8(bytes).ok().map(|t| t.chars().collect())
}

/// Relies on `jsonwebtoken::crypto::sign` with HS256, which returns the
/// base64url HMAC-SHA256 tag and cannot fail for that algorithm.
#[verifier::external_body]
fn hs256_sign(secret: &str, message: &Vec<char>) -> (r: Vec<char>)
    ensures
        r@ == hs256_sig(secret@, message@),
        forall|k: int| 0 <= k < r@.len() ==> b64url_char(#[trigger] r@[k]),
{
    let m: String = message.iter().collect();
    let key = EncodingKey::from_secret(secret.as_bytes());
    match jsonwebtoken::crypto::sign(m.as_bytes(), &key, Algorithm::HS256) {
        Ok(sig) => sig.chars().collect(),
        Err(_) => Vec::new(),
    }
}

/// Relies on `jsonwebtoken::crypto::verify` with HS256, which re-signs the
/// message and compares the tags in constant time.
#[verifier::external_body]
fn hs256_verify(secret: &str, message: &Vec<char>, signature: &Vec<char>) -> (r: bool)
    ensures
        r == (signature@ == hs256_sig(secret@, message@)),
{
    let m: String = message.iter().collect();
    let sig: String = signature.iter().collect();
    let key = DecodingKey::from_secret(secret.as_bytes());
    jsonwebtoken::crypto::verify(&sig, m.as_bytes(), &key, Algorithm::HS256).unwrap_or(false)
}

/// Relies on `chrono::Utc::now().timestamp()`: the current Unix time in
/// seconds, within the range of instants that chrono represents.
#[verifier::external_body]
pub(crate) fn unix_now() -> (r: i64)
    ensures
        -MAX_CLOCK_SECONDS <= r <= MAX_CLOCK_SECONDS,
{
    chrono::Utc::now().timestamp()
}

/// The mathematical content of a token's claims.
pub ghost struct ClaimsView {
    pub sub: Seq<char>,
    pub email: Seq<char>,
    pub role: Seq<char>,
    pub exp: int,
    pub iat: int,
}

/// The JSON text serde_json writes for the object with the string fields
/// `sub`, `email`, `role` and the integer fields `exp`, `iat`.
pub uninterp spec fn claims_json(sub: Seq<char>, email: Seq<char>, role: Seq<char>, exp: int, iat: int) -> Seq<char>;

/// The claims serde_json reads from a JSON text: an object whose `sub`,
/// `email` and `role` are strings and whose `exp` and `iat` are integers
/// within `i64`; nothing for any other text.
pub uninterp spec fn claims_of_json(text: Seq<char>) -> Option<ClaimsView>;

/// Whether serde_json reads `text` as a JWT header whose algorithm is HS256.
pub uninterp spec fn hs256_header(text: Seq<char>) -> bool;

/// The JSON text of the header every token carries.
pub open spec fn header_json() -> Seq<char> {
    "{\"typ\":\"JWT\",\"alg\":\"HS256\"}"@
}

/// Relies on serde_json writing a `Map` of the five claims; reading that
/// text back gives the same strings and integers.
#[verifier::external_body]
fn write_claims_json(sub: &str, email: &str, role: &str, exp: i64, iat: i64) -> (r: Vec<char>)
    ensures
        r@ == claims_json(sub@, email@, role@, exp as int, iat as int),
        claims_of_json(r@) == Some(ClaimsView { sub: sub@, email: email@, role: role@, exp: exp as int, iat: iat as int }),
{
    let mut m = serde_json::Map::new();
    m.insert("sub".to_string(), Value::from(sub));
    m.insert("email".to_string(), Value::from(email));
    m.insert("role".to_string(), Value::from(role));
    m.insert("exp".to_string(), Value::from(exp));
    m.insert("iat".to_string(), Value::from(iat));
    Value::Object(m).to_string().chars().collect()
}

/// Relies on `serde_json::from_str` into a `Value`, then the fields'
/// `as_str` and `as_i64`.
#[verifier::external_body]
fn read_claims_json(text: &Vec<char>) -> (r: Option<(String, String, String, i64, i64)>)
    ensures
        match r {
            Some((sub, email, role, exp, iat)) => claims_of_json(text@) == Some(ClaimsView {
                sub: sub@, email: email@, role: role@, exp: exp as int, iat: iat as int,
            }),
            None => claims_of_json(text@) is None,
        },
{
    let s: String = text.iter().collect();
    let v: Value = serde_json::from_str(&s).ok()?;
    let sub = v.get("sub")?.as_str()?.to_string();
    let email = v.get("email")?.as_str()?.to_string();
    let role = v.get("role")?.as_str()?.to_string();
    Some((sub, email, role, v.get("exp")?.as_i64()?, v.get("iat")?.as_i64()?))
}

/// Relies on serde_json writing `jsonwebtoken::Header::default()`: type
/// `JWT`, algorithm HS256, the other fields left out.
#[verifier::external_body]
fn default_header_json() -> (r: Vec<char>)
    ensures
        r@ == header_json(),
        hs256_header(r@),
{
    serde_json::to_string(&Header::default()).unwrap_or_default().chars().collect()
}

/// Relies on `serde_json::from_str` into a `jsonwebtoken::Header` and its `alg` field.
#[verifier::external_body]
fn header_is_hs256(text: &Vec<char>) -> (r: bool)
    ensures
        r == hs256_header(text@),
{
    let s: String = text.iter().collect();
    match serde_json::from_str::<Header>(&s) {
        Ok(h) => h.alg == Algorithm::HS256,
        Err(_) => false,
    }
}

/// The identity a token asserts: subject id, email, role name, and its
/// issue and expiry instants in Unix seconds.
#[derive(Debug, Clone)]
pub struct Claims {
    pub sub: String,
    pub email: String,
    pub role: String,
    pub exp: i64,
    pub iat: i64,
}

impl View for Claims {
    type V = ClaimsView;

    open spec fn view(&self) -> ClaimsView {
        ClaimsView {
            sub: self.sub@,
            email: self.email@,
            role: self.role@,
            exp: self.exp as int,
            iat: self.iat as int,
        }
    }
}

impl Claims {
    /// Claims issued at `now` that expire `expires_in_days` days later.
    pub fn issued_at(user_id: String, email: String, role: String, now: i64, expires_in_days: i64) -> (r: Claims)
        requires
            -MAX_CLOCK_SECONDS <= now <= MAX_CLOCK_SECONDS,
            -MAX_VALIDITY_DAYS <= expires_in_days <= MAX_VALIDITY_DAYS,
        ensures
            r@ == (ClaimsView {
                sub: user_id@,
                email: email@,
                role: role@,
                exp: now + expires_in_days * SECONDS_PER_DAY,
                iat: now as int,
            }),
    {
        Claims { sub: user_id, email, role, exp: now + expires_in_days * SECONDS_PER_DAY, iat: now }
    }

    /// Claims issued now that expire `expires_in_days` days from now.
    pub fn new(user_id: String, email: String, role: String, expires_in_days: i64) -> (r: Claims)
        requires
            -MAX_VALIDITY_DAYS <= expires_in_days <= MAX_VALIDITY_DAYS,
        ensures
            r.sub@ == user_id@,
            r.email@ == email@,
            r.role@ == role@,
            r.exp == r.iat + expires_in_days * SECONDS_PER_DAY,
    {
        let now = unix_now();
        Claims::issued_at(user_id, email, role, now, expires_in_days)
    }
}

/// The base64url text of the header.
pub open spec fn header_part() -> Seq<char> {
    b64_text(header_json())
}

/// The JSON payload of a token.
pub open spec fn payload_json(c: ClaimsView) -> Seq<char> {
    claims_json(c.sub, c.email, c.role, c.exp, c.iat)
}

/// What the signature of a token covers: header and payload parts joined by a dot.
pub open spec fn signing_input(c: ClaimsView) -> Seq<char> {
    header_part() + seq!['.'] + b64_text(payload_json(c))
}

/// The compact token that carries the claims `c` signed under `secret`.
pub open spec fn token_for(secret: Seq<char>, c: ClaimsView) -> Seq<char> {
    signing_input(c) + seq!['.'] + hs256_sig(secret, signing_input(c))
}

/// The position of the first dot at or after `i`, or the length when there is none.
pub open spec fn dot_from(t: Seq<char>, i: int) -> int
    decreases t.len() - i,
{
    if i < 0 || i >= t.len() {
        t.len() as int
    } else if t[i] == '.' {
        i
    } else {
        dot_from(t, i + 1)
    }
}

/// Whether a token is expired at `now`: more than the leeway past `exp`.
pub open spec fn expired_at(c: ClaimsView, now: int) -> bool {
    c.exp + EXPIRY_LEEWAY_SECONDS < now
}

/// The outcome of checking the token `t` under `secret` at instant `now`.
/// It must have exactly three dot-separated parts, the first decoding to a
/// header for HS256; then the third must be the signature of the first two;
/// then the second must decode to the claims; last comes the expiry.
pub open spec fn token_verdict(secret: Seq<char>, t: Seq<char>, now: int) -> Result<ClaimsView, TokenFailure> {
    let d1 = dot_from(t, 0);
    let d2 = dot_from(t, d1 + 1);
    let d3 = dot_from(t, d2 + 1);
    if d1 >= t.len() || d2 >= t.len() || d3 < t.len() {
        Err(TokenFailure::Malformed)
    } else if !(b64_untext(t.subrange(0, d1)) matches Some(h) && hs256_header(h)) {
        Err(TokenFailure::Malformed)
    } else if t.subrange(d2 + 1, t.len() as int) != hs256_sig(secret, t.subrange(0, d2)) {
        Err(TokenFailure::BadSignature)
    } else {
        match b64_untext(t.subrange(d1 + 1, d2)) {
            None => Err(TokenFailure::Malformed),
            Some(text) => match claims_of_json(text) {
                None => Err(TokenFailure::Malformed),
                Some(c) => if expired_at(c, now) {
                    Err(TokenFailure::Expired)
                } else {
                    Ok(c)
                },
            },
        }
    }
}

fn find_dot(t: &Vec<char>, start: usize) -> (r: usize)
    requires
        start <= t.len(),
    ensures
        r as int == dot_from(t@, start as int),
        start <= r <= t.len(),
{
    let mut i: usize = start;
    while i < t.len() && t[i] != '.'
        invariant
            start <= i <= t.len(),
            dot_from(t@, i as int) == dot_from(t@, start as int),
        decreases t.len() - i,
    {
        i = i + 1;
    }
    i
}

fn slice_of(t: &Vec<char>, from: usize, to: usize) -> (r: Vec<char>)
    requires
        from <= to <= t.len(),
    ensures
        r@ == t@.subrange(from as int, to as int),
{
    let mut out: Vec<char> = Vec::new();
    let mut i: usize = from;
    while i < to
        invariant
            from <= i <= to <= t.len(),
            out@ == t@.subrange(from as int, i as int),
        decreases to - i,
    {
        out.push(t[i]);
        proof {
            assert(out@ =~= t@.subrange(from as int, i + 1));
        }
        i = i + 1;
    }
    out
}

proof fn lemma_dot_at(t: Seq<char>, i: int, j: int)
    requires
        0 <= i <= j <= t.len(),
        forall|k: int| i <= k < j ==> #[trigger] t[k] != '.',
        j == t.len() || t[j] == '.',
    ensures
        dot_from(t, i) == j,
    decreases j - i,
{
    if i < j {
        lemma_dot_at(t, i + 1, j);
    }
}

fn header_text() -> (r: Vec<char>)
    ensures
        r@ == header_part(),
        b64_untext(r@) matches Some(h) && hs256_header(h),
        forall|k: int| 0 <= k < r@.len() ==> b64url_char(#[trigger] r@[k]),
{
    b64_encode_text(&default_header_json())
}

/// Serializes and signs the claims into a compact token. Checking the token
/// under the same secret gives back exactly these claims until the token
/// expires, and fails only for expiry after that.
pub fn encode_claims(claims: &Claims, secret: &str) -> (r: String)
    ensures
        r@ == token_for(secret@, claims@),
        forall|now: int| !expired_at(claims@, now)
            ==> #[trigger] token_verdict(secret@, r@, now) == Ok::<ClaimsView, TokenFailure>(claims@),
        forall|now: int| expired_at(claims@, now)
            ==> #[trigger] token_verdict(secret@, r@, now) == Err::<ClaimsView, TokenFailure>(TokenFailure::Expired),
{
    let payload = write_claims_json(claims.sub.as_str(), claims.email.as_str(), claims.role.as_str(), claims.exp, claims.iat);
    assert(payload@ == payload_json(claims@));
    let head = header_text();
    let body = b64_encode_text(&payload);
    let mut out = head.clone();
    out.push('.');
    push_all(&mut out, &body);
    assert(out@ =~= signing_input(claims@));
    let sig = hs256_sign(secret, &out);
    let ghost input = out@;
    out.push('.');
    push_all(&mut out, &sig);
    assert(out@ =~= token_for(secret@, claims@));
    proof {
        let t = out@;
        let hl = head@.len() as int;
        let bl = body@.len() as int;
        assert(t =~= head@ + seq!['.'] + body@ + seq!['.'] + sig@);
        assert forall|k: int| 0 <= k < hl implies #[trigger] t[k] != '.' by {
            assert(t[k] == head@[k]);
        }
        assert forall|k: int| hl + 1 <= k < hl + 1 + bl implies #[trigger] t[k] != '.' by {
            assert(t[k] == body@[k - hl - 1]);
        }
        assert forall|k: int| hl + 2 + bl <= k < t.len() implies #[trigger] t[k] != '.' by {
            assert(t[k] == sig@[k - hl - 2 - bl]);
        }
        lemma_dot_at(t, 0, hl);
        lemma_dot_at(t, hl + 1, hl + 1 + bl);
        lemma_dot_at(t, hl + 2 + bl, t.len() as int);
        assert(t.subrange(0, hl) =~= head@);
        assert(t.subrange(hl + 1, hl + 1 + bl) =~= body@);
        assert(t.subrange(0, hl + 1 + bl) =~= input);
        assert(t.subrange(hl + 2 + bl, t.len() as int) =~= sig@);
    }
    string_of(&out)
}

/// The claims of a token issued at `now` for the given identity.
pub open spec fn issued_claims(sub: Seq<char>, email: Seq<char>, role: Seq<char>, now: int) -> ClaimsView {
    ClaimsView { sub, email, role, exp: now + TOKEN_VALIDITY_DAYS * SECONDS_PER_DAY, iat: now }
}

/// Issues a token for the identity at instant `now`, valid for the fixed period.
pub fn create_token_at(user_id: String, email: String, role: String, secret: &str, now: i64) -> (r: String)
    requires
        -MAX_CLOCK_SECONDS <= now <= MAX_CLOCK_SECONDS,
    ensures
        r@ == token_for(secret@, issued_claims(user_id@, email@, role@, now as int)),
        forall|later: int| !expired_at(issued_claims(user_id@, email@, role@, now as int), later)
            ==> #[trigger] token_verdict(secret@, r@, later)
                == Ok::<ClaimsView, TokenFailure>(issued_claims(user_id@, email@, role@, now as int)),
        forall|later: int| expired_at(issued_claims(user_id@, email@, role@, now as int), later)
            ==> #[trigger] token_verdict(secret@, r@, later) == Err::<ClaimsView, TokenFailure>(TokenFailure::Expired),
{
    let claims = Claims::issued_at(user_id, email, role, now, TOKEN_VALIDITY_DAYS);
    encode_claims(&claims, secret)
}

/// Issues a token for the identity, issued now and valid for the fixed period.
pub fn create_token(user_id: String, email: String, role: String, secret: &str) -> (r: Result<String, AppError>)
    ensures
        r is Ok,
        r matches Ok(t) ==> exists|now: int| t@ == token_for(secret@, #[trigger] issued_claims(user_id@, email@, role@, now)),
{
    let now = unix_now();
    Ok(create_token_at(user_id, email, role, secret, now))
}

/// Checks a token under `secret` at instant `now`.
pub fn check_token_at(token: &str, secret: &str, now: i64) -> (r: Result<Claims, TokenFailure>)
    ensures
        match r {
            Ok(c) => token_verdict(secret@, token@, now as int) == Ok::<ClaimsView, TokenFailure>(c@),
            Err(f) => token_verdict(secret@, token@, now as int) == Err::<ClaimsView, TokenFailure>(f),
        },
{
    let t = chars_of(token);
    let d1 = find_dot(&t, 0);
    if d1 >= t.len() {
        return Err(TokenFailure::Malformed);
    }
    let d2 = find_dot(&t, d1 + 1);
    if d2 >= t.len() {
        return Err(TokenFailure::Malformed);
    }
    let d3 = find_dot(&t, d2 + 1);
    if d3 < t.len() {
        return Err(TokenFailure::Malformed);
    }
    match b64_decode_text(&slice_of(&t, 0, d1)) {
        Some(h) => {
            if !header_is_hs256(&h) {
                return Err(TokenFailure::Malformed);
            }
        },
        None => { return Err(TokenFailure::Malformed); },
    }
    if !hs256_verify(secret, &slice_of(&t, 0, d2), &slice_of(&t, d2 + 1, t.len())) {
        return Err(TokenFailure::BadSignature);
    }
    let text = match b64_decode_text(&slice_of(&t, d1 + 1, d2)) {
        Some(text) => text,
        None => { return Err(TokenFailure::Malformed); },
    };
    let (sub, email, role, exp, iat) = match read_claims_json(&text) {
        Some(fields) => fields,
        None => { return Err(TokenFailure::Malformed); },
    };
    if (exp as i128) + (EXPIRY_LEEWAY_SECONDS as i128) < (now as i128) {
        return Err(TokenFailure::Expired);
    }
    Ok(Claims { sub, email, role, exp, iat })
}

/// Checks a token under `secret` now. Every failure reads the same to the caller.
pub fn verify_token(token: &str, secret: &str) -> (r: Result<Claims, AppError>)
    ensures
        r matches Ok(c) ==> exists|now: int| #[trigger] token_verdict(secret@, token@, now) == Ok::<ClaimsView, TokenFailure>(c@),
        r matches Err(e) ==> e is TokenError && (exists|now: int| #[trigger] token_verdict(secret@, token@, now) is Err),
{
    let now = unix_now();
    match check_token_at(token, secret, now) {
        Ok(c) => Ok(c),
        Err(f) => Err(f.to_app_error()),
    }
}

} // verus!
