//! What the authentication service answers: password checks, token
//! issuing, and the decisions of its register, login, validate, get-user and
//! logout calls. The database lookups and writes around these decisions are
//! made by the caller, which hands their results in.

use vstd::prelude::*;
use crate::auth::models::{user_matches_record, Claims, NewUserRecord, UserRecord};
use crate::clock::{utc_now, UtcTime};
use crate::roles::{law_role_number_round_trip, role_from_proto, spec_role_from_proto, spec_role_to_proto};
use crate::rpc::{Ack, AuthResponse, GrpcCode, RegisterRequest, RpcStatus, User, ValidateTokenResponse};
use crate::text::{decimal_padded, trim_matches, trim_matching};

verus! {

#[verifier::external_type_specification]
#[verifier::external_body]
pub struct ExBcryptError(bcrypt::BcryptError);

#[verifier::external_type_specification]
#[verifier::external_body]
pub struct ExJwtError(jsonwebtoken::errors::Error);

/// The work factor that passwords are hashed with (`bcrypt::DEFAULT_COST`).
pub const PASSWORD_COST: u32 = 12;

/// What `bcrypt::verify(password, hash)` gives: `Some(true)` when the
/// password matches the hash, `Some(false)` when it does not, `None` when
/// the hash cannot be read.
pub uninterp spec fn bcrypt_verify_outcome(password: Seq<char>, hash: Seq<char>) -> Option<bool>;

/// The first seven characters of a hash that `bcrypt::hash` writes with the
/// work factor `cost`: `$2b$`, the cost as two decimal digits, `$`.
pub open spec fn bcrypt_hash_prefix(cost: u32) -> Seq<char> {
    seq!['$', '2', 'b', '$'] + decimal_padded(cost as nat, 2) + seq!['$']
}

/// A text in the form of a bcrypt hash made with the work factor `cost`:
/// sixty characters that begin with `bcrypt_hash_prefix(cost)`.
pub open spec fn is_bcrypt_hash_with_cost(h: Seq<char>, cost: u32) -> bool {
    &&& h.len() == 60
    &&& h.subrange(0, 7) == bcrypt_hash_prefix(cost)
}

/// `bcrypt::hash(password, cost)`. Trusted: a cost outside 4 to 31 is
/// refused (`CostNotAllowed`); a hash it returns is written in version 2b
/// with that cost (`$2b$`, two digits, `$`, then 53 characters of salt and
/// digest, sixty in all), and `bcrypt::verify` accepts the same password
/// against it. The salt is random, so which hash comes out is not stated;
/// with an allowed cost the call fails only when the system gives no
/// randomness, which is not stated either.
#[verifier::external_body]
fn bcrypt_hash(password: &str, cost: u32) -> (res: Result<String, bcrypt::BcryptError>)
    ensures
        !(4 <= cost <= 31) ==> res is Err,
        res matches Ok(h) ==> is_bcrypt_hash_with_cost(h@, cost) && bcrypt_verify_outcome(
            password@,
            h@,
        ) == Some(true),
{
    bcrypt::hash(password, cost)
}

/// The form of a stored password hash: sixty characters beginning with
/// `$2b$12$`, a bcrypt hash made with `PASSWORD_COST`.
pub open spec fn is_password_hash(h: Seq<char>) -> bool {
    &&& h.len() == 60
    &&& h.subrange(0, 7) == seq!['$', '2', 'b', '$', '1', '2', '$']
}

/// A bcrypt hash made with `PASSWORD_COST` has the form of a stored
/// password hash.
pub proof fn lemma_password_cost_hash(h: Seq<char>)
    requires
        is_bcrypt_hash_with_cost(h, PASSWORD_COST),
    ensures
        is_password_hash(h),
{
    reveal_with_fuel(decimal_padded, 3);
    assert(decimal_padded(12, 2) =~= seq!['1', '2']);
    assert(bcrypt_hash_prefix(PASSWORD_COST) =~= seq!['$', '2', 'b', '$', '1', '2', '$']);
}

/// `bcrypt::verify(password, hash)`. Trusted: its result is the named
/// outcome for these two texts.
#[verifier::external_body]
fn bcrypt_verify(password: &str, hash: &str) -> (res: Result<bool, bcrypt::BcryptError>)
    ensures
        match res {
            Ok(b) => bcrypt_verify_outcome(password@, hash@) == Some(b),
            Err(_) => bcrypt_verify_outcome(password@, hash@) is None,
        },
{
    bcrypt::verify(password, hash)
}

/// The text of a bcrypt failure (`to_string`). Nothing is stated of it.
#[verifier::external_body]
fn bcrypt_error_text(e: &bcrypt::BcryptError) -> String {
    e.to_string()
}

/// The token that `jsonwebtoken::encode` writes for these claims with an
/// HS256 header and this secret.
pub uninterp spec fn jwt_hs256_token(sub: Seq<char>, exp: usize, role: Seq<char>, secret: Seq<char>) -> Seq<char>;

/// Whether `jsonwebtoken::decode` with `DecodingKey::from_secret(secret)`
/// and `Validation::new(Algorithm::HS256)` passes its signature check on
/// `token`: its header (the part before the last two dots) names HS256, and
/// its last part is the HMAC-SHA256, under the secret, of all that comes
/// before the last dot.
pub uninterp spec fn jwt_hs256_signature_valid(token: Seq<char>, secret: Seq<char>) -> bool;

/// `jsonwebtoken::encode(&Header::new(Algorithm::HS256), claims,
/// &EncodingKey::from_secret(secret))` with the claims `sub`, `exp` and
/// `role`, written in that order. Trusted: it succeeds (an HMAC key fits the
/// HS256 header, and claims made of texts and a number always serialise),
/// gives the named token, and that token passes the signature check under
/// the same secret (the header names HS256 and the signature is the HMAC of
/// the first two parts).
#[verifier::external_body]
fn jwt_encode_hs256(sub: &str, exp: usize, role: &str, secret: &str) -> (res: Result<String, jsonwebtoken::errors::Error>)
    ensures
        res is Ok,
        res is Ok ==> res->Ok_0@ == jwt_hs256_token(sub@, exp, role@, secret@)
            && jwt_hs256_signature_valid(res->Ok_0@, secret@),
{
    let claims = serde_json::Map::from_iter([
        ("sub".to_string(), serde_json::Value::from(sub)),
        ("exp".to_string(), serde_json::Value::from(exp)),
        ("role".to_string(), serde_json::Value::from(role)),
    ]);
    let header = jsonwebtoken::Header::new(jsonwebtoken::Algorithm::HS256);
    jsonwebtoken::encode(&header, &claims, &jsonwebtoken::EncodingKey::from_secret(secret.as_bytes()))
}

/// What decoding a token may give at any instant: nothing, or, when the
/// token is one that `jwt_hs256_token` wrote with this secret, exactly the
/// claims it was written with.
pub open spec fn decodes_as_written(token: Seq<char>, secret: Seq<char>, res: Option<Claims>) -> bool {
    forall|sub: Seq<char>, exp: usize, role: Seq<char>|
        token == #[trigger] jwt_hs256_token(sub, exp, role, secret) ==> (res is None || (
        res matches Some(c) && c.sub@ == sub && c.exp == exp && c.role@ == role))
}

/// `jsonwebtoken::decode` with `DecodingKey::from_secret(secret)` and
/// `Validation::new(Algorithm::HS256)` with its expiry check switched off
/// (`validate_exp = false`), reading the claims `sub`, `exp` and `role`.
/// Whether the token has expired is left to the caller, which compares
/// `exp` with the clock as that check does. Trusted: a token it accepts
/// passes the signature check under the secret; a token written by
/// `jwt_encode_hs256` with the same secret is accepted and gives back the
/// claims it was written with (the signature is an HMAC over the same text,
/// the header names HS256, and the payload holds exactly those three claims,
/// `exp` among them as the required claim). Not stated: that a token is
/// refused under another secret (HMAC pads a short key with zero bytes, so
/// two secrets can sign alike), nor what is read from other tokens. The
/// payload is read as a JSON map, which keeps the last of repeated claim
/// names where a struct read would refuse them; only a holder of the secret
/// can sign such a payload.
#[verifier::external_body]
fn jwt_decode_hs256(token: &str, secret: &str) -> (res: Option<Claims>)
    ensures
        res is Some ==> jwt_hs256_signature_valid(token@, secret@),
        forall|sub: Seq<char>, exp: usize, role: Seq<char>|
            token@ == #[trigger] jwt_hs256_token(sub, exp, role, secret@) ==> (res is Some
                && res->Some_0.sub@ == sub && res->Some_0.exp == exp && res->Some_0.role@ == role),
{
    let key = jsonwebtoken::DecodingKey::from_secret(secret.as_bytes());
    let mut validation = jsonwebtoken::Validation::new(jsonwebtoken::Algorithm::HS256);
    validation.validate_exp = false;
    let data = jsonwebtoken::decode::<serde_json::Map<String, serde_json::Value>>(token, &key, &validation).ok()?;
    let c = data.claims;
    Some(Claims {
        sub: c.get("sub")?.as_str()?.to_string(),
        exp: usize::try_from(c.get("exp")?.as_u64()?).ok()?,
        role: c.get("role")?.as_str()?.to_string(),
    })
}

/// A token that expires at `exp` has expired at `now`: `exp` lies more
/// than 60 seconds (the leeway of `Validation::new`) before `now`.
pub open spec fn token_expired(exp: usize, now: UtcTime) -> bool {
    (exp as int) < now.secs - 60
}

/// What decoding a token at the instant `now` may give: only a token signed
/// under the secret and not expired is accepted; a token written with the
/// secret is accepted exactly while it has not expired, with the claims it
/// was written with.
pub open spec fn decode_outcome(token: Seq<char>, secret: Seq<char>, now: UtcTime, res: Option<Claims>) -> bool {
    &&& res matches Some(c) ==> jwt_hs256_signature_valid(token, secret) && !token_expired(
        c.exp,
        now,
    )
    &&& forall|sub: Seq<char>, exp: usize, role: Seq<char>|
        token == #[trigger] jwt_hs256_token(sub, exp, role, secret) ==> if token_expired(exp, now) {
            res is None
        } else {
            res matches Some(c) && c.sub@ == sub && c.exp == exp && c.role@ == role
        }
}

/// Decodes and checks a token at the instant `now`: its signature under the
/// secret and its expiry. `None` when the token is not accepted.
pub fn decode_token_at(token: &str, jwt_secret: &str, now: UtcTime) -> (res: Option<Claims>)
    ensures
        decode_outcome(token@, jwt_secret@, now, res),
{
    match jwt_decode_hs256(token, jwt_secret) {
        None => None,
        Some(c) => {
            let expired = (c.exp as i128) < (now.secs as i128) - 60;
            if expired {
                None
            } else {
                Some(c)
            }
        },
    }
}

/// Decodes and checks a token now: its signature under the secret and its
/// expiry. `None` when the token is not accepted; a token without a valid
/// signature under the secret is never accepted.
pub fn decode_token(token: &str, jwt_secret: &str) -> (res: Option<Claims>)
    ensures
        res is Some ==> jwt_hs256_signature_valid(token@, jwt_secret@),
        decodes_as_written(token@, jwt_secret@, res),
        exists|now: UtcTime| now.valid() && #[trigger] decode_outcome(token@, jwt_secret@, now, res),
{
    let now = utc_now();
    let res = decode_token_at(token, jwt_secret, now);
    assert(now.valid() && decode_outcome(token@, jwt_secret@, now, res));
    res
}

/// How long a token lives: twelve hours.
pub open spec fn token_lifetime_secs() -> int {
    43_200
}

/// The claims of a token issued at `now` for the record key `key` and the
/// role `role`: the key without surrounding backticks, the expiry twelve
/// hours after `now` (as `usize`), the role.
pub open spec fn claims_match(c: Claims, key: Seq<char>, role: Seq<char>, now: UtcTime) -> bool {
    &&& c.sub@ == trim_matching(key, '`')
    &&& c.exp == (now.secs + token_lifetime_secs()) as usize
    &&& c.role@ == role
}

/// The claims of a token issued at `now`.
pub fn token_claims(key: &str, role: &str, now: UtcTime) -> (c: Claims)
    requires
        now.valid(),
    ensures
        claims_match(c, key@, role@, now),
{
    let exp_secs: i64 = now.secs + 43_200;
    Claims { sub: trim_matches(key, '`'), exp: exp_secs as usize, role: String::from_str(role) }
}

/// Signs the claims with the secret.
pub fn encode_token(claims: &Claims, jwt_secret: &str) -> (res: Result<String, jsonwebtoken::errors::Error>)
    ensures
        res matches Ok(t) && t@ == jwt_hs256_token(
            claims.sub@,
            claims.exp,
            claims.role@,
            jwt_secret@,
        ),
{
    jwt_encode_hs256(claims.sub.as_str(), claims.exp, claims.role.as_str(), jwt_secret)
}

/// Issues a token for a user, given the key of its record id and its role:
/// the token signs claims made at the current time.
pub fn create_token(key: &str, role: &str, jwt_secret: &str) -> (res: Result<String, jsonwebtoken::errors::Error>)
    ensures
        res matches Ok(t) && exists|c: Claims, now: UtcTime|
            {
                &&& now.valid()
                &&& claims_match(c, key@, role@, now)
                &&& t@ == jwt_hs256_token(c.sub@, c.exp, c.role@, jwt_secret@)
            },
{
    let now = utc_now();
    let claims = token_claims(key, role, now);
    encode_token(&claims, jwt_secret)
}

/// An issued token for `user`: the token of claims made for its record key
/// and role at some valid instant.
pub open spec fn token_issued_for(token: Seq<char>, user: UserRecord, secret: Seq<char>) -> bool {
    exists|c: Claims, now: UtcTime|
        {
            &&& now.valid()
            &&& claims_match(c, user.key@, user.role@, now)
            &&& token == jwt_hs256_token(c.sub@, c.exp, c.role@, secret)
        }
}

/// The answer to a successful register or login: a token issued for the
/// user, and the user.
pub open spec fn auth_response_for(r: AuthResponse, user: UserRecord, secret: Seq<char>) -> bool {
    &&& token_issued_for(r.access_token@, user, secret)
    &&& r.user matches Some(u) && user_matches_record(u, user)
}

/// The token issued for `user` at the instant `now`: the claims of its
/// record key (without backticks), the expiry twelve hours after `now` and
/// its role, signed with the secret.
pub open spec fn token_issued_at(token: Seq<char>, user: UserRecord, secret: Seq<char>, now: UtcTime) -> bool {
    token == jwt_hs256_token(
        trim_matching(user.key@, '`'),
        (now.secs + token_lifetime_secs()) as usize,
        user.role@,
        secret,
    )
}

/// Issues a token for `user` at the instant `now` and answers with it and
/// the user.
pub fn auth_response_at(user: UserRecord, jwt_secret: &str, now: UtcTime) -> (r: AuthResponse)
    requires
        now.valid(),
    ensures
        token_issued_at(r.access_token@, user, jwt_secret@, now),
        r.user matches Some(u) && user_matches_record(u, user),
        auth_response_for(r, user, jwt_secret@),
{
    let claims = token_claims(user.key.as_str(), user.role.as_str(), now);
    let token = match encode_token(&claims, jwt_secret) {
        Ok(t) => t,
        Err(_) => {
            // `encode_token` always succeeds.
            assert(false);
            String::new()
        },
    };
    let u = user.into_user();
    AuthResponse { access_token: token, user: Some(u) }
}

/// Issues a token for `user` at the current instant and answers with it
/// and the user.
pub fn auth_response(user: UserRecord, jwt_secret: &str) -> (r: AuthResponse)
    ensures
        auth_response_for(r, user, jwt_secret@),
        exists|now: UtcTime|
            now.valid() && #[trigger] token_issued_at(r.access_token@, user, jwt_secret@, now),
{
    let now = utc_now();
    let r = auth_response_at(user, jwt_secret, now);
    assert(now.valid() && token_issued_at(r.access_token@, user, jwt_secret@, now));
    r
}

/// The new record a registration stores: the request's names and e-mail,
/// a bcrypt hash made with `PASSWORD_COST` that the request's password
/// verifies against, the role name of the request's role number.
pub open spec fn registration_record(rec: NewUserRecord, req: RegisterRequest) -> bool {
    &&& rec.firstname@ == req.firstname@
    &&& rec.lastname@ == req.lastname@
    &&& rec.email@ == req.email@
    &&& bcrypt_verify_outcome(req.password@, rec.password_hash@) == Some(true)
    &&& is_password_hash(rec.password_hash@)
    &&& spec_role_from_proto(req.role) == Ok::<Seq<char>, GrpcCode>(rec.role@)
}

/// Law: the hash a registration stores is not the password itself, for
/// every password that is not sixty characters beginning with `$2b$12$`.
pub proof fn law_registered_hash_differs(req: RegisterRequest, rec: NewUserRecord)
    requires
        registration_record(rec, req),
        !is_password_hash(req.password@),
    ensures
        rec.password_hash@ != req.password@,
{
}

/// The first half of a registration, once the caller has looked the e-mail
/// up: refused with `AlreadyExists` when a user has it, with
/// `InvalidArgument` when the role number names no role, with `Internal`
/// when hashing fails; otherwise the record to store.
pub fn prepare_registration(req: RegisterRequest, email_taken: bool) -> (res: Result<NewUserRecord, RpcStatus>)
    ensures
        email_taken ==> (res matches Err(e) && e.code == GrpcCode::AlreadyExists && e.message@
            == "user already exists"@),
        !email_taken && spec_role_from_proto(req.role) is Err ==> (res matches Err(e) && e.code
            == GrpcCode::InvalidArgument && (req.role == 0 ==> e.message@
            == "role must be specified"@) && (req.role != 0 ==> e.message@ == "invalid role"@)),
        !email_taken && spec_role_from_proto(req.role) is Ok ==> match res {
            Ok(rec) => registration_record(rec, req),
            Err(e) => e.code == GrpcCode::Internal,
        },
{
    if email_taken {
        return Err(RpcStatus::with_text(GrpcCode::AlreadyExists, "user already exists"));
    }
    let role = match role_from_proto(req.role) {
        Ok(name) => name,
        Err(e) => {
            return Err(e);
        },
    };
    match bcrypt_hash(req.password.as_str(), PASSWORD_COST) {
        Ok(password_hash) => {
            proof {
                lemma_password_cost_hash(password_hash@);
            }
            Ok(new_user_record(req, role, password_hash))
        },
        Err(e) => Err(RpcStatus::internal(bcrypt_error_text(&e))),
    }
}

/// The record stored for a registration, given the role name and the
/// password's hash: the request's names and e-mail, that hash, that role.
pub fn new_user_record(req: RegisterRequest, role: &str, password_hash: String) -> (rec: NewUserRecord)
    ensures
        rec.firstname@ == req.firstname@,
        rec.lastname@ == req.lastname@,
        rec.email@ == req.email@,
        rec.password_hash@ == password_hash@,
        rec.role@ == role@,
{
    NewUserRecord {
        firstname: req.firstname,
        lastname: req.lastname,
        email: req.email,
        password_hash,
        role: String::from_str(role),
    }
}

/// The second half of a registration, once the record is stored: a token
/// for the created user, and the user.
pub fn complete_registration(created: UserRecord, jwt_secret: &str) -> (r: AuthResponse)
    ensures
        auth_response_for(r, created, jwt_secret@),
        exists|now: UtcTime|
            now.valid() && #[trigger] token_issued_at(r.access_token@, created, jwt_secret@, now),
{
    auth_response(created, jwt_secret)
}

/// What checking `password` against the stored hash of `user` gives.
pub open spec fn password_check(user: UserRecord, password: Seq<char>) -> Option<bool> {
    bcrypt_verify_outcome(password, user.password_hash@)
}

/// Law: a user stored from a registration logs in with the password given
/// at registration: checking that password against the stored hash gives a
/// match, so `login_with_user` answers with a token for the user.
pub proof fn law_registered_password_logs_in(req: RegisterRequest, rec: NewUserRecord, stored: UserRecord)
    requires
        registration_record(rec, req),
        stored.password_hash@ == rec.password_hash@,
    ensures
        password_check(stored, req.password@) == Some(true),
{
}

/// A login, once the caller has looked the e-mail up: refused with
/// `Unauthenticated` "invalid credentials" when no user has the e-mail or
/// the password does not match its hash, with `Internal` when the stored
/// hash cannot be read; otherwise a token for the user, and the user.
pub fn login_with_user(user: Option<UserRecord>, password: &str, jwt_secret: &str) -> (res: Result<AuthResponse, RpcStatus>)
    ensures
        match user {
            None => res matches Err(e) && e.code == GrpcCode::Unauthenticated && e.message@
                == "invalid credentials"@,
            Some(u) => match password_check(u, password@) {
                None => res matches Err(e) && e.code == GrpcCode::Internal,
                Some(false) => res matches Err(e) && e.code == GrpcCode::Unauthenticated
                    && e.message@ == "invalid credentials"@,
                Some(true) => res matches Ok(r) && auth_response_for(r, u, jwt_secret@) && exists|
                    now: UtcTime,
                |
                    now.valid() && #[trigger] token_issued_at(
                        r.access_token@,
                        u,
                        jwt_secret@,
                        now,
                    ),
            },
        },
{
    let user = match user {
        Some(u) => u,
        None => {
            return Err(RpcStatus::with_text(GrpcCode::Unauthenticated, "invalid credentials"));
        },
    };
    match bcrypt_verify(password, user.password_hash.as_str()) {
        Err(e) => Err(RpcStatus::internal(bcrypt_error_text(&e))),
        Ok(false) => Err(RpcStatus::with_text(GrpcCode::Unauthenticated, "invalid credentials")),
        Ok(true) => Ok(auth_response(user, jwt_secret)),
    }
}

/// The answer for a token that does not validate: not valid, no user, no
/// e-mail, role `Unspecified`.
pub open spec fn is_invalid_token_response(r: ValidateTokenResponse) -> bool {
    &&& !r.valid
    &&& r.user_id@.len() == 0
    &&& r.email@.len() == 0
    &&& r.role == 0
}

pub fn invalid_token_response() -> (r: ValidateTokenResponse)
    ensures
        is_invalid_token_response(r),
{
    ValidateTokenResponse { valid: false, user_id: String::new(), email: String::new(), role: 0 }
}

/// What a token validation does next.
#[derive(Clone, Debug)]
pub enum TokenCheck {
    /// Answer now with this response.
    Reply(ValidateTokenResponse),
    /// Look up the user with this id and answer with `validated_user`.
    LookUpUser(String),
}

/// What `check_token` answers: invalid for a logged-out or undecoded token,
/// otherwise a lookup of the user the claims name.
pub open spec fn token_check_answer(revoked: bool, decoded: Option<Claims>, r: TokenCheck) -> bool {
    if revoked || decoded is None {
        r matches TokenCheck::Reply(resp) && is_invalid_token_response(resp)
    } else {
        r matches TokenCheck::LookUpUser(id) && id@ == decoded->Some_0.sub@
    }
}

/// The first decision of a token validation, once the caller knows whether
/// the token was logged out and, if it was not, what decoding the token
/// gave (`None` when it did not decode, failed its signature or has
/// expired): a logged-out or undecodable token is answered as invalid; for
/// any other the user it names is looked up.
pub fn check_token(revoked: bool, decoded: Option<Claims>) -> (r: TokenCheck)
    ensures
        token_check_answer(revoked, decoded, r),
{
    if revoked {
        return TokenCheck::Reply(invalid_token_response());
    }
    match decoded {
        None => TokenCheck::Reply(invalid_token_response()),
        Some(claims) => TokenCheck::LookUpUser(claims.sub),
    }
}

/// What the first step of a token validation answers at the instant `now`:
/// a logged-out token is answered as invalid; any other leads to a lookup
/// only when it is signed under the secret; a token written with the secret
/// leads to a lookup of the user its claims name exactly while it has not
/// expired, and is answered as invalid after.
pub open spec fn validation_at(revoked: bool, token: Seq<char>, secret: Seq<char>, now: UtcTime, r: TokenCheck) -> bool {
    &&& revoked ==> (r matches TokenCheck::Reply(resp) && is_invalid_token_response(resp))
    &&& r matches TokenCheck::Reply(resp) ==> is_invalid_token_response(resp)
    &&& r is LookUpUser ==> !revoked && jwt_hs256_signature_valid(token, secret)
    &&& forall|sub: Seq<char>, exp: usize, role: Seq<char>|
        !revoked && token == #[trigger] jwt_hs256_token(sub, exp, role, secret) ==> if token_expired(
            exp,
            now,
        ) {
            r is Reply
        } else {
            r matches TokenCheck::LookUpUser(id) && id@ == sub
        }
}

/// The first step of a token validation at the instant `now`, given whether
/// the token was logged out: a logged-out token is answered as invalid
/// without being decoded; any other is decoded and checked at `now`,
/// answered as invalid when it is not accepted, and otherwise leads to a
/// lookup of the user it names.
pub fn validate_token_at(revoked: bool, token: &str, jwt_secret: &str, now: UtcTime) -> (r: TokenCheck)
    ensures
        validation_at(revoked, token@, jwt_secret@, now, r),
{
    if revoked {
        return TokenCheck::Reply(invalid_token_response());
    }
    let decoded = decode_token_at(token, jwt_secret, now);
    check_token(false, decoded)
}

/// The first step of a token validation, given whether the token was
/// logged out: `validate_token_at` at the current instant. Only a token
/// signed under the secret leads to a lookup. A token issued for a user and
/// not logged out is either refused (it has expired) or leads to that
/// user's record key.
pub fn validate_token_check(revoked: bool, token: &str, jwt_secret: &str) -> (r: TokenCheck)
    ensures
        revoked ==> (r matches TokenCheck::Reply(resp) && is_invalid_token_response(resp)),
        r matches TokenCheck::Reply(resp) ==> is_invalid_token_response(resp),
        r is LookUpUser ==> jwt_hs256_signature_valid(token@, jwt_secret@),
        forall|user: UserRecord|
            !revoked && #[trigger] token_issued_for(token@, user, jwt_secret@) ==> (
            r is Reply || (r matches TokenCheck::LookUpUser(id) && id@ == trim_matching(
                user.key@,
                '`',
            ))),
        exists|now: UtcTime|
            now.valid() && #[trigger] validation_at(revoked, token@, jwt_secret@, now, r),
{
    let now = utc_now();
    let r = validate_token_at(revoked, token, jwt_secret, now);
    proof {
        assert forall|user: UserRecord|
            !revoked && #[trigger] token_issued_for(token@, user, jwt_secret@) implies (
            r is Reply || (r matches TokenCheck::LookUpUser(id) && id@ == trim_matching(
                user.key@,
                '`',
            ))) by {
            let (c, t) = choose|c: Claims, t: UtcTime|
                {
                    &&& t.valid()
                    &&& claims_match(c, user.key@, user.role@, t)
                    &&& token@ == jwt_hs256_token(c.sub@, c.exp, c.role@, jwt_secret@)
                };
            assert(token@ == jwt_hs256_token(c.sub@, c.exp, c.role@, jwt_secret@));
        }
        assert(now.valid() && validation_at(revoked, token@, jwt_secret@, now, r));
    }
    r
}

/// Law: a token lives twelve hours from the instant it is issued, with 60
/// seconds of leeway. A token issued for `user` at `issued` and not logged
/// out, checked at any instant up to twelve hours and a minute later,
/// decodes to the user's record key (without backticks), role and an expiry
/// of `issued` plus 43 200 seconds, and its validation looks up that key;
/// checked later than that, it decodes to nothing and is answered as
/// invalid.
pub proof fn law_issued_token_lifetime(
    user: UserRecord,
    secret: Seq<char>,
    issued: UtcTime,
    now: UtcTime,
    token: Seq<char>,
    decoded: Option<Claims>,
    check: TokenCheck,
)
    requires
        issued.valid(),
        0 <= issued.secs,
        issued.secs + 43_200 <= usize::MAX,
        token_issued_at(token, user, secret, issued),
        decode_outcome(token, secret, now, decoded),
        validation_at(false, token, secret, now, check),
    ensures
        now.secs <= issued.secs + 43_260 ==> (decoded matches Some(c) && c.sub@ == trim_matching(
            user.key@,
            '`',
        ) && c.role@ == user.role@ && c.exp == issued.secs + 43_200),
        now.secs <= issued.secs + 43_260 ==> (check matches TokenCheck::LookUpUser(id) && id@
            == trim_matching(user.key@, '`')),
        now.secs > issued.secs + 43_260 ==> decoded is None,
        now.secs > issued.secs + 43_260 ==> (check matches TokenCheck::Reply(resp)
            && is_invalid_token_response(resp)),
{
    let sub = trim_matching(user.key@, '`');
    let exp = (issued.secs + token_lifetime_secs()) as usize;
    assert(exp as int == issued.secs + 43_200);
    assert(token == jwt_hs256_token(sub, exp, user.role@, secret));
}

/// Law: a token issued for a user, when decoding accepts it, decodes to
/// the user's record key (without backticks) and role.
pub proof fn law_issued_token_decodes_as_its_user(
    token: Seq<char>,
    user: UserRecord,
    secret: Seq<char>,
    decoded: Option<Claims>,
)
    requires
        token_issued_for(token, user, secret),
        decodes_as_written(token, secret, decoded),
    ensures
        decoded matches Some(c) ==> c.sub@ == trim_matching(user.key@, '`') && c.role@
            == user.role@,
{
    let (c, now) = choose|c: Claims, now: UtcTime|
        {
            &&& now.valid()
            &&& claims_match(c, user.key@, user.role@, now)
            &&& token == jwt_hs256_token(c.sub@, c.exp, c.role@, secret)
        };
    assert(token == jwt_hs256_token(c.sub@, c.exp, c.role@, secret));
}

/// What `validated_user` answers: `Unauthenticated` when the user no longer
/// exists, otherwise a valid answer with the user's id, e-mail and role
/// number.
pub open spec fn validation_answer(user: Option<UserRecord>, res: Result<ValidateTokenResponse, RpcStatus>) -> bool {
    match user {
        None => res matches Err(e) && e.code == GrpcCode::Unauthenticated && e.message@
            == "invalid token: user does not exist"@,
        Some(u) => res matches Ok(r) && r.valid && r.user_id@ == u.id@ && r.email@ == u.email@
            && r.role == spec_role_to_proto(u.role@),
    }
}

/// The last decision of a token validation, once the user has been looked
/// up: a token whose user no longer exists is refused with
/// `Unauthenticated`; otherwise the token is valid for that user.
pub fn validated_user(user: Option<UserRecord>) -> (res: Result<ValidateTokenResponse, RpcStatus>)
    ensures
        validation_answer(user, res),
{
    match user {
        None => Err(
            RpcStatus::with_text(GrpcCode::Unauthenticated, "invalid token: user does not exist"),
        ),
        Some(u) => {
            let role = crate::roles::role_to_proto(u.role.as_str());
            Ok(ValidateTokenResponse { valid: true, user_id: u.id, email: u.email, role })
        },
    }
}

/// The answer to a get-user call, once the user has been looked up.
pub fn found_user(user: Option<UserRecord>) -> (res: Result<User, RpcStatus>)
    ensures
        match user {
            None => res matches Err(e) && e.code == GrpcCode::NotFound && e.message@
                == "user not found"@,
            Some(u) => res matches Ok(v) && user_matches_record(v, u),
        },
{
    match user {
        None => Err(RpcStatus::with_text(GrpcCode::NotFound, "user not found")),
        Some(u) => Ok(u.into_user()),
    }
}

/// The user stored from the record `rec`: the same names, e-mail, hash and
/// role, under the id and key the database gave it.
pub open spec fn stored_from(created: UserRecord, rec: NewUserRecord) -> bool {
    &&& created.firstname@ == rec.firstname@
    &&& created.lastname@ == rec.lastname@
    &&& created.email@ == rec.email@
    &&& created.password_hash@ == rec.password_hash@
    &&& created.role@ == rec.role@
}

/// Law: a token that a register or login answer carries validates as the
/// user it was issued for. While the token is not logged out and decoding
/// accepts it (it has not expired), the validation looks up that user's
/// record key, and, with the user found, answers valid with the user's id,
/// e-mail and role number, as the answer's user shows them.
pub proof fn law_issued_token_validates(
    user: UserRecord,
    secret: Seq<char>,
    r: AuthResponse,
    decoded: Option<Claims>,
    check: TokenCheck,
    answer: Result<ValidateTokenResponse, RpcStatus>,
)
    requires
        auth_response_for(r, user, secret),
        decodes_as_written(r.access_token@, secret, decoded),
        decoded is Some,
        token_check_answer(false, decoded, check),
        validation_answer(Some(user), answer),
    ensures
        check matches TokenCheck::LookUpUser(id) && id@ == trim_matching(user.key@, '`'),
        answer matches Ok(v) && r.user matches Some(u) && v.valid && v.user_id@ == u.id@
            && v.email@ == u.email@ && v.role == u.role,
{
    law_issued_token_decodes_as_its_user(r.access_token@, user, secret, decoded);
}

/// Law: registering and then validating the token the registration answered
/// with gives the registered user. Once the record built from the request
/// is stored, while the token is not logged out and decoding accepts it,
/// the validation looks up the stored user's record key and answers valid
/// with the stored id, the e-mail of the request and the role number of the
/// request; the registration's answer shows the request's names, e-mail and
/// role number under the stored id.
pub proof fn law_registered_token_validates(
    req: RegisterRequest,
    rec: NewUserRecord,
    created: UserRecord,
    secret: Seq<char>,
    r: AuthResponse,
    decoded: Option<Claims>,
    check: TokenCheck,
    answer: Result<ValidateTokenResponse, RpcStatus>,
)
    requires
        registration_record(rec, req),
        stored_from(created, rec),
        auth_response_for(r, created, secret),
        decodes_as_written(r.access_token@, secret, decoded),
        decoded is Some,
        token_check_answer(false, decoded, check),
        validation_answer(Some(created), answer),
    ensures
        check matches TokenCheck::LookUpUser(id) && id@ == trim_matching(created.key@, '`'),
        answer matches Ok(v) && v.valid && v.user_id@ == created.id@ && v.email@ == req.email@
            && v.role == req.role,
        r.user matches Some(u) && u.id@ == created.id@ && u.firstname@ == req.firstname@
            && u.lastname@ == req.lastname@ && u.email@ == req.email@ && u.role == req.role,
{
    law_issued_token_validates(created, secret, r, decoded, check, answer);
    law_role_number_round_trip(req.role);
}

/// The answer to a logout, once the token has been recorded as revoked.
pub fn logout_ack() -> (a: Ack)
    ensures
        a.success,
        a.message@ == "token revoked"@,
{
    Ack { success: true, message: String::from_str("token revoked") }
}

/// A demo account seeded at start-up.
#[derive(Clone, Copy, Debug)]
pub struct DemoUser {
    pub email: &'static str,
    pub password: &'static str,
    pub role: &'static str,
    pub firstname: &'static str,
    pub lastname: &'static str,
}

/// The demo accounts: a student, a teacher and an admin.
pub fn demo_users() -> (users: Vec<DemoUser>)
    ensures
        users.len() == 3,
        users[0].email@ == "student@example.com"@ && users[0].password@ == "student123"@
            && users[0].role@ == "student"@ && users[0].firstname@ == "Demo"@
            && users[0].lastname@ == "Student"@,
        users[1].email@ == "teacher@example.com"@ && users[1].password@ == "teacher123"@
            && users[1].role@ == "teacher"@ && users[1].firstname@ == "Demo"@
            && users[1].lastname@ == "Teacher"@,
        users[2].email@ == "admin@example.com"@ && users[2].password@ == "admin123"@
            && users[2].role@ == "admin"@ && users[2].firstname@ == "Demo"@
            && users[2].lastname@ == "Admin"@,
{
    let mut users: Vec<DemoUser> = Vec::new();
    users.push(
        DemoUser {
            email: "student@example.com",
            password: "student123",
            role: "student",
            firstname: "Demo",
            lastname: "Student",
        },
    );
    users.push(
        DemoUser {
            email: "teacher@example.com",
            password: "teacher123",
            role: "teacher",
            firstname: "Demo",
            lastname: "Teacher",
        },
    );
    users.push(
        DemoUser {
            email: "admin@example.com",
            password: "admin123",
            role: "admin",
            firstname: "Demo",
            lastname: "Admin",
        },
    );
    users
}

/// The record stored for a demo account whose e-mail is not taken yet: its
/// names, e-mail and role, and a hash its password verifies against; or the
/// text of the hashing failure.
pub fn demo_user_record(user: &DemoUser) -> (res: Result<NewUserRecord, String>)
    ensures
        res matches Ok(rec) ==> {
            &&& rec.firstname@ == user.firstname@
            &&& rec.lastname@ == user.lastname@
            &&& rec.email@ == user.email@
            &&& rec.role@ == user.role@
            &&& bcrypt_verify_outcome(user.password@, rec.password_hash@) == Some(true)
            &&& is_password_hash(rec.password_hash@)
        },
{
    match bcrypt_hash(user.password, PASSWORD_COST) {
        Ok(password_hash) => {
            proof {
                lemma_password_cost_hash(password_hash@);
            }
            Ok(demo_record_with_hash(user, password_hash))
        },
        Err(e) => Err(bcrypt_error_text(&e)),
    }
}

/// What seeding does with one demo account, once the caller has looked its
/// e-mail up: nothing when the e-mail is taken, so seeding again adds no
/// second account; otherwise the record to store, or the text of the
/// hashing failure.
pub fn demo_user_to_seed(user: &DemoUser, email_taken: bool) -> (res: Result<Option<NewUserRecord>, String>)
    ensures
        email_taken ==> res matches Ok(None),
        !email_taken ==> !(res matches Ok(None)),
        res matches Ok(Some(rec)) ==> {
            &&& rec.firstname@ == user.firstname@
            &&& rec.lastname@ == user.lastname@
            &&& rec.email@ == user.email@
            &&& rec.role@ == user.role@
            &&& bcrypt_verify_outcome(user.password@, rec.password_hash@) == Some(true)
            &&& is_password_hash(rec.password_hash@)
        },
{
    if email_taken {
        return Ok(None);
    }
    match demo_user_record(user) {
        Ok(rec) => Ok(Some(rec)),
        Err(e) => Err(e),
    }
}

/// The record stored for a demo account, given its password's hash.
pub fn demo_record_with_hash(user: &DemoUser, password_hash: String) -> (rec: NewUserRecord)
    ensures
        rec.firstname@ == user.firstname@,
        rec.lastname@ == user.lastname@,
        rec.email@ == user.email@,
        rec.role@ == user.role@,
        rec.password_hash@ == password_hash@,
{
    NewUserRecord {
        firstname: String::from_str(user.firstname),
        lastname: String::from_str(user.lastname),
        email: String::from_str(user.email),
        password_hash,
        role: String::from_str(user.role),
    }
}

} // verus!
