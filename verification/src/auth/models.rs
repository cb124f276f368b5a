//! The records that the authentication service stores and the claims that
//! its tokens carry.

use vstd::prelude::*;
use crate::auth::config::Config;
use crate::ids::{is_uuid_v4_text, new_uuid};
use crate::roles::{role_to_proto, spec_role_to_proto};
use crate::rpc::User;

verus! {

/// A stored user. The database's record id is held as the two texts that
/// the service reads from it: the whole id (`RecordId`'s text, such as
/// "user:abc") and its key part (the key's text).
#[derive(Clone, Debug)]
pub struct UserRecord {
    pub id: String,
    pub key: String,
    pub firstname: String,
    pub lastname: String,
    pub email: String,
    pub password_hash: String,
    pub role: String,
}

/// A user about to be stored.
#[derive(Clone, Debug)]
pub struct NewUserRecord {
    pub firstname: String,
    pub lastname: String,
    pub email: String,
    pub password_hash: String,
    pub role: String,
}

/// A token that has been logged out.
#[derive(Clone, Debug)]
pub struct RevokedTokenRecord {
    pub id: String,
    pub token: String,
}

impl RevokedTokenRecord {
    /// The record that logs `token` out, under a fresh id.
    pub fn for_token(token: &str) -> (r: RevokedTokenRecord)
        ensures
            r.token@ == token@,
            is_uuid_v4_text(r.id@),
    {
        RevokedTokenRecord { id: new_uuid(), token: String::from_str(token) }
    }
}

/// What a token says: whose it is, until when (seconds since the epoch) and
/// with which role.
#[derive(Clone, Debug)]
pub struct Claims {
    pub sub: String,
    pub exp: usize,
    pub role: String,
}

/// The secret that tokens are signed with.
#[derive(Clone, Debug)]
pub struct JwtKeys {
    pub secret: String,
}

/// The key that signs tokens is the configured secret.
pub fn load_jwt_keys(config: &Config) -> (keys: JwtKeys)
    ensures
        keys.secret@ == config.jwt_secret@,
{
    JwtKeys { secret: config.jwt_secret.clone() }
}

/// The user as the RPC answers show it: the whole record id as its id, the
/// stored role as its wire number.
pub open spec fn user_matches_record(u: User, r: UserRecord) -> bool {
    &&& u.id@ == r.id@
    &&& u.firstname@ == r.firstname@
    &&& u.lastname@ == r.lastname@
    &&& u.email@ == r.email@
    &&& u.role == spec_role_to_proto(r.role@)
}

impl UserRecord {
    pub fn into_user(self) -> (u: User)
        ensures
            user_matches_record(u, self),
    {
        let role = role_to_proto(self.role.as_str());
        User {
            id: self.id,
            firstname: self.firstname,
            lastname: self.lastname,
            email: self.email,
            role,
        }
    }
}

} // verus!
