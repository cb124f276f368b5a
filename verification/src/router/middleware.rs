//! Authentication and authorization of router requests.

use vstd::prelude::*;
use crate::roles::{role_number, role_to_string, spec_role_to_string, UserRole};
use crate::router::error::{http_status_of, AppError};
use crate::router::models::{AuthToken, CurrentUser};
use crate::rpc::{RpcStatus, ValidateTokenResponse};
use crate::text::{push_char, str_eq, substring, trim, trim_white_space};

verus! {

/// A header byte that `http::HeaderValue::to_str` accepts: a visible ASCII
/// character, a space or a tab.
pub open spec fn visible_ascii(b: u8) -> bool {
    b == 9 || (32 <= b && b < 127)
}

/// The text of a header value whose bytes are all accepted.
pub open spec fn header_text(bytes: Seq<u8>) -> Seq<char> {
    bytes.map_values(|b: u8| b as char)
}

/// How the `Authorization` header of a request is read: `Ok` with the
/// bearer token, or `Err` with the message of the 401 answer.
pub open spec fn spec_bearer_token(header: Option<Seq<u8>>) -> Result<Seq<char>, Seq<char>> {
    match header {
        None => Err("missing authorization header"@),
        Some(bytes) => if !(forall|i: int| 0 <= i < bytes.len() ==> visible_ascii(#[trigger] bytes[i])) {
            Err("invalid authorization header"@)
        } else {
            let text = header_text(bytes);
            if !(text.len() >= 7 && (text.subrange(0, 7) == "Bearer "@ || text.subrange(0, 7)
                == "bearer "@)) {
                Err("authorization header must use bearer token"@)
            } else if trim_white_space(text.skip(7)).len() == 0 {
                Err("authorization token is empty"@)
            } else {
                Ok(text.skip(7))
            }
        },
    }
}

/// Reads the bearer token from the bytes of the `Authorization` header
/// (`None` when the request has none). Every refusal is a 401.
pub fn extract_bearer_token(header: Option<&[u8]>) -> (res: Result<String, AppError>)
    ensures
        match (
            res,
            spec_bearer_token(
                match header {
                    Some(h) => Some(h@),
                    None => None,
                },
            ),
        ) {
            (Ok(t), Ok(expected)) => t@ == expected,
            (Err(e), Err(message)) => e.status == 401 && e.message@ == message,
            _ => false,
        },
{
    let bytes = match header {
        Some(h) => h,
        None => {
            return Err(AppError::unauthorized("missing authorization header"));
        },
    };
    let n = bytes.len();
    let mut text = String::new();
    let mut i: usize = 0;
    while i < n
        invariant
            header == Some(bytes),
            n == bytes@.len(),
            i <= n,
            forall|k: int| 0 <= k < i ==> visible_ascii(#[trigger] bytes@[k]),
            text@ == header_text(bytes@.subrange(0, i as int)),
        decreases n - i,
    {
        let b = bytes[i];
        if !(b == 9 || (32 <= b && b < 127)) {
            assert(!visible_ascii(bytes@[i as int]));
            return Err(AppError::unauthorized("invalid authorization header"));
        }
        push_char(&mut text, b as char);
        assert(header_text(bytes@.subrange(0, i + 1)) =~= header_text(
            bytes@.subrange(0, i as int),
        ).push(b as char));
        i = i + 1;
    }
    assert(bytes@.subrange(0, n as int) =~= bytes@);
    let len = text.unicode_len();
    if len < 7 {
        return Err(AppError::unauthorized("authorization header must use bearer token"));
    }
    let head = substring(text.as_str(), 0, 7);
    if !(str_eq(head.as_str(), "Bearer ") || str_eq(head.as_str(), "bearer ")) {
        return Err(AppError::unauthorized("authorization header must use bearer token"));
    }
    let token = substring(text.as_str(), 7, len);
    assert(token@ =~= text@.skip(7));
    let trimmed = trim(token.as_str());
    if trimmed.unicode_len() == 0 {
        return Err(AppError::unauthorized("authorization token is empty"));
    }
    Ok(token)
}

/// Accepts a token that the auth service found valid: the request is then
/// made as the user it names, with the role shown by name. A token found
/// invalid is refused with 401 "invalid or expired jwt".
pub fn authenticate(response: ValidateTokenResponse, token: String) -> (res: Result<(CurrentUser, AuthToken), AppError>)
    ensures
        !response.valid ==> (res matches Err(e) && e.status == 401 && e.message@
            == "invalid or expired jwt"@),
        response.valid ==> (res matches Ok((user, t)) && user.user_id@ == response.user_id@
            && user.email@ == response.email@ && user.role@ == spec_role_to_string(response.role)
            && t.access_token@ == token@),
{
    if !response.valid {
        return Err(AppError::unauthorized("invalid or expired jwt"));
    }
    let role = role_to_string(response.role);
    let user = CurrentUser { user_id: response.user_id, email: response.email, role };
    Ok((user, AuthToken { access_token: token }))
}

/// The last step of authenticating a request, given what the auth
/// service's token validation gave for the bearer token (the token has
/// already been read by `extract_bearer_token`, and a request without one
/// never reaches the call): a failed call is answered as its RPC status
/// maps to HTTP; a token found invalid with 401 "invalid or expired jwt";
/// otherwise the request goes on as the user named, with its token.
pub fn authenticate_reply(reply: Result<ValidateTokenResponse, RpcStatus>, token: String) -> (res: Result<(CurrentUser, AuthToken), AppError>)
    ensures
        reply matches Err(s) ==> (res matches Err(e) && e.status == http_status_of(s.code)
            && e.message@ == s.message@),
        reply matches Ok(resp) ==> {
            &&& !resp.valid ==> (res matches Err(e) && e.status == 401 && e.message@
                == "invalid or expired jwt"@)
            &&& resp.valid ==> (res matches Ok((user, t)) && user.user_id@ == resp.user_id@
                && user.email@ == resp.email@ && user.role@ == spec_role_to_string(resp.role)
                && t.access_token@ == token@)
        },
{
    match reply {
        Err(status) => Err(AppError::from_status(status)),
        Ok(response) => authenticate(response, token),
    }
}

/// The roles a route is open to.
#[derive(Clone, Copy, Debug)]
pub struct AllowedRoles(pub &'static [UserRole]);

/// Proof that a request's user has one of the allowed roles.
#[derive(Clone, Copy, Debug)]
pub struct RequireRoles;

/// The role name a user must have for `r` to admit it.
pub open spec fn role_name(r: UserRole) -> Seq<char> {
    spec_role_to_string(role_number(r))
}

/// A user's role is among the allowed ones.
pub open spec fn role_allowed(role: Seq<char>, allowed: Seq<UserRole>) -> bool {
    exists|i: int| 0 <= i < allowed.len() && role_name(#[trigger] allowed[i]) == role
}

/// Admits a request whose user (if it was authenticated) has one of the
/// allowed roles: without a user it is refused with 401 "missing auth
/// token", with a role outside the list with 403.
pub fn require_allowed_role(user: Option<&CurrentUser>, allowed: &AllowedRoles) -> (res: Result<RequireRoles, AppError>)
    ensures
        user is None ==> (res matches Err(e) && e.status == 401 && e.message@
            == "missing auth token"@),
        user is Some ==> (res is Ok <==> role_allowed(user->Some_0.role@, allowed.0@)),
        user is Some && res is Err ==> (res matches Err(e) && e.status == 403 && e.message@
            == "user role does not have permission to access this resource"@),
{
    let u = match user {
        Some(u) => u,
        None => {
            return Err(AppError::unauthorized("missing auth token"));
        },
    };
    let roles = allowed.0;
    let n = roles.len();
    let mut i: usize = 0;
    while i < n
        invariant
            n == roles@.len(),
            roles@ == allowed.0@,
            i <= n,
            user == Some(u),
            forall|k: int| 0 <= k < i ==> role_name(#[trigger] roles@[k]) != u.role@,
        decreases n - i,
    {
        let name = role_to_string(roles[i].as_i32());
        if str_eq(name.as_str(), u.role.as_str()) {
            assert(role_name(roles@[i as int]) == u.role@);
            return Ok(RequireRoles);
        }
        i = i + 1;
    }
    Err(AppError::forbidden("user role does not have permission to access this resource"))
}

/// The bytes of "Bearer ".
pub open spec fn bearer_prefix() -> Seq<u8> {
    seq![66u8, 101u8, 97u8, 114u8, 101u8, 114u8, 32u8]
}

/// Law: a header made of "Bearer " and a token of visible ASCII that is not
/// all blank yields exactly that token.
pub proof fn law_bearer_header_yields_token(token: Seq<u8>)
    requires
        forall|i: int| 0 <= i < token.len() ==> visible_ascii(#[trigger] token[i]),
        trim_white_space(header_text(token)).len() > 0,
    ensures
        spec_bearer_token(Some(bearer_prefix() + token)) == Ok::<Seq<char>, Seq<char>>(
            header_text(token),
        ),
{
    let bytes = bearer_prefix() + token;
    assert forall|i: int| 0 <= i < bytes.len() implies visible_ascii(#[trigger] bytes[i]) by {
        if i >= 7 {
            assert(bytes[i] == token[i - 7]);
        }
    }
    let text = header_text(bytes);
    reveal_strlit("Bearer ");
    assert(text.subrange(0, 7) =~= "Bearer "@);
    assert(text.skip(7) =~= header_text(token));
}

} // verus!
