//! User roles: their wire numbers, their names, and the conversions between
//! them that the services use.

use vstd::prelude::*;
use crate::rpc::{GrpcCode, RpcStatus};
use crate::text::{ascii_lowercase, str_eq, to_lowercase, unicode_lowercase};
use vstd::utf8::is_ascii_chars;

verus! {

/// `common.UserRole`.
#[derive(Clone, Copy, Debug, PartialEq, Eq, Structural)]
pub enum UserRole {
    Unspecified,
    Student,
    Teacher,
    Admin,
}

/// The wire number of each role.
pub open spec fn role_number(r: UserRole) -> i32 {
    match r {
        UserRole::Unspecified => 0,
        UserRole::Student => 1,
        UserRole::Teacher => 2,
        UserRole::Admin => 3,
    }
}

/// The role that a wire number stands for, if any.
pub open spec fn role_of_number(n: i32) -> Option<UserRole> {
    if n == 0 {
        Some(UserRole::Unspecified)
    } else if n == 1 {
        Some(UserRole::Student)
    } else if n == 2 {
        Some(UserRole::Teacher)
    } else if n == 3 {
        Some(UserRole::Admin)
    } else {
        None
    }
}

impl UserRole {
    pub fn as_i32(&self) -> (n: i32)
        ensures
            n == role_number(*self),
    {
        match self {
            UserRole::Unspecified => 0,
            UserRole::Student => 1,
            UserRole::Teacher => 2,
            UserRole::Admin => 3,
        }
    }

    /// The role with the given wire number; `None` for a number that is
    /// no role.
    pub fn from_i32(n: i32) -> (r: Option<UserRole>)
        ensures
            r == role_of_number(n),
    {
        if n == 0 {
            Some(UserRole::Unspecified)
        } else if n == 1 {
            Some(UserRole::Student)
        } else if n == 2 {
            Some(UserRole::Teacher)
        } else if n == 3 {
            Some(UserRole::Admin)
        } else {
            None
        }
    }
}

/// The wire number stored for a role name: the three known names map to
/// their roles, every other text to `Unspecified`.
pub open spec fn spec_role_to_proto(role: Seq<char>) -> i32 {
    if role == "student"@ {
        1
    } else if role == "teacher"@ {
        2
    } else if role == "admin"@ {
        3
    } else {
        0
    }
}

/// The role name that a wire number is stored under.
pub open spec fn spec_role_from_proto(role: i32) -> Result<Seq<char>, GrpcCode> {
    if role == 1 {
        Ok("student"@)
    } else if role == 2 {
        Ok("teacher"@)
    } else if role == 3 {
        Ok("admin"@)
    } else {
        Err(GrpcCode::InvalidArgument)
    }
}

/// The text that the router shows for a wire number.
pub open spec fn spec_role_to_string(role: i32) -> Seq<char> {
    if role == 3 {
        "admin"@
    } else if role == 2 {
        "teacher"@
    } else if role == 1 {
        "student"@
    } else {
        "unspecified"@
    }
}

/// The role that the router asks for, given an already lower-cased name:
/// anything but "admin" or "teacher" counts as a student.
pub open spec fn spec_role_of_lowercase(lower: Seq<char>) -> UserRole {
    if lower == "admin"@ {
        UserRole::Admin
    } else if lower == "teacher"@ {
        UserRole::Teacher
    } else {
        UserRole::Student
    }
}

/// Maps a stored role name to its wire number.
pub fn role_to_proto(role: &str) -> (n: i32)
    ensures
        n == spec_role_to_proto(role@),
{
    if str_eq(role, "student") {
        UserRole::Student.as_i32()
    } else if str_eq(role, "teacher") {
        UserRole::Teacher.as_i32()
    } else if str_eq(role, "admin") {
        UserRole::Admin.as_i32()
    } else {
        UserRole::Unspecified.as_i32()
    }
}

/// Maps a wire number to the role name that is stored for it. A number that
/// is no role is refused with "invalid role", `Unspecified` with "role must
/// be specified"; both with code `InvalidArgument`.
pub fn role_from_proto(role: i32) -> (res: Result<&'static str, RpcStatus>)
    ensures
        match (res, spec_role_from_proto(role)) {
            (Ok(name), Ok(expected)) => name@ == expected,
            (Err(e), Err(code)) => {
                &&& e.code == code
                &&& role == 0 ==> e.message@ == "role must be specified"@
                &&& role != 0 ==> e.message@ == "invalid role"@
            },
            _ => false,
        },
{
    match UserRole::from_i32(role) {
        None => Err(RpcStatus::with_text(GrpcCode::InvalidArgument, "invalid role")),
        Some(UserRole::Student) => Ok("student"),
        Some(UserRole::Teacher) => Ok("teacher"),
        Some(UserRole::Admin) => Ok("admin"),
        Some(UserRole::Unspecified) => Err(
            RpcStatus::with_text(GrpcCode::InvalidArgument, "role must be specified"),
        ),
    }
}

/// The text that the router shows for a wire number; a number that is no
/// role shows as "unspecified".
pub fn role_to_string(role: i32) -> (s: String)
    ensures
        s@ == spec_role_to_string(role),
{
    let r = match UserRole::from_i32(role) {
        Some(r) => r,
        None => UserRole::Unspecified,
    };
    match r {
        UserRole::Admin => String::from_str("admin"),
        UserRole::Teacher => String::from_str("teacher"),
        UserRole::Student => String::from_str("student"),
        UserRole::Unspecified => String::from_str("unspecified"),
    }
}

/// The role asked for, given a name that is already lower-cased.
pub fn parse_lowercase_role(lower: &str) -> (r: UserRole)
    ensures
        r == spec_role_of_lowercase(lower@),
{
    if str_eq(lower, "admin") {
        UserRole::Admin
    } else if str_eq(lower, "teacher") {
        UserRole::Teacher
    } else {
        UserRole::Student
    }
}

/// The role that the router asks for: the name is lower-cased (Unicode's
/// mapping) and then read as "admin", "teacher" or, for anything else,
/// "student".
pub fn parse_role(role: &str) -> (r: UserRole)
    ensures
        r == spec_role_of_lowercase(unicode_lowercase(role@)),
        is_ascii_chars(role@) ==> r == spec_role_of_lowercase(ascii_lowercase(role@)),
{
    let lower = to_lowercase(role);
    parse_lowercase_role(lower.as_str())
}

/// The three stored role names differ from each other.
proof fn lemma_role_names_distinct()
    ensures
        "student"@ != "teacher"@,
        "student"@ != "admin"@,
        "teacher"@ != "admin"@,
{
    reveal_strlit("student");
    reveal_strlit("teacher");
    reveal_strlit("admin");
    assert("student"@[0] != "teacher"@[0] && "student"@[0] != "admin"@[0]);
    assert("teacher"@[0] != "admin"@[0]);
}

/// Law: a stored role name goes to its wire number and comes back unchanged,
/// and the router shows that number under the same name.
pub proof fn law_role_name_round_trip(name: Seq<char>)
    requires
        name == "student"@ || name == "teacher"@ || name == "admin"@,
    ensures
        spec_role_from_proto(spec_role_to_proto(name)) == Ok::<Seq<char>, GrpcCode>(name),
        spec_role_to_string(spec_role_to_proto(name)) == name,
{
    lemma_role_names_distinct();
}

/// Law: a wire number that the auth service accepts goes to a role name and
/// comes back unchanged, and the router shows it under that same name.
pub proof fn law_role_number_round_trip(n: i32)
    requires
        spec_role_from_proto(n) is Ok,
    ensures
        spec_role_to_proto(spec_role_from_proto(n)->Ok_0) == n,
        spec_role_to_string(n) == spec_role_from_proto(n)->Ok_0,
{
    lemma_role_names_distinct();
}

/// Law: the name the router shows for a student, teacher or admin number is
/// ASCII and already lower case, and the router reads it back as the same
/// role.
pub proof fn law_router_role_round_trip(n: i32)
    requires
        1 <= n <= 3,
    ensures
        is_ascii_chars(spec_role_to_string(n)),
        role_of_number(n) == Some(
            spec_role_of_lowercase(ascii_lowercase(spec_role_to_string(n))),
        ),
{
    lemma_role_names_distinct();
    reveal_strlit("student");
    reveal_strlit("teacher");
    reveal_strlit("admin");
    let s = spec_role_to_string(n);
    assert(is_ascii_chars(s));
    assert(ascii_lowercase(s) =~= s);
}

/// Law: only a number the auth service accepts as a role maps to a role
/// name, and such a number is exactly one of student, teacher and admin.
pub proof fn law_accepted_numbers(n: i32)
    ensures
        spec_role_from_proto(n) is Ok <==> (role_of_number(n) is Some && role_of_number(n)
            != Some(UserRole::Unspecified)),
{
}

} // verus!
