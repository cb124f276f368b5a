//! The REST bodies of the router and their conversions from RPC answers.

use vstd::prelude::*;
use crate::clock::{chrono_rfc3339, chrono_timestamp_valid, rfc3339_of_timestamp};
use crate::roles::{role_to_string, spec_role_to_string};
use crate::rpc::{Ack, AuthResponse, Notification, Project, Subject, Team, Timestamp, User};

verus! {

#[derive(Clone, Debug)]
pub struct ApiErrorResponse {
    pub error: String,
}

#[derive(Clone, Debug)]
pub struct AckDto {
    pub success: bool,
    pub message: String,
}

#[derive(Clone, Debug)]
pub struct RegisterBody {
    pub firstname: String,
    pub lastname: String,
    pub email: String,
    pub password: String,
    pub role: String,
}

#[derive(Clone, Debug)]
pub struct LoginBody {
    pub email: String,
    pub password: String,
}

#[derive(Clone, Debug)]
pub struct UserDto {
    pub id: String,
    pub firstname: String,
    pub lastname: String,
    pub email: String,
    pub role: String,
}

#[derive(Clone, Debug)]
pub struct AuthDto {
    pub access_token: String,
    pub user: Option<UserDto>,
}

#[derive(Clone, Debug)]
pub struct SubjectDto {
    pub id: String,
    pub name: String,
    pub description: String,
    pub abbreviation: String,
}

#[derive(Clone, Debug)]
pub struct ProjectDto {
    pub id: String,
    pub title: String,
    pub description: String,
    pub teacher_id: String,
    pub max_students_per_team: u32,
    pub start_date: Option<String>,
    pub end_date: Option<String>,
    pub subject_id: String,
}

#[derive(Clone, Debug)]
pub struct TeamDto {
    pub id: String,
    pub project_id: String,
    pub name: String,
    pub leader_student_id: String,
    pub student_ids: Vec<String>,
}

#[derive(Clone, Debug)]
pub struct NotificationDto {
    pub id: String,
    pub user_id: String,
    pub message: String,
    pub date: Option<String>,
    pub read: bool,
}

#[derive(Clone, Debug)]
pub struct RegisterSubjectBody {
    pub subject_id: String,
}

#[derive(Clone, Debug)]
pub struct RegisterProjectBody {
    pub project_id: String,
}

#[derive(Clone, Debug)]
pub struct AddTeamMemberBody {
    pub team_id: String,
    pub student_id: String,
}

#[derive(Clone, Debug)]
pub struct RemoveTeamMemberBody {
    pub team_id: String,
    pub student_id: String,
}

#[derive(Clone, Debug)]
pub struct CreateNotificationBody {
    pub user_id: String,
    pub message: String,
}

/// The user a request was authenticated as.
#[derive(Clone, Debug)]
pub struct CurrentUser {
    pub user_id: String,
    pub email: String,
    pub role: String,
}

/// The bearer token a request was authenticated with.
#[derive(Clone, Debug)]
pub struct AuthToken {
    pub access_token: String,
}

/// The RFC 3339 text of a timestamp: none when there is no timestamp or
/// when it is outside what `chrono` can represent (a negative nanosecond
/// part counts as a huge one).
pub open spec fn spec_timestamp_text(timestamp: Option<Timestamp>) -> Option<Seq<char>> {
    match timestamp {
        None => None,
        Some(t) => if chrono_timestamp_valid(t.seconds, t.nanos as u32) {
            Some(chrono_rfc3339(t.seconds, t.nanos as u32))
        } else {
            None
        },
    }
}

pub open spec fn text_option_view(s: Option<String>) -> Option<Seq<char>> {
    match s {
        None => None,
        Some(v) => Some(v@),
    }
}

pub fn timestamp_to_rfc3339(timestamp: Option<Timestamp>) -> (res: Option<String>)
    ensures
        text_option_view(res) == spec_timestamp_text(timestamp),
{
    let t = match timestamp {
        Some(t) => t,
        None => {
            return None;
        },
    };
    rfc3339_of_timestamp(t.seconds, t.nanos as u32)
}

pub open spec fn user_dto_matches(d: UserDto, u: User) -> bool {
    &&& d.id@ == u.id@
    &&& d.firstname@ == u.firstname@
    &&& d.lastname@ == u.lastname@
    &&& d.email@ == u.email@
    &&& d.role@ == spec_role_to_string(u.role)
}

/// Law: the REST user body shows each field of the RPC user under the same
/// name, and the role as its name: "student", "teacher" and "admin" for the
/// numbers 1, 2 and 3, "unspecified" for any other.
pub proof fn law_user_dto_keeps_fields(d: UserDto, u: User)
    requires
        user_dto_matches(d, u),
    ensures
        d.id@ == u.id@,
        d.firstname@ == u.firstname@,
        d.lastname@ == u.lastname@,
        d.email@ == u.email@,
        u.role == 1 ==> d.role@ == "student"@,
        u.role == 2 ==> d.role@ == "teacher"@,
        u.role == 3 ==> d.role@ == "admin"@,
        !(1 <= u.role <= 3) ==> d.role@ == "unspecified"@,
{
}

impl AckDto {
    pub fn from_ack(value: Ack) -> (d: AckDto)
        ensures
            d.success == value.success,
            d.message@ == value.message@,
    {
        AckDto { success: value.success, message: value.message }
    }
}

impl UserDto {
    pub fn from_user(user: User) -> (d: UserDto)
        ensures
            user_dto_matches(d, user),
            d.id@ == user.id@,
            d.firstname@ == user.firstname@,
            d.lastname@ == user.lastname@,
            d.email@ == user.email@,
            d.role@ == spec_role_to_string(user.role),
    {
        let role = role_to_string(user.role);
        UserDto { id: user.id, firstname: user.firstname, lastname: user.lastname, email: user.email, role }
    }
}

impl AuthDto {
    pub fn from_response(value: AuthResponse) -> (d: AuthDto)
        ensures
            d.access_token@ == value.access_token@,
            d.user is Some <==> value.user is Some,
            value.user is Some ==> user_dto_matches(d.user->Some_0, value.user->Some_0),
            value.user matches Some(u) ==> d.user matches Some(du) && du.id@ == u.id@
                && du.firstname@ == u.firstname@ && du.lastname@ == u.lastname@ && du.email@
                == u.email@,
    {
        let user = match value.user {
            Some(u) => Some(UserDto::from_user(u)),
            None => None,
        };
        AuthDto { access_token: value.access_token, user }
    }
}

impl SubjectDto {
    pub fn from_subject(subject: Subject) -> (d: SubjectDto)
        ensures
            d.id@ == subject.id@,
            d.name@ == subject.name@,
            d.description@ == subject.description@,
            d.abbreviation@ == subject.abbreviation@,
    {
        SubjectDto {
            id: subject.id,
            name: subject.name,
            description: subject.description,
            abbreviation: subject.abbreviation,
        }
    }
}

impl ProjectDto {
    pub fn from_project(project: Project) -> (d: ProjectDto)
        ensures
            d.id@ == project.id@,
            d.title@ == project.title@,
            d.description@ == project.description@,
            d.teacher_id@ == project.teacher_id@,
            d.max_students_per_team == project.max_students_per_team,
            text_option_view(d.start_date) == spec_timestamp_text(project.start_date),
            text_option_view(d.end_date) == spec_timestamp_text(project.end_date),
            d.subject_id@ == project.subject_id@,
    {
        let start_date = timestamp_to_rfc3339(project.start_date);
        let end_date = timestamp_to_rfc3339(project.end_date);
        ProjectDto {
            id: project.id,
            title: project.title,
            description: project.description,
            teacher_id: project.teacher_id,
            max_students_per_team: project.max_students_per_team,
            start_date,
            end_date,
            subject_id: project.subject_id,
        }
    }
}

impl TeamDto {
    pub fn from_team(team: Team) -> (d: TeamDto)
        ensures
            d.id@ == team.id@,
            d.project_id@ == team.project_id@,
            d.name@ == team.name@,
            d.leader_student_id@ == team.leader_student_id@,
            d.student_ids@ == team.student_ids@,
    {
        TeamDto {
            id: team.id,
            project_id: team.project_id,
            name: team.name,
            leader_student_id: team.leader_student_id,
            student_ids: team.student_ids,
        }
    }
}

impl NotificationDto {
    pub fn from_notification(notification: Notification) -> (d: NotificationDto)
        ensures
            d.id@ == notification.id@,
            d.user_id@ == notification.user_id@,
            d.message@ == notification.message@,
            text_option_view(d.date) == spec_timestamp_text(notification.date),
            d.read == notification.read,
    {
        let date = timestamp_to_rfc3339(notification.date);
        NotificationDto {
            id: notification.id,
            user_id: notification.user_id,
            message: notification.message,
            date,
            read: notification.read,
        }
    }
}

} // verus!
