//! What the router's handlers compute around their RPC calls: the requests
//! they send, built from the REST body and the authenticated user, and the
//! REST bodies they answer with.

use vstd::prelude::*;
use crate::roles::{parse_role, role_number, spec_role_of_lowercase};
use crate::router::models::{
    spec_timestamp_text, text_option_view, AuthToken, CreateNotificationBody,
    CurrentUser, LoginBody, NotificationDto, ProjectDto, RegisterBody, RegisterProjectBody,
    RegisterSubjectBody, SubjectDto,
};
use crate::rpc::{
    CreateNotificationRequest, GetUserRequest, ListNotificationsRequest, LoginRequest, Notification,
    Project, RegisterRequest, RegisterStudentToSubjectRequest, RegisterTeamRequest, Subject,
    TokenRequest,
};
use crate::text::unicode_lowercase;

verus! {

/// The registration request: the body's fields, with the role name read as
/// the router reads roles (lower-cased; anything but "admin" or "teacher"
/// is a student).
pub fn register_request(body: RegisterBody) -> (req: RegisterRequest)
    ensures
        req.firstname@ == body.firstname@,
        req.lastname@ == body.lastname@,
        req.email@ == body.email@,
        req.password@ == body.password@,
        req.role == role_number(spec_role_of_lowercase(unicode_lowercase(body.role@))),
{
    let role = parse_role(body.role.as_str()).as_i32();
    RegisterRequest {
        firstname: body.firstname,
        lastname: body.lastname,
        email: body.email,
        password: body.password,
        role,
    }
}

pub fn login_request(body: LoginBody) -> (req: LoginRequest)
    ensures
        req.email@ == body.email@,
        req.password@ == body.password@,
{
    LoginRequest { email: body.email, password: body.password }
}

/// The user asked about is the authenticated user.
pub fn get_user_request(current_user: CurrentUser) -> (req: GetUserRequest)
    ensures
        req.user_id@ == current_user.user_id@,
{
    GetUserRequest { user_id: current_user.user_id }
}

/// The token logged out is the one the request was authenticated with.
pub fn logout_request(token: AuthToken) -> (req: TokenRequest)
    ensures
        req.access_token@ == token.access_token@,
{
    TokenRequest { access_token: token.access_token }
}

/// The notifications listed are those of the authenticated user.
pub fn list_notifications_request(current_user: CurrentUser) -> (req: ListNotificationsRequest)
    ensures
        req.user_id@ == current_user.user_id@,
{
    ListNotificationsRequest { user_id: current_user.user_id }
}

pub fn create_notification_request(body: CreateNotificationBody) -> (req: CreateNotificationRequest)
    ensures
        req.user_id@ == body.user_id@,
        req.message@ == body.message@,
{
    CreateNotificationRequest { user_id: body.user_id, message: body.message }
}

/// A team is registered for the project in the body, created by the
/// authenticated user.
pub fn register_team_request(current_user: CurrentUser, body: RegisterProjectBody) -> (req: RegisterTeamRequest)
    ensures
        req.project_id@ == body.project_id@,
        req.creator_student_id@ == current_user.user_id@,
{
    RegisterTeamRequest { project_id: body.project_id, creator_student_id: current_user.user_id }
}

/// The student registered to the subject in the body is the authenticated
/// user.
pub fn register_student_request(current_user: CurrentUser, body: RegisterSubjectBody) -> (req: RegisterStudentToSubjectRequest)
    ensures
        req.subject_id@ == body.subject_id@,
        req.student_id@ == current_user.user_id@,
{
    RegisterStudentToSubjectRequest { subject_id: body.subject_id, student_id: current_user.user_id }
}

/// The notifications of a listing as REST bodies, in the same order.
pub fn notification_dtos(notifications: Vec<Notification>) -> (out: Vec<NotificationDto>)
    ensures
        out.len() == notifications.len(),
        forall|i: int|
            0 <= i < notifications.len() ==> {
                &&& (#[trigger] out[i]).id@ == notifications[i].id@
                &&& out[i].user_id@ == notifications[i].user_id@
                &&& out[i].message@ == notifications[i].message@
                &&& text_option_view(out[i].date) == spec_timestamp_text(notifications[i].date)
                &&& out[i].read == notifications[i].read
            },
{
    let ghost orig = notifications@;
    let mut rest = notifications;
    let mut out: Vec<NotificationDto> = Vec::new();
    while rest.len() > 0
        invariant
            out.len() + rest.len() == orig.len(),
            rest@ == orig.skip(out.len() as int),
            forall|i: int|
                0 <= i < out.len() ==> {
                    &&& (#[trigger] out[i]).id@ == orig[i].id@
                    &&& out[i].user_id@ == orig[i].user_id@
                    &&& out[i].message@ == orig[i].message@
                    &&& text_option_view(out[i].date) == spec_timestamp_text(orig[i].date)
                    &&& out[i].read == orig[i].read
                },
        decreases rest.len(),
    {
        let n = rest.remove(0);
        assert(n == orig[out.len() as int]);
        out.push(NotificationDto::from_notification(n));
        assert(rest@ =~= orig.skip(out.len() as int));
    }
    out
}

/// The subjects of a listing as REST bodies, in the same order.
pub fn subject_dtos(subjects: Vec<Subject>) -> (out: Vec<SubjectDto>)
    ensures
        out.len() == subjects.len(),
        forall|i: int|
            0 <= i < subjects.len() ==> {
                &&& (#[trigger] out[i]).id@ == subjects[i].id@
                &&& out[i].name@ == subjects[i].name@
                &&& out[i].description@ == subjects[i].description@
                &&& out[i].abbreviation@ == subjects[i].abbreviation@
            },
{
    let ghost orig = subjects@;
    let mut rest = subjects;
    let mut out: Vec<SubjectDto> = Vec::new();
    while rest.len() > 0
        invariant
            out.len() + rest.len() == orig.len(),
            rest@ == orig.skip(out.len() as int),
            forall|i: int|
                0 <= i < out.len() ==> {
                    &&& (#[trigger] out[i]).id@ == orig[i].id@
                    &&& out[i].name@ == orig[i].name@
                    &&& out[i].description@ == orig[i].description@
                    &&& out[i].abbreviation@ == orig[i].abbreviation@
                },
        decreases rest.len(),
    {
        let s = rest.remove(0);
        assert(s == orig[out.len() as int]);
        out.push(SubjectDto::from_subject(s));
        assert(rest@ =~= orig.skip(out.len() as int));
    }
    out
}

/// The projects of a listing as REST bodies, in the same order.
pub fn project_dtos(projects: Vec<Project>) -> (out: Vec<ProjectDto>)
    ensures
        out.len() == projects.len(),
        forall|i: int|
            0 <= i < projects.len() ==> {
                &&& (#[trigger] out[i]).id@ == projects[i].id@
                &&& out[i].title@ == projects[i].title@
                &&& out[i].description@ == projects[i].description@
                &&& out[i].teacher_id@ == projects[i].teacher_id@
                &&& out[i].max_students_per_team == projects[i].max_students_per_team
                &&& text_option_view(out[i].start_date) == spec_timestamp_text(projects[i].start_date)
                &&& text_option_view(out[i].end_date) == spec_timestamp_text(projects[i].end_date)
                &&& out[i].subject_id@ == projects[i].subject_id@
            },
{
    let ghost orig = projects@;
    let mut rest = projects;
    let mut out: Vec<ProjectDto> = Vec::new();
    while rest.len() > 0
        invariant
            out.len() + rest.len() == orig.len(),
            rest@ == orig.skip(out.len() as int),
            forall|i: int|
                0 <= i < out.len() ==> {
                    &&& (#[trigger] out[i]).id@ == orig[i].id@
                    &&& out[i].title@ == orig[i].title@
                    &&& out[i].description@ == orig[i].description@
                    &&& out[i].teacher_id@ == orig[i].teacher_id@
                    &&& out[i].max_students_per_team == orig[i].max_students_per_team
                    &&& text_option_view(out[i].start_date) == spec_timestamp_text(orig[i].start_date)
                    &&& text_option_view(out[i].end_date) == spec_timestamp_text(orig[i].end_date)
                    &&& out[i].subject_id@ == orig[i].subject_id@
                },
        decreases rest.len(),
    {
        let p = rest.remove(0);
        assert(p == orig[out.len() as int]);
        out.push(ProjectDto::from_project(p));
        assert(rest@ =~= orig.skip(out.len() as int));
    }
    out
}

} // verus!
