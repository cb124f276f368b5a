//! The messages that the services exchange over gRPC, held as plain values,
//! and the status that a failed call carries.

use vstd::prelude::*;

verus! {

/// The status codes of a gRPC call (`Success` is the code numbered 0, "OK").
#[derive(Clone, Copy, Debug, PartialEq, Eq, Structural)]
pub enum GrpcCode {
    Success,
    Cancelled,
    Unknown,
    InvalidArgument,
    DeadlineExceeded,
    NotFound,
    AlreadyExists,
    PermissionDenied,
    ResourceExhausted,
    FailedPrecondition,
    Aborted,
    OutOfRange,
    Unimplemented,
    Internal,
    Unavailable,
    DataLoss,
    Unauthenticated,
}

/// A failed gRPC call: its code and its message.
#[derive(Clone, Debug)]
pub struct RpcStatus {
    pub code: GrpcCode,
    pub message: String,
}

impl RpcStatus {
    pub fn new(code: GrpcCode, message: String) -> (res: RpcStatus)
        ensures
            res.code == code,
            res.message@ == message@,
    {
        RpcStatus { code, message }
    }

    /// A status with a message given as a literal.
    pub fn with_text(code: GrpcCode, message: &str) -> (res: RpcStatus)
        ensures
            res.code == code,
            res.message@ == message@,
    {
        RpcStatus { code, message: String::from_str(message) }
    }

    /// The status that an unexpected failure is reported with: code
    /// `Internal` and the failure's own text.
    pub fn internal(message: String) -> (res: RpcStatus)
        ensures
            res.code == GrpcCode::Internal,
            res.message@ == message@,
    {
        RpcStatus { code: GrpcCode::Internal, message }
    }
}

/// `google.protobuf.Timestamp`.
#[derive(Clone, Copy, Debug, PartialEq, Eq, Structural)]
pub struct Timestamp {
    pub seconds: i64,
    pub nanos: i32,
}

/// `common.Ack`.
#[derive(Clone, Debug)]
pub struct Ack {
    pub success: bool,
    pub message: String,
}

/// `auth.User`.
#[derive(Clone, Debug)]
pub struct User {
    pub id: String,
    pub firstname: String,
    pub lastname: String,
    pub email: String,
    pub role: i32,
}

/// `auth.AuthResponse`.
#[derive(Clone, Debug)]
pub struct AuthResponse {
    pub access_token: String,
    pub user: Option<User>,
}

/// `auth.ValidateTokenResponse`.
#[derive(Clone, Debug)]
pub struct ValidateTokenResponse {
    pub valid: bool,
    pub user_id: String,
    pub email: String,
    pub role: i32,
}

/// `auth.RegisterRequest`.
#[derive(Clone, Debug)]
pub struct RegisterRequest {
    pub firstname: String,
    pub lastname: String,
    pub email: String,
    pub password: String,
    pub role: i32,
}

/// `auth.LoginRequest`.
#[derive(Clone, Debug)]
pub struct LoginRequest {
    pub email: String,
    pub password: String,
}

/// `auth.GetUserRequest`.
#[derive(Clone, Debug)]
pub struct GetUserRequest {
    pub user_id: String,
}

/// `auth.LogoutRequest` and `auth.ValidateTokenRequest`: a bearer token.
#[derive(Clone, Debug)]
pub struct TokenRequest {
    pub access_token: String,
}

/// `subject.Subject`.
#[derive(Clone, Debug)]
pub struct Subject {
    pub id: String,
    pub name: String,
    pub description: String,
    pub abbreviation: String,
}

/// `project.Project`.
#[derive(Clone, Debug)]
pub struct Project {
    pub id: String,
    pub title: String,
    pub description: String,
    pub teacher_id: String,
    pub max_students_per_team: u32,
    pub start_date: Option<Timestamp>,
    pub end_date: Option<Timestamp>,
    pub subject_id: String,
}

/// `project.Team`.
#[derive(Clone, Debug)]
pub struct Team {
    pub id: String,
    pub project_id: String,
    pub name: String,
    pub leader_student_id: String,
    pub student_ids: Vec<String>,
}

/// `notification.Notification`.
#[derive(Clone, Debug)]
pub struct Notification {
    pub id: String,
    pub user_id: String,
    pub message: String,
    pub date: Option<Timestamp>,
    pub read: bool,
}

/// `notification.ListNotificationsRequest`.
#[derive(Clone, Debug)]
pub struct ListNotificationsRequest {
    pub user_id: String,
}

/// `notification.CreateNotificationRequest`.
#[derive(Clone, Debug)]
pub struct CreateNotificationRequest {
    pub user_id: String,
    pub message: String,
}

/// `notification.MarkAsReadRequest`.
#[derive(Clone, Debug)]
pub struct MarkAsReadRequest {
    pub notification_id: String,
}

/// `project.GetProjectRequest`.
#[derive(Clone, Debug)]
pub struct GetProjectRequest {
    pub project_id: String,
}

/// `project.RegisterTeamRequest`.
#[derive(Clone, Debug)]
pub struct RegisterTeamRequest {
    pub project_id: String,
    pub creator_student_id: String,
}

/// `project.AddTeamMemberRequest` and `project.RemoveTeamMemberRequest`.
#[derive(Clone, Debug)]
pub struct TeamMemberRequest {
    pub team_id: String,
    pub student_id: String,
}

/// `subject.GetSubjectRequest`.
#[derive(Clone, Debug)]
pub struct GetSubjectRequest {
    pub subject_id: String,
}

/// `subject.RegisterStudentToSubjectRequest`.
#[derive(Clone, Debug)]
pub struct RegisterStudentToSubjectRequest {
    pub subject_id: String,
    pub student_id: String,
}

} // verus!
