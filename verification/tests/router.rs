use university_registration::roles::UserRole;
use university_registration::router::config::Config;
use university_registration::router::error::AppError;
use university_registration::router::handlers::{
    get_user_request, list_notifications_request, logout_request, notification_dtos,
    project_dtos, register_request, register_student_request, register_team_request,
    subject_dtos,
};
use university_registration::router::middleware::{
    authenticate, authenticate_reply, extract_bearer_token, require_allowed_role, AllowedRoles,
};
use university_registration::router::models::{
    timestamp_to_rfc3339, AckDto, AuthDto, AuthToken, CurrentUser, RegisterBody,
    RegisterProjectBody, RegisterSubjectBody, TeamDto, UserDto,
};
use university_registration::rpc::{
    Ack, AuthResponse, GrpcCode, Notification, Project, RpcStatus, Subject, Team, Timestamp, User,
    ValidateTokenResponse,
};

fn current_user(role: &str) -> CurrentUser {
    CurrentUser { user_id: "user:9".into(), email: "e@x".into(), role: role.into() }
}

#[test]
fn rpc_codes_map_to_http_statuses() {
    let cases = [
        (GrpcCode::InvalidArgument, 400),
        (GrpcCode::Unauthenticated, 401),
        (GrpcCode::PermissionDenied, 403),
        (GrpcCode::NotFound, 404),
        (GrpcCode::AlreadyExists, 409),
        (GrpcCode::Internal, 502),
        (GrpcCode::Unavailable, 502),
        (GrpcCode::Success, 502),
        (GrpcCode::DeadlineExceeded, 502),
    ];
    for (code, status) in cases {
        let e = AppError::from_status(RpcStatus::with_text(code, "boom"));
        assert_eq!(e.status, status);
        assert_eq!(e.message, "boom");
    }
}

#[test]
fn error_response_body() {
    let (status, body) = AppError::forbidden("no").response_parts();
    assert_eq!(status, 403);
    assert_eq!(body.error, "no");
    let e = AppError::unauthorized("who?");
    assert_eq!((e.status, e.message.as_str()), (401, "who?"));
    let e = AppError::new(418, "teapot".to_string());
    assert_eq!(e.status, 418);
}

#[test]
fn bearer_tokens_are_read() {
    assert_eq!(extract_bearer_token(Some(b"Bearer abc.def")).unwrap(), "abc.def");
    assert_eq!(extract_bearer_token(Some(b"bearer abc")).unwrap(), "abc");
    assert_eq!(extract_bearer_token(Some(b"Bearer  abc ")).unwrap(), " abc ");
    assert_eq!(extract_bearer_token(Some(b"Bearer \tx")).unwrap(), "\tx");
}

#[test]
fn bearer_refusals() {
    let cases: [(Option<&[u8]>, &str); 7] = [
        (None, "missing authorization header"),
        (Some(b"Bearer \xff"), "invalid authorization header"),
        (Some(b"Bearer a\nb"), "invalid authorization header"),
        (Some(b"BEARER abc"), "authorization header must use bearer token"),
        (Some(b"Basic abc"), "authorization header must use bearer token"),
        (Some(b"Bearer"), "authorization header must use bearer token"),
        (Some(b"Bearer  \t "), "authorization token is empty"),
    ];
    for (header, message) in cases {
        let e = extract_bearer_token(header).unwrap_err();
        assert_eq!(e.status, 401);
        assert_eq!(e.message, message);
    }
    assert_eq!(extract_bearer_token(Some(b"Bearer ")).unwrap_err().message, "authorization token is empty");
}

#[test]
fn valid_tokens_authenticate() {
    let resp = ValidateTokenResponse { valid: true, user_id: "u1".into(), email: "a@b".into(), role: 3 };
    let (user, token) = authenticate(resp, "tok".into()).unwrap();
    assert_eq!(user.user_id, "u1");
    assert_eq!(user.email, "a@b");
    assert_eq!(user.role, "admin");
    assert_eq!(token.access_token, "tok");
    let bad = ValidateTokenResponse { valid: false, user_id: "".into(), email: "".into(), role: 0 };
    let e = authenticate(bad, "tok".into()).unwrap_err();
    assert_eq!(e.status, 401);
    assert_eq!(e.message, "invalid or expired jwt");
}

static TEACHERS_AND_ADMINS: [UserRole; 2] = [UserRole::Teacher, UserRole::Admin];

#[test]
fn roles_are_checked() {
    let allowed = AllowedRoles(&TEACHERS_AND_ADMINS);
    assert!(require_allowed_role(Some(&current_user("admin")), &allowed).is_ok());
    assert!(require_allowed_role(Some(&current_user("teacher")), &allowed).is_ok());
    let e = require_allowed_role(Some(&current_user("student")), &allowed).unwrap_err();
    assert_eq!(e.status, 403);
    assert_eq!(e.message, "user role does not have permission to access this resource");
    let e = require_allowed_role(None, &allowed).unwrap_err();
    assert_eq!(e.status, 401);
    assert_eq!(e.message, "missing auth token");
    let none = AllowedRoles(&[]);
    assert!(require_allowed_role(Some(&current_user("admin")), &none).is_err());
}

#[test]
fn rfc3339_texts() {
    assert_eq!(timestamp_to_rfc3339(None), None);
    assert_eq!(
        timestamp_to_rfc3339(Some(Timestamp { seconds: 0, nanos: 0 })).unwrap(),
        "1970-01-01T00:00:00+00:00"
    );
    assert_eq!(
        timestamp_to_rfc3339(Some(Timestamp { seconds: 1_700_000_000, nanos: 500_000_000 })).unwrap(),
        "2023-11-14T22:13:20.500+00:00"
    );
    assert_eq!(timestamp_to_rfc3339(Some(Timestamp { seconds: 0, nanos: -1 })), None);
    assert_eq!(timestamp_to_rfc3339(Some(Timestamp { seconds: i64::MAX, nanos: 0 })), None);
}

#[test]
fn chrono_range_edges() {
    assert!(timestamp_to_rfc3339(Some(Timestamp { seconds: -8_334_601_228_800, nanos: 0 })).is_some());
    assert!(timestamp_to_rfc3339(Some(Timestamp { seconds: -8_334_601_228_801, nanos: 0 })).is_none());
    assert!(timestamp_to_rfc3339(Some(Timestamp { seconds: 8_210_266_876_799, nanos: 0 })).is_some());
    assert!(timestamp_to_rfc3339(Some(Timestamp { seconds: 8_210_266_876_800, nanos: 0 })).is_none());
    assert!(timestamp_to_rfc3339(Some(Timestamp { seconds: 59, nanos: 1_500_000_000 })).is_some());
    assert!(timestamp_to_rfc3339(Some(Timestamp { seconds: 58, nanos: 1_500_000_000 })).is_none());
    assert!(timestamp_to_rfc3339(Some(Timestamp { seconds: 59, nanos: 2_000_000_000u32 as i32 })).is_none());
}

#[test]
fn dto_conversions() {
    let ack = AckDto::from_ack(Ack { success: true, message: "ok".into() });
    assert!(ack.success && ack.message == "ok");
    let user = User { id: "user:1".into(), firstname: "A".into(), lastname: "B".into(), email: "e".into(), role: 1 };
    let dto = UserDto::from_user(user.clone());
    assert_eq!((dto.id.as_str(), dto.role.as_str()), ("user:1", "student"));
    let auth = AuthDto::from_response(AuthResponse { access_token: "t".into(), user: Some(user) });
    assert_eq!(auth.access_token, "t");
    assert_eq!(auth.user.unwrap().firstname, "A");
    let empty = AuthDto::from_response(AuthResponse { access_token: "t".into(), user: None });
    assert!(empty.user.is_none());
    let team = TeamDto::from_team(Team {
        id: "team:a".into(),
        project_id: "p".into(),
        name: "Alpha".into(),
        leader_student_id: "s1".into(),
        student_ids: vec!["s1".into(), "s2".into()],
    });
    assert_eq!(team.student_ids, vec!["s1".to_string(), "s2".to_string()]);
    assert_eq!(team.leader_student_id, "s1");
}

#[test]
fn listing_conversions_keep_order() {
    let subjects = subject_dtos(vec![
        Subject { id: "s1".into(), name: "OOP".into(), description: "d".into(), abbreviation: "OOP".into() },
        Subject { id: "s2".into(), name: "DB".into(), description: "d2".into(), abbreviation: "DB".into() },
    ]);
    assert_eq!(subjects.len(), 2);
    assert_eq!(subjects[1].id, "s2");
    let projects = project_dtos(vec![Project {
        id: "p1".into(),
        title: "T".into(),
        description: "D".into(),
        teacher_id: "t1".into(),
        max_students_per_team: 4,
        start_date: Some(Timestamp { seconds: 0, nanos: 0 }),
        end_date: None,
        subject_id: "s1".into(),
    }]);
    assert_eq!(projects[0].start_date.as_deref(), Some("1970-01-01T00:00:00+00:00"));
    assert_eq!(projects[0].end_date, None);
    assert_eq!(projects[0].max_students_per_team, 4);
    let notes = notification_dtos(vec![Notification {
        id: "n".into(),
        user_id: "u".into(),
        message: "m".into(),
        date: Some(Timestamp { seconds: 86_400, nanos: 0 }),
        read: true,
    }]);
    assert_eq!(notes[0].date.as_deref(), Some("1970-01-02T00:00:00+00:00"));
    assert!(notes[0].read);
}

#[test]
fn requests_use_the_authenticated_user() {
    let team = register_team_request(current_user("student"), RegisterProjectBody { project_id: "p".into() });
    assert_eq!((team.project_id.as_str(), team.creator_student_id.as_str()), ("p", "user:9"));
    let reg = register_student_request(current_user("student"), RegisterSubjectBody { subject_id: "s".into() });
    assert_eq!((reg.subject_id.as_str(), reg.student_id.as_str()), ("s", "user:9"));
    assert_eq!(list_notifications_request(current_user("admin")).user_id, "user:9");
    assert_eq!(get_user_request(current_user("admin")).user_id, "user:9");
    assert_eq!(logout_request(AuthToken { access_token: "t".into() }).access_token, "t");
}

#[test]
fn register_body_role_is_parsed() {
    let body = |role: &str| RegisterBody {
        firstname: "F".into(),
        lastname: "L".into(),
        email: "e".into(),
        password: "p".into(),
        role: role.into(),
    };
    assert_eq!(register_request(body("Teacher")).role, 2);
    assert_eq!(register_request(body("ADMIN")).role, 3);
    assert_eq!(register_request(body("whatever")).role, 1);
    let r = register_request(body("student"));
    assert_eq!((r.firstname.as_str(), r.password.as_str()), ("F", "p"));
}

#[test]
fn router_config_defaults() {
    let c = Config::from_vars(None, None, None, None, None, None, None);
    assert_eq!(c.http_addr, "0.0.0.0:8080");
    assert_eq!(c.auth_grpc_endpoint, "http://127.0.0.1:50051");
    assert_eq!(c.notification_grpc_endpoint, "http://127.0.0.1:50052");
    assert_eq!(c.subject_grpc_endpoint, "http://127.0.0.1:50053");
    assert_eq!(c.project_grpc_endpoint, "http://127.0.0.1:50054");
    assert_eq!(c.otel_endpoint, "http://127.0.0.1:4317");
    assert_eq!(c.otel_service_name, "router");
}

#[test]
fn validation_call_failures_and_replies() {
    let e = authenticate_reply(Err(RpcStatus::with_text(GrpcCode::Unavailable, "down")), "t".into()).unwrap_err();
    assert_eq!((e.status, e.message.as_str()), (502, "down"));
    let e = authenticate_reply(Err(RpcStatus::with_text(GrpcCode::Unauthenticated, "gone")), "t".into()).unwrap_err();
    assert_eq!(e.status, 401);
    let bad = ValidateTokenResponse { valid: false, user_id: "".into(), email: "".into(), role: 0 };
    assert_eq!(authenticate_reply(Ok(bad), "t".into()).unwrap_err().message, "invalid or expired jwt");
    let good = ValidateTokenResponse { valid: true, user_id: "u".into(), email: "e".into(), role: 2 };
    let (user, token) = authenticate_reply(Ok(good), "t".into()).unwrap();
    assert_eq!((user.role.as_str(), token.access_token.as_str()), ("teacher", "t"));
}
