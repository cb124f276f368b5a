use university_registration::roles::{
    parse_lowercase_role, parse_role, role_from_proto, role_to_proto, role_to_string, UserRole,
};
use university_registration::rpc::GrpcCode;

#[test]
fn role_numbers_of_stored_names() {
    assert_eq!(role_to_proto("student"), 1);
    assert_eq!(role_to_proto("teacher"), 2);
    assert_eq!(role_to_proto("admin"), 3);
    assert_eq!(role_to_proto("Admin"), 0);
    assert_eq!(role_to_proto(""), 0);
    assert_eq!(role_to_proto("superuser"), 0);
}

#[test]
fn role_names_of_numbers() {
    assert_eq!(role_from_proto(1).unwrap(), "student");
    assert_eq!(role_from_proto(2).unwrap(), "teacher");
    assert_eq!(role_from_proto(3).unwrap(), "admin");
}

#[test]
fn unspecified_role_is_refused() {
    let e = role_from_proto(0).unwrap_err();
    assert_eq!(e.code, GrpcCode::InvalidArgument);
    assert_eq!(e.message, "role must be specified");
}

#[test]
fn unknown_role_number_is_refused() {
    for n in [4, -1, 99, i32::MAX, i32::MIN] {
        let e = role_from_proto(n).unwrap_err();
        assert_eq!(e.code, GrpcCode::InvalidArgument);
        assert_eq!(e.message, "invalid role");
    }
}

#[test]
fn router_role_texts() {
    assert_eq!(role_to_string(0), "unspecified");
    assert_eq!(role_to_string(1), "student");
    assert_eq!(role_to_string(2), "teacher");
    assert_eq!(role_to_string(3), "admin");
    assert_eq!(role_to_string(7), "unspecified");
    assert_eq!(role_to_string(-3), "unspecified");
}

#[test]
fn router_parses_roles_case_insensitively() {
    assert_eq!(parse_role("admin"), UserRole::Admin);
    assert_eq!(parse_role("ADMIN"), UserRole::Admin);
    assert_eq!(parse_role("Teacher"), UserRole::Teacher);
    assert_eq!(parse_role("student"), UserRole::Student);
    assert_eq!(parse_role("STUDENT"), UserRole::Student);
}

#[test]
fn router_reads_unknown_roles_as_student() {
    assert_eq!(parse_role(""), UserRole::Student);
    assert_eq!(parse_role("unspecified"), UserRole::Student);
    assert_eq!(parse_role("root"), UserRole::Student);
    assert_eq!(parse_role(" admin"), UserRole::Student);
    assert_eq!(parse_lowercase_role("Admin"), UserRole::Student);
    assert_eq!(parse_lowercase_role("admin"), UserRole::Admin);
}

#[test]
fn stored_role_names_round_trip() {
    for name in ["student", "teacher", "admin"] {
        let n = role_to_proto(name);
        assert_eq!(role_from_proto(n).unwrap(), name);
        assert_eq!(role_to_string(n), name);
    }
}

#[test]
fn accepted_role_numbers_round_trip() {
    for n in 1..=3 {
        let name = role_from_proto(n).unwrap();
        assert_eq!(role_to_proto(name), n);
        assert_eq!(role_to_string(n), name);
        assert_eq!(parse_role(&role_to_string(n)).as_i32(), n);
    }
}

#[test]
fn role_wire_numbers() {
    assert_eq!(UserRole::Unspecified.as_i32(), 0);
    assert_eq!(UserRole::from_i32(3), Some(UserRole::Admin));
    assert_eq!(UserRole::from_i32(4), None);
}
