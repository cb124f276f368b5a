use university_registration::auth::config::{parse_seed_flag, Config};
use university_registration::auth::models::{load_jwt_keys, Claims, RevokedTokenRecord, UserRecord};
use university_registration::auth::service::{
    check_token, complete_registration, create_token, demo_record_with_hash, demo_user_record,
    demo_user_to_seed, demo_users, decode_token, found_user, new_user_record, validate_token_check,
    invalid_token_response, login_with_user, logout_ack, prepare_registration, token_claims,
    validated_user, TokenCheck,
};
use university_registration::clock::UtcTime;
use university_registration::rpc::{GrpcCode, RegisterRequest};

fn sample_user(hash: &str) -> UserRecord {
    UserRecord {
        id: "user:abc123".to_string(),
        key: "abc123".to_string(),
        firstname: "Ada".to_string(),
        lastname: "Lovelace".to_string(),
        email: "ada@example.com".to_string(),
        password_hash: hash.to_string(),
        role: "teacher".to_string(),
    }
}

fn register_request(role: i32) -> RegisterRequest {
    RegisterRequest {
        firstname: "Ada".to_string(),
        lastname: "Lovelace".to_string(),
        email: "ada@example.com".to_string(),
        password: "s3cret!".to_string(),
        role,
    }
}

struct DecodedClaims {
    sub: String,
    exp: usize,
    role: String,
}

fn decode(token: &str, secret: &str) -> Option<DecodedClaims> {
    let data = jsonwebtoken::decode::<std::collections::HashMap<String, serde_json::Value>>(
        token,
        &jsonwebtoken::DecodingKey::from_secret(secret.as_bytes()),
        &jsonwebtoken::Validation::new(jsonwebtoken::Algorithm::HS256),
    )
    .ok()?;
    let c = data.claims;
    Some(DecodedClaims {
        sub: c.get("sub")?.as_str()?.to_string(),
        exp: c.get("exp")?.as_u64()? as usize,
        role: c.get("role")?.as_str()?.to_string(),
    })
}

#[test]
fn seed_flag_values() {
    assert!(parse_seed_flag(None));
    for v in ["1", "true", "TRUE", " yes ", "On", "\ttrue\n", "\u{3000}yes\u{3000}"] {
        assert!(parse_seed_flag(Some(v)), "{:?}", v);
    }
    for v in ["0", "false", "", "no", "off", "truee", "y"] {
        assert!(!parse_seed_flag(Some(v)), "{:?}", v);
    }
}

#[test]
fn auth_config_defaults() {
    let c = Config::from_vars(None, None, None, None, None, None, None, None);
    assert_eq!(c.grpc_addr, "0.0.0.0:50051");
    assert_eq!(c.db_path, "/data/auth-db");
    assert_eq!(c.surreal_namespace, "university_auth");
    assert_eq!(c.surreal_database, "auth");
    assert_eq!(c.jwt_secret, "change-me-in-production");
    assert!(c.seed_demo_users);
    assert_eq!(c.otel_endpoint, "http://127.0.0.1:4317");
    assert_eq!(c.otel_service_name, "auth-service");
}

#[test]
fn auth_config_takes_values() {
    let c = Config::from_vars(
        Some("127.0.0.1:1".into()),
        Some("/tmp/db".into()),
        Some("ns".into()),
        Some("db".into()),
        Some("k".into()),
        Some("off".into()),
        Some("http://otel".into()),
        Some("svc".into()),
    );
    assert_eq!(c.grpc_addr, "127.0.0.1:1");
    assert_eq!(c.db_path, "/tmp/db");
    assert_eq!(c.surreal_namespace, "ns");
    assert_eq!(c.surreal_database, "db");
    assert_eq!(c.jwt_secret, "k");
    assert!(!c.seed_demo_users);
    assert_eq!(c.otel_endpoint, "http://otel");
    assert_eq!(c.otel_service_name, "svc");
    assert_eq!(load_jwt_keys(&c).secret, "k");
}

#[test]
fn token_claims_strip_backticks_and_expire_in_twelve_hours() {
    let c = token_claims("`abc`", "admin", UtcTime { secs: 1_000, nanos: 5 });
    assert_eq!(c.sub, "abc");
    assert_eq!(c.exp, 44_200);
    assert_eq!(c.role, "admin");
}

#[test]
fn created_token_carries_claims() {
    let before = chrono::Utc::now().timestamp() as usize;
    let token = create_token("`xyz`", "student", "secret").unwrap();
    let claims = decode(&token, "secret").expect("token decodes with its secret");
    assert_eq!(claims.sub, "xyz");
    assert_eq!(claims.role, "student");
    assert!(claims.exp >= before + 43_200 && claims.exp <= before + 43_200 + 5);
    assert!(decode(&token, "other secret").is_none());
}

#[test]
fn registration_refuses_taken_email() {
    let e = prepare_registration(register_request(1), true).unwrap_err();
    assert_eq!(e.code, GrpcCode::AlreadyExists);
    assert_eq!(e.message, "user already exists");
}

#[test]
fn registration_refuses_missing_or_bad_role() {
    let e = prepare_registration(register_request(0), false).unwrap_err();
    assert_eq!(e.code, GrpcCode::InvalidArgument);
    assert_eq!(e.message, "role must be specified");
    let e = prepare_registration(register_request(9), false).unwrap_err();
    assert_eq!(e.code, GrpcCode::InvalidArgument);
    assert_eq!(e.message, "invalid role");
}

#[test]
fn registered_password_logs_in() {
    let rec = prepare_registration(register_request(2), false).unwrap();
    assert_eq!(rec.firstname, "Ada");
    assert_eq!(rec.email, "ada@example.com");
    assert_eq!(rec.role, "teacher");
    assert_eq!(rec.password_hash.len(), 60);
    assert_ne!(rec.password_hash, "s3cret!");
    let stored = sample_user(&rec.password_hash);
    let resp = login_with_user(Some(stored), "s3cret!", "k").unwrap();
    let user = resp.user.unwrap();
    assert_eq!(user.id, "user:abc123");
    assert_eq!(user.role, 2);
    let claims = decode(&resp.access_token, "k").unwrap();
    assert_eq!(claims.sub, "abc123");
    assert_eq!(claims.role, "teacher");

    let wrong = login_with_user(Some(sample_user(&rec.password_hash)), "wrong", "k").unwrap_err();
    assert_eq!(wrong.code, GrpcCode::Unauthenticated);
    assert_eq!(wrong.message, "invalid credentials");
}

#[test]
fn login_of_unknown_email_is_refused() {
    let e = login_with_user(None, "whatever", "k").unwrap_err();
    assert_eq!(e.code, GrpcCode::Unauthenticated);
    assert_eq!(e.message, "invalid credentials");
}

#[test]
fn login_with_unreadable_hash_is_internal() {
    let e = login_with_user(Some(sample_user("not-a-hash")), "pw", "k").unwrap_err();
    assert_eq!(e.code, GrpcCode::Internal);
    assert!(!e.message.is_empty());
}

#[test]
fn registration_answer_has_token_and_user() {
    let resp = complete_registration(sample_user("h"), "k");
    let user = resp.user.unwrap();
    assert_eq!(user.email, "ada@example.com");
    assert_eq!(user.firstname, "Ada");
    assert_eq!(user.lastname, "Lovelace");
    assert_eq!(decode(&resp.access_token, "k").unwrap().sub, "abc123");
}

#[test]
fn revoked_token_is_invalid() {
    let claims = Claims { sub: "abc".into(), exp: 1, role: "admin".into() };
    match check_token(true, Some(claims)) {
        TokenCheck::Reply(r) => {
            assert!(!r.valid);
            assert_eq!(r.user_id, "");
            assert_eq!(r.email, "");
            assert_eq!(r.role, 0);
        }
        TokenCheck::LookUpUser(_) => panic!("revoked token looked up"),
    }
}

#[test]
fn undecodable_token_is_invalid() {
    match check_token(false, None) {
        TokenCheck::Reply(r) => assert!(!r.valid),
        TokenCheck::LookUpUser(_) => panic!("bad token looked up"),
    }
    let r = invalid_token_response();
    assert!(!r.valid && r.role == 0);
}

#[test]
fn decoded_token_looks_up_its_user() {
    let claims = Claims { sub: "abc".into(), exp: 1, role: "admin".into() };
    match check_token(false, Some(claims)) {
        TokenCheck::LookUpUser(id) => assert_eq!(id, "abc"),
        TokenCheck::Reply(_) => panic!("decoded token not looked up"),
    }
}

#[test]
fn validation_answers_for_existing_and_missing_user() {
    let r = validated_user(Some(sample_user("h"))).unwrap();
    assert!(r.valid);
    assert_eq!(r.user_id, "user:abc123");
    assert_eq!(r.email, "ada@example.com");
    assert_eq!(r.role, 2);
    let e = validated_user(None).unwrap_err();
    assert_eq!(e.code, GrpcCode::Unauthenticated);
    assert_eq!(e.message, "invalid token: user does not exist");
}

#[test]
fn get_user_answers() {
    let u = found_user(Some(sample_user("h"))).unwrap();
    assert_eq!(u.id, "user:abc123");
    assert_eq!(u.role, 2);
    let e = found_user(None).unwrap_err();
    assert_eq!(e.code, GrpcCode::NotFound);
    assert_eq!(e.message, "user not found");
}

#[test]
fn logout_acknowledges() {
    let a = logout_ack();
    assert!(a.success);
    assert_eq!(a.message, "token revoked");
}

#[test]
fn demo_accounts() {
    let users = demo_users();
    assert_eq!(users.len(), 3);
    assert_eq!(users[0].email, "student@example.com");
    assert_eq!(users[1].role, "teacher");
    assert_eq!(users[2].password, "admin123");
    let rec = demo_user_record(&users[2]).unwrap();
    assert_eq!(rec.email, "admin@example.com");
    assert_eq!(rec.role, "admin");
    assert_eq!(rec.firstname, "Demo");
    assert_eq!(rec.lastname, "Admin");
    assert!(bcrypt::verify("admin123", &rec.password_hash).unwrap());
}

#[test]
fn revoked_token_records_get_fresh_ids() {
    let a = RevokedTokenRecord::for_token("tok");
    let b = RevokedTokenRecord::for_token("tok");
    assert_eq!(a.token, "tok");
    assert_eq!(a.id.len(), 36);
    assert_ne!(a.id, b.id);
}

#[test]
fn records_take_the_given_hash() {
    let rec = new_user_record(register_request(3), "admin", "H".to_string());
    assert_eq!(rec.password_hash, "H");
    assert_eq!(rec.role, "admin");
    assert_eq!(rec.lastname, "Lovelace");
    let demo = demo_users()[0];
    let rec = demo_record_with_hash(&demo, "X".to_string());
    assert_eq!(rec.password_hash, "X");
    assert_eq!(rec.email, "student@example.com");
    assert_eq!(rec.lastname, "Student");
}

#[test]
fn issued_tokens_decode_to_their_claims() {
    let token = create_token("`abc123`", "teacher", "k").unwrap();
    let c = decode_token(&token, "k").unwrap();
    assert_eq!(c.sub, "abc123");
    assert_eq!(c.role, "teacher");
    assert!(decode_token(&token, "other").is_none());
    assert!(decode_token("not.a.token", "k").is_none());
}

#[test]
fn issued_token_payload_keeps_claim_order() {
    let token = create_token("k1", "admin", "s").unwrap();
    let payload = token.split('.').nth(1).unwrap();
    let engine = base64_payload(payload);
    assert!(engine.starts_with("{\"sub\":\"k1\",\"exp\":"), "{}", engine);
    assert!(engine.ends_with(",\"role\":\"admin\"}"), "{}", engine);
}

fn base64_payload(part: &str) -> String {
    const ALPHABET: &[u8] = b"ABCDEFGHIJKLMNOPQRSTUVWXYZabcdefghijklmnopqrstuvwxyz0123456789-_";
    let mut bits: u32 = 0;
    let mut n = 0;
    let mut out = Vec::new();
    for b in part.bytes() {
        let v = ALPHABET.iter().position(|&a| a == b).unwrap() as u32;
        bits = (bits << 6) | v;
        n += 6;
        if n >= 8 {
            n -= 8;
            out.push((bits >> n) as u8);
            bits &= (1 << n) - 1;
        }
    }
    String::from_utf8(out).unwrap()
}

#[test]
fn expired_tokens_are_refused() {
    let token = jsonwebtoken::encode(
        &jsonwebtoken::Header::new(jsonwebtoken::Algorithm::HS256),
        &std::collections::HashMap::from([
            ("sub", serde_json::Value::from("abc")),
            ("exp", serde_json::Value::from(1000u64)),
            ("role", serde_json::Value::from("admin")),
        ]),
        &jsonwebtoken::EncodingKey::from_secret(b"k"),
    )
    .unwrap();
    assert!(decode_token(&token, "k").is_none());
    match validate_token_check(false, &token, "k") {
        TokenCheck::Reply(r) => assert!(!r.valid),
        TokenCheck::LookUpUser(_) => panic!("expired token looked up"),
    }
}

#[test]
fn validation_of_issued_and_revoked_tokens() {
    let token = create_token("`abc123`", "teacher", "k").unwrap();
    match validate_token_check(false, &token, "k") {
        TokenCheck::LookUpUser(id) => assert_eq!(id, "abc123"),
        TokenCheck::Reply(_) => panic!("fresh token refused"),
    }
    match validate_token_check(true, &token, "k") {
        TokenCheck::Reply(r) => assert!(!r.valid && r.user_id.is_empty() && r.role == 0),
        TokenCheck::LookUpUser(_) => panic!("revoked token looked up"),
    }
    match validate_token_check(false, &token, "wrong") {
        TokenCheck::Reply(r) => assert!(!r.valid),
        TokenCheck::LookUpUser(_) => panic!("forged token looked up"),
    }
}

#[test]
fn seeding_skips_taken_emails() {
    let demo = demo_users()[1];
    assert!(demo_user_to_seed(&demo, true).unwrap().is_none());
    let rec = demo_user_to_seed(&demo, false).unwrap().unwrap();
    assert_eq!(rec.email, "teacher@example.com");
    assert!(bcrypt::verify("teacher123", &rec.password_hash).unwrap());
}

#[test]
fn revoked_token_ids_are_v4_uuids() {
    let r = RevokedTokenRecord::for_token("t");
    let u = uuid::Uuid::parse_str(&r.id).unwrap();
    assert_eq!(u.get_version_num(), 4);
    assert_eq!(r.id, r.id.to_lowercase());
}

#[test]
fn stored_hashes_use_bcrypt_2b_with_cost_12() {
    let rec = prepare_registration(register_request(1), false).unwrap();
    assert_eq!(rec.password_hash.len(), 60);
    assert!(rec.password_hash.starts_with("$2b$12$"));
    assert_ne!(rec.password_hash, "s3cret!");
    let demo = demo_user_record(&demo_users()[0]).unwrap();
    assert!(demo.password_hash.starts_with("$2b$12$"));
    assert_eq!(demo.password_hash.len(), 60);
}

#[test]
fn registered_token_validates_as_the_stored_user() {
    let req = register_request(3);
    let rec = prepare_registration(req.clone(), false).unwrap();
    let created = UserRecord {
        id: "user:`x1`".to_string(),
        key: "`x1`".to_string(),
        firstname: rec.firstname.clone(),
        lastname: rec.lastname.clone(),
        email: rec.email.clone(),
        password_hash: rec.password_hash.clone(),
        role: rec.role.clone(),
    };
    let resp = complete_registration(created.clone(), "k");
    let id = match validate_token_check(false, &resp.access_token, "k") {
        TokenCheck::LookUpUser(id) => id,
        TokenCheck::Reply(_) => panic!("fresh token refused"),
    };
    assert_eq!(id, "x1");
    let v = validated_user(Some(created)).unwrap();
    assert!(v.valid);
    assert_eq!(v.user_id, "user:`x1`");
    assert_eq!(v.email, req.email);
    assert_eq!(v.role, 3);
    assert_eq!(resp.user.unwrap().role, 3);
}

#[test]
fn tampered_tokens_are_not_looked_up() {
    let token = create_token("abc", "admin", "k").unwrap();
    let mut parts: Vec<&str> = token.split('.').collect();
    let forged_payload = base64_encode_url(r#"{"sub":"root","exp":99999999999,"role":"admin"}"#);
    parts[1] = &forged_payload;
    let forged = parts.join(".");
    assert!(decode_token(&forged, "k").is_none());
    match validate_token_check(false, &forged, "k") {
        TokenCheck::Reply(r) => assert!(!r.valid),
        TokenCheck::LookUpUser(_) => panic!("tampered token looked up"),
    }
}

fn base64_encode_url(text: &str) -> String {
    const ALPHABET: &[u8] = b"ABCDEFGHIJKLMNOPQRSTUVWXYZabcdefghijklmnopqrstuvwxyz0123456789-_";
    let bytes = text.as_bytes();
    let mut out = String::new();
    for chunk in bytes.chunks(3) {
        let b = [chunk[0], *chunk.get(1).unwrap_or(&0), *chunk.get(2).unwrap_or(&0)];
        let n = ((b[0] as u32) << 16) | ((b[1] as u32) << 8) | b[2] as u32;
        let count = chunk.len() + 1;
        for i in 0..count {
            out.push(ALPHABET[((n >> (18 - 6 * i)) & 63) as usize] as char);
        }
    }
    out
}
