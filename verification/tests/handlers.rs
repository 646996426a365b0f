use cadmium::application_handler::{create_application, delete_application_outcome};
use cadmium::auth_middleware::{authorize_session, AuthOutcome};
use cadmium::forget_password_handler::{
    reset_password, reset_update_outcome, send_reset_otp, ResetError,
};
use cadmium::gate::{
    authenticate_organization, authorize_application, header_or_default, require_application,
    require_ownership, ApiError, HeaderField, LookupOutcome,
};
use cadmium::jwt_service::{claims_subject, generate_jwt, validate_jwt, Claims};
use cadmium::log_handler::{
    attach_scope, day_bounds, fetch_log_outcome, page_window, save_log_credentials, update_outcome,
};
use cadmium::models::{Application, LogPayload, OtpEntry, Organization, User};
use cadmium::organization_handler::{
    create_organization, get_organization_details, login, CreateOrganization,
};
use cadmium::otp_service::{generate_otp, verify_otp};
use cadmium::signin_handler::signin;
use cadmium::user_handler::{
    validate_user, verify_and_delete_otp_and_signup, SessionValidation, SignupError, SignupPayload,
};

fn sample_user(email: &str, password: &str) -> User {
    User {
        id: Some(7),
        first_name: String::from("Ada"),
        middle_name: None,
        last_name: String::from("Lovelace"),
        email: String::from(email),
        password_hash: bcrypt::hash(password, 4).unwrap(),
    }
}

fn sample_log() -> LogPayload {
    LogPayload {
        id: None,
        organization_id: None,
        application_id: None,
        error: String::from("boom"),
        traceback: String::from("trace"),
        url: String::from("/x"),
        method: String::from("GET"),
        created_at: Some(1000),
        updated_at: None,
    }
}

#[test]
fn save_log_credentials_checks_headers_in_order() {
    let v = |s: &str| HeaderField::Value(String::from(s));
    assert_eq!(
        save_log_credentials(HeaderField::Missing, v("s"), v("a")),
        Err(ApiError::MissingCdId)
    );
    assert_eq!(
        save_log_credentials(HeaderField::Unreadable, HeaderField::Missing, v("a")),
        Err(ApiError::InvalidCdIdEncoding)
    );
    assert_eq!(
        save_log_credentials(v("i"), HeaderField::Missing, v("a")),
        Err(ApiError::MissingCdSecret)
    );
    assert_eq!(
        save_log_credentials(v("i"), HeaderField::Unreadable, HeaderField::Missing),
        Err(ApiError::InvalidCdSecretEncoding)
    );
    assert_eq!(
        save_log_credentials(v("i"), v("s"), HeaderField::Missing),
        Err(ApiError::MissingApplicationId)
    );
    assert_eq!(
        save_log_credentials(v("i"), v("s"), HeaderField::Unreadable),
        Err(ApiError::InvalidApplicationIdEncoding)
    );
    assert_eq!(
        save_log_credentials(v("i"), v("s"), v("a")),
        Ok((String::from("i"), String::from("s"), String::from("a")))
    );
}

#[test]
fn header_or_default_falls_back_to_empty() {
    assert_eq!(header_or_default(&HeaderField::Missing), "");
    assert_eq!(header_or_default(&HeaderField::Unreadable), "");
    assert_eq!(
        header_or_default(&HeaderField::Value(String::from("abc"))),
        "abc"
    );
}

fn sample_org() -> Organization {
    Organization {
        id: Some(0x11),
        org_name: String::from("acme"),
        admin_email: String::from("admin@acme.io"),
        admin_password: String::from("pw"),
        cd_id: String::from("cdid"),
        cd_secret: String::from("cdsecret"),
    }
}

#[test]
fn organization_authentication_decisions() {
    assert!(authenticate_organization(LookupOutcome::Found(sample_org())).is_ok());
    assert_eq!(
        authenticate_organization(LookupOutcome::Missing).unwrap_err(),
        ApiError::InvalidCredentials
    );
    assert_eq!(
        authenticate_organization(LookupOutcome::StoreFailed).unwrap_err(),
        ApiError::AuthenticationStoreFailed
    );
}

#[test]
fn application_authorization_decisions() {
    let app = Application {
        id: Some(5),
        organization_id: Some(0x11),
        application_name: String::from("web"),
    };
    assert!(authorize_application(LookupOutcome::Found(app.clone()), 0x11).is_ok());
    assert_eq!(
        authorize_application(LookupOutcome::Found(app.clone()), 0x99).unwrap_err(),
        ApiError::ApplicationNotOwned
    );
    assert_eq!(
        authorize_application(LookupOutcome::Missing, 0x11).unwrap_err(),
        ApiError::ApplicationNotOwned
    );
    assert_eq!(
        authorize_application(LookupOutcome::StoreFailed, 0x11).unwrap_err(),
        ApiError::ApplicationStoreFailed
    );
    assert_eq!(
        require_application(LookupOutcome::Missing).unwrap_err(),
        ApiError::ApplicationNotFound
    );
    assert!(require_ownership(&app, 0x11).is_ok());
    assert_eq!(
        require_ownership(&app, 0x12).unwrap_err(),
        ApiError::ApplicationNotOwned
    );
}

#[test]
fn api_errors_carry_original_status_and_text() {
    assert_eq!(ApiError::MissingCdId.status(), 400);
    assert_eq!(ApiError::MissingCdId.message(), "Missing CD-ID header");
    assert_eq!(ApiError::InvalidCredentials.status(), 401);
    assert_eq!(ApiError::InvalidCredentials.message(), "Invalid CD-ID or CD-Secret");
    assert_eq!(ApiError::ApplicationNotFound.status(), 404);
    assert_eq!(
        ApiError::ApplicationNotOwned.message(),
        "Application does not belong to the organization"
    );
    assert_eq!(ApiError::LogStoreFailed.status(), 500);
}

#[test]
fn attach_scope_sets_only_the_scope() {
    let log = attach_scope(sample_log(), 0xa, 0xb);
    assert_eq!(log.organization_id, Some(0xa));
    assert_eq!(log.application_id, Some(0xb));
    assert_eq!(log.error, "boom");
    assert_eq!(log.created_at, Some(1000));
}

#[test]
fn log_outcome_decisions() {
    assert!(fetch_log_outcome(LookupOutcome::Found(sample_log())).is_ok());
    assert_eq!(
        fetch_log_outcome(LookupOutcome::Missing).unwrap_err(),
        ApiError::LogNotFound
    );
    assert_eq!(
        fetch_log_outcome(LookupOutcome::StoreFailed).unwrap_err(),
        ApiError::LogStoreFailed
    );
    assert!(update_outcome(1).is_ok());
    assert_eq!(update_outcome(0).unwrap_err(), ApiError::LogNotFound);
}

#[test]
fn page_window_defaults_and_clamps() {
    assert_eq!(page_window(None, None), (0, 10));
    assert_eq!(page_window(Some(1), Some(25)), (0, 25));
    assert_eq!(page_window(Some(3), Some(10)), (20, 10));
    assert_eq!(page_window(Some(0), Some(10)), (0, 10));
    assert_eq!(page_window(Some(-5), Some(10)), (0, 10));
}

#[test]
fn day_bounds_cover_the_calendar_day() {
    let now = 3 * 86400000 + 5000;
    let (start, end) = day_bounds(now);
    assert_eq!(start, 3 * 86400000);
    assert_eq!(end, 3 * 86400000 + 86399000);
    let (s2, e2) = day_bounds(0);
    assert_eq!((s2, e2), (0, 86399000));
}

#[test]
fn signin_succeeds_only_with_the_right_password() {
    let user = sample_user("ada@acme.io", "hunter2");
    let secret = "sessionsecret";
    let (resp, jwt) = signin(
        Some(user.clone()),
        &String::from("hunter2"),
        secret,
        1_700_000_000,
    )
    .unwrap();
    assert_eq!(resp.message, "Sign-in successful");
    assert_eq!(resp.data.email, "ada@acme.io");
    assert_eq!(resp.data.first_name, "Ada");
    assert_eq!(resp.data.id.as_deref(), Some("000000000000000000000007"));
    assert!(!jwt.is_empty());
    assert!(signin(Some(user), &String::from("wrong"), secret, 1_700_000_000).is_none());
    assert!(signin(None, &String::from("hunter2"), secret, 1_700_000_000).is_none());
}

#[test]
fn issued_token_validates_and_names_the_subject() {
    let now = jsonwebtoken::get_current_timestamp();
    let jwt = generate_jwt("ada@acme.io", "s3cret", now);
    assert_eq!(validate_jwt(&jwt, "s3cret"), Ok(String::from("ada@acme.io")));
    assert_eq!(
        validate_jwt(&jwt, "othersecret"),
        Err(String::from("Invalid token"))
    );
    assert_eq!(
        validate_jwt("not.a.token", "s3cret"),
        Err(String::from("Invalid token"))
    );
}

#[test]
fn claims_subject_extracts_or_rejects() {
    let claims = Claims { sub: String::from("ada@acme.io"), exp: 2_000_000_000 };
    assert_eq!(claims_subject(Some(claims)), Ok(String::from("ada@acme.io")));
    assert_eq!(claims_subject(None), Err(String::from("Invalid token")));
}

#[test]
fn expired_token_is_refused() {
    // issued long ago: expiry lies a day after issue, far in the past
    let jwt = generate_jwt("ada@acme.io", "s3cret", 1_000_000);
    assert_eq!(validate_jwt(&jwt, "s3cret"), Err(String::from("Invalid token")));
}

#[test]
fn signup_decision_gates_and_builds_the_user() {
    let payload = SignupPayload {
        email: String::from("new@acme.io"),
        otp: String::from("123456"),
        first_name: String::from("Grace"),
        middle_name: Some(String::from("Brewster")),
        last_name: String::from("Hopper"),
        password: String::from("pw123"),
    };
    assert_eq!(
        verify_and_delete_otp_and_signup(payload.clone(), true, true, "s", 1000)
            .unwrap_err(),
        SignupError::EmailRegistered
    );
    assert_eq!(
        verify_and_delete_otp_and_signup(payload.clone(), false, false, "s", 1000)
            .unwrap_err(),
        SignupError::InvalidOtp
    );
    let (user, jwt) =
        verify_and_delete_otp_and_signup(payload, false, true, "s", 1000).unwrap();
    assert_eq!(user.id, None);
    assert_eq!(user.first_name, "Grace");
    assert_eq!(user.middle_name.as_deref(), Some("Brewster"));
    assert_eq!(user.email, "new@acme.io");
    assert!(bcrypt::verify("pw123", &user.password_hash).unwrap());
    assert!(!jwt.is_empty());
}

#[test]
fn session_validation_decision() {
    let user = sample_user("u@x", "p");
    assert!(matches!(
        validate_user(false, None, None),
        SessionValidation::Unauthorized
    ));
    assert!(matches!(
        validate_user(true, None, None),
        SessionValidation::InvalidToken
    ));
    assert!(matches!(
        validate_user(true, Some(String::from("u@x")), None),
        SessionValidation::Unauthorized
    ));
    match validate_user(true, Some(String::from("u@x")), Some(user)) {
        SessionValidation::Valid(u) => assert_eq!(u.email, "u@x"),
        _ => panic!("expected a valid session"),
    }
}

#[test]
fn middleware_decision_covers_every_branch() {
    let user = sample_user("u@x", "p");
    let subject = || Some(String::from("u@x"));
    assert!(matches!(
        authorize_session(false, None, LookupOutcome::Missing),
        AuthOutcome::MissingToken
    ));
    assert!(matches!(
        authorize_session(true, None, LookupOutcome::Missing),
        AuthOutcome::InvalidToken
    ));
    assert!(matches!(
        authorize_session(true, subject(), LookupOutcome::Missing),
        AuthOutcome::UserNotFound
    ));
    assert!(matches!(
        authorize_session(true, subject(), LookupOutcome::StoreFailed),
        AuthOutcome::StoreFailed
    ));
    match authorize_session(true, subject(), LookupOutcome::Found(user)) {
        AuthOutcome::Authenticated(u) => assert_eq!(u.email, "u@x"),
        _ => panic!("expected an authenticated request"),
    }
}

#[test]
fn generated_otp_is_six_digits_in_range() {
    let (otp, entry) = generate_otp("who@x", 0x99, 555);
    assert_eq!(otp.len(), 6);
    let value: u32 = otp.parse().unwrap();
    assert!((100000..999999).contains(&value));
    assert_eq!(entry.email, "who@x");
    assert_eq!(entry.otp, otp);
    assert_eq!(entry.id, 0x99);
    assert_eq!(entry.created_at, 555);
}

#[test]
fn otp_verification_compares_email_and_code() {
    let entry = OtpEntry {
        id: 1,
        email: String::from("who@x"),
        otp: String::from("123456"),
        created_at: 0,
    };
    assert!(verify_otp(
        Some(&entry),
        &String::from("who@x"),
        &String::from("123456")
    ));
    assert!(!verify_otp(
        Some(&entry),
        &String::from("who@x"),
        &String::from("654321")
    ));
    assert!(!verify_otp(
        Some(&entry),
        &String::from("other@x"),
        &String::from("123456")
    ));
    assert!(!verify_otp(None, &String::from("who@x"), &String::from("123456")));
}

#[test]
fn organization_creation_draws_credentials() {
    let payload = CreateOrganization {
        org_name: String::from("acme"),
        admin_email: String::from("admin@acme.io"),
        admin_password: String::from("pw"),
    };
    assert!(create_organization(&payload, true, 0x42).is_err());
    let org = create_organization(&payload, false, 0x42).unwrap();
    assert_eq!(org.id, Some(0x42));
    assert_eq!(org.org_name, "acme");
    assert_eq!(org.cd_id.len(), 32);
    assert_eq!(org.cd_secret.len(), 32);
    assert!(org.cd_id.chars().all(|c| c.is_ascii_alphanumeric()));
    assert!(org.cd_secret.chars().all(|c| c.is_ascii_alphanumeric()));
}

#[test]
fn login_answers_hex_id_and_credentials() {
    let resp = login(Some(sample_org())).unwrap();
    assert_eq!(resp.organization_name, "acme");
    assert_eq!(resp.id, "000000000000000000000011");
    assert_eq!(resp.cd_id, "cdid");
    assert_eq!(resp.cd_secret, "cdsecret");
    assert!(login(None).is_none());
}

#[test]
fn organization_details_decision() {
    let (id, name) = get_organization_details(LookupOutcome::Found(sample_org())).unwrap();
    assert_eq!(id, "000000000000000000000011");
    assert_eq!(name, "acme");
    assert_eq!(
        get_organization_details(LookupOutcome::Missing).unwrap_err(),
        ApiError::InvalidCredentials
    );
    assert_eq!(
        get_organization_details(LookupOutcome::StoreFailed).unwrap_err(),
        ApiError::AuthenticationStoreFailed
    );
}

#[test]
fn password_reset_decisions() {
    assert!(send_reset_otp(true).is_ok());
    assert!(send_reset_otp(false).is_err());
    assert_eq!(
        reset_password(false, &String::from("newpw")).unwrap_err(),
        ResetError::InvalidOtp
    );
    let hash = reset_password(true, &String::from("newpw")).unwrap();
    assert!(bcrypt::verify("newpw", &hash).unwrap());
    assert!(reset_update_outcome(1).is_ok());
    assert_eq!(reset_update_outcome(0).unwrap_err(), ResetError::UserNotFound);
}

#[test]
fn application_creation_and_deletion_outcome() {
    let payload = Application {
        id: None,
        organization_id: None,
        application_name: String::from("web"),
    };
    let app = create_application(payload, 0x11, 0x22);
    assert_eq!(app.id, Some(0x22));
    assert_eq!(app.organization_id, Some(0x11));
    assert_eq!(app.application_name, "web");
    assert!(delete_application_outcome(1).is_ok());
    assert_eq!(
        delete_application_outcome(0).unwrap_err(),
        ApiError::ApplicationNotFound
    );
}
