use account_api::dtos::{
    ForgotPasswordRequestDto, LoginUserDto, NameUpdateDto, RegisterUserDto, RequestQueryDto,
    ResetPasswordRequestDto, RoleUpdateDto, UserUpdatePasswordDto, VerifyEmailQueryDto,
    validate_user_role,
};
use account_api::model::UserRole;
use account_api::rules::{evaluate, FieldRules, StrRule, Violation};

fn violations(r: Result<(), Vec<Violation>>) -> Vec<(String, String)> {
    r.unwrap_err().into_iter().map(|v| (v.field, v.message)).collect()
}

#[test]
fn register_all_empty_reports_each_required_field() {
    let d = RegisterUserDto {
        name: String::new(),
        email: String::new(),
        password: String::new(),
        password_confirm: String::new(),
    };
    let vs = violations(d.validate());
    assert_eq!(
        vs,
        vec![
            ("name".to_string(), "Name is required".to_string()),
            ("email".to_string(), "Email is required".to_string()),
            ("password".to_string(), "Password is required".to_string()),
        ]
    );
}

#[test]
fn login_all_empty_reports_each_required_field() {
    let d = LoginUserDto { name: String::new(), email: String::new(), password: String::new() };
    let vs = violations(d.validate());
    assert_eq!(
        vs,
        vec![
            ("name".to_string(), "Name is required".to_string()),
            ("email".to_string(), "Email is required".to_string()),
            ("password".to_string(), "Password is required".to_string()),
        ]
    );
}

#[test]
fn update_password_all_empty_reports_each_required_field() {
    let d = UserUpdatePasswordDto {
        new_password: String::new(),
        new_password_confirm: String::new(),
        old_password: String::new(),
    };
    let vs = violations(d.validate());
    assert_eq!(
        vs,
        vec![
            ("new_password".to_string(), "New password is required".to_string()),
            ("new_password_confirm".to_string(), "New password confirm is required".to_string()),
            ("old_password".to_string(), "Old password is required".to_string()),
        ]
    );
}

#[test]
fn reset_password_all_empty_reports_each_required_field() {
    let d = ResetPasswordRequestDto {
        token: String::new(),
        new_password: String::new(),
        new_password_confirm: String::new(),
    };
    let vs = violations(d.validate());
    assert_eq!(
        vs,
        vec![
            ("token".to_string(), "Token is required".to_string()),
            ("new_password".to_string(), "New password is required".to_string()),
            ("new_password_confirm".to_string(), "New password confirm is required".to_string()),
        ]
    );
}

#[test]
fn single_field_payloads_empty_report_required() {
    let vs = violations(NameUpdateDto { name: String::new() }.validate());
    assert_eq!(vs, vec![("name".to_string(), "Name is required".to_string())]);
    let vs = violations(VerifyEmailQueryDto { token: String::new() }.validate());
    assert_eq!(vs, vec![("token".to_string(), "Token is required".to_string())]);
    let vs = violations(ForgotPasswordRequestDto { email: String::new() }.validate());
    assert_eq!(vs, vec![("email".to_string(), "Email is required".to_string())]);
}

#[test]
fn whitespace_only_counts_as_missing() {
    let vs = violations(NameUpdateDto { name: " \t\r\n ".to_string() }.validate());
    assert_eq!(vs, vec![("name".to_string(), "Name is required".to_string())]);
}

#[test]
fn register_short_password_gets_length_message_not_required() {
    let d = RegisterUserDto {
        name: "Alice".to_string(),
        email: "alice@example.com".to_string(),
        password: "abc".to_string(),
        password_confirm: "abc".to_string(),
    };
    let vs = violations(d.validate());
    assert_eq!(
        vs,
        vec![("password".to_string(), "Password must be at least 6 characters".to_string())]
    );
}

#[test]
fn register_valid_payload_passes() {
    let d = RegisterUserDto {
        name: "Alice".to_string(),
        email: "alice@example.com".to_string(),
        password: "secret1".to_string(),
        password_confirm: "secret1".to_string(),
    };
    assert!(d.validate().is_ok());
}

#[test]
fn min_length_counts_characters_not_bytes() {
    let d = NameUpdateDto { name: "señor".to_string() };
    assert!(d.validate().is_ok());
    let d = LoginUserDto {
        name: "n".to_string(),
        email: "a@b.c".to_string(),
        password: "señor1".to_string(),
    };
    assert!(d.validate().is_ok());
}

#[test]
fn email_shape_is_checked() {
    let ok = |email: &str| {
        ForgotPasswordRequestDto { email: email.to_string() }.validate().is_ok()
    };
    assert!(ok("alice@example.com"));
    assert!(ok("a@b.c"));
    assert!(!ok("aliceexample.com"));
    assert!(!ok("@example.com"));
    assert!(!ok("alice@examplecom"));
    let vs = violations(ForgotPasswordRequestDto { email: "no-at-sign".to_string() }.validate());
    assert_eq!(vs, vec![("email".to_string(), "Email is invalid".to_string())]);
}

#[test]
fn reset_password_confirmation_mismatch_fails() {
    let d = ResetPasswordRequestDto {
        token: "tok".to_string(),
        new_password: "secret1".to_string(),
        new_password_confirm: "secret2".to_string(),
    };
    let vs = violations(d.validate());
    assert_eq!(
        vs,
        vec![("new_password_confirm".to_string(), "New Passwords do not match".to_string())]
    );
}

#[test]
fn update_password_confirmation_mismatch_fails() {
    let d = UserUpdatePasswordDto {
        new_password: "secret1".to_string(),
        new_password_confirm: "secret2".to_string(),
        old_password: "oldpass".to_string(),
    };
    let vs = violations(d.validate());
    assert_eq!(
        vs,
        vec![("new_password_confirm".to_string(), "New Passwords do not match".to_string())]
    );
}

#[test]
fn reset_password_matching_confirmation_passes() {
    let d = ResetPasswordRequestDto {
        token: "tok".to_string(),
        new_password: "secret1".to_string(),
        new_password_confirm: "secret1".to_string(),
    };
    assert!(d.validate().is_ok());
}

#[test]
fn role_update_rejects_unsupported_role() {
    let vs = violations(RoleUpdateDto { role: UserRole::Moderator }.validate());
    assert_eq!(vs, vec![("role".to_string(), "invalid_role".to_string())]);
    assert!(RoleUpdateDto { role: UserRole::Admin }.validate().is_ok());
    assert!(RoleUpdateDto { role: UserRole::User }.validate().is_ok());
}

#[test]
fn role_membership_rule_names_its_error_code() {
    assert!(validate_user_role(&UserRole::Admin).is_ok());
    assert!(validate_user_role(&UserRole::User).is_ok());
    assert_eq!(validate_user_role(&UserRole::Moderator).unwrap_err(), "invalid_role");
}

#[test]
fn pagination_batch_zero_fails_minimum() {
    let d = RequestQueryDto { batch: Some(0), limit: None };
    let vs = violations(d.validate());
    assert_eq!(vs, vec![("batch".to_string(), "batch must be at least 1".to_string())]);
}

#[test]
fn pagination_limit_over_maximum_fails() {
    let d = RequestQueryDto { batch: None, limit: Some(51) };
    let vs = violations(d.validate());
    assert_eq!(vs, vec![("limit".to_string(), "limit must be between 1 and 50".to_string())]);
}

#[test]
fn pagination_limit_at_maximum_passes() {
    assert!(RequestQueryDto { batch: None, limit: Some(50) }.validate().is_ok());
    assert!(RequestQueryDto { batch: Some(1), limit: Some(1) }.validate().is_ok());
    assert!(RequestQueryDto { batch: None, limit: None }.validate().is_ok());
}

#[test]
fn pagination_reports_both_out_of_range_parameters() {
    let d = RequestQueryDto { batch: Some(0), limit: Some(51) };
    let vs = violations(d.validate());
    assert_eq!(
        vs,
        vec![
            ("batch".to_string(), "batch must be at least 1".to_string()),
            ("limit".to_string(), "limit must be between 1 and 50".to_string()),
        ]
    );
}

#[test]
fn engine_reports_first_failing_rule_per_field_only() {
    let fields = vec![FieldRules {
        field: "password".to_string(),
        value: String::new(),
        rules: vec![
            StrRule::Required { message: "Password is required".to_string() },
            StrRule::MinLength { min: 6, message: "too short".to_string() },
        ],
    }];
    let vs = violations(evaluate(&fields));
    assert_eq!(vs, vec![("password".to_string(), "Password is required".to_string())]);
}

#[test]
fn engine_passes_when_every_rule_holds() {
    let fields = vec![FieldRules {
        field: "name".to_string(),
        value: "Alice".to_string(),
        rules: vec![
            StrRule::Required { message: "Name is required".to_string() },
            StrRule::MinLength { min: 2, message: "too short".to_string() },
        ],
    }];
    assert!(evaluate(&fields).is_ok());
}

#[test]
fn engine_checks_equality_byte_for_byte() {
    let fields = vec![FieldRules {
        field: "confirm".to_string(),
        value: "Secret".to_string(),
        rules: vec![StrRule::EqualsValue {
            other: "secret".to_string(),
            message: "do not match".to_string(),
        }],
    }];
    let vs = violations(evaluate(&fields));
    assert_eq!(vs, vec![("confirm".to_string(), "do not match".to_string())]);
}
