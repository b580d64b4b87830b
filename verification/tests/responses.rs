use account_api::config::Config;
use account_api::dtos::{
    FilterUserDto, UserData, UserListResponseDto, UserLoginResponseDto, UserResponseDto,
};
use account_api::model::{User, UserRole};
use account_api::text::{i64_dec, u64_dec};

fn sample_user(id: &str, role: UserRole) -> User {
    User {
        id: id.to_string(),
        name: "Alice".to_string(),
        email: "alice@example.com".to_string(),
        password: "argon2-hash-value".to_string(),
        verified: true,
        role,
        created_at: 1_700_000_000_000,
        updated_at: 1_700_000_100_000,
    }
}

#[test]
fn filter_user_copies_fields_and_renders_role() {
    let user = sample_user("u-1", UserRole::Admin);
    let dto = FilterUserDto::filter_user(&user);
    assert_eq!(dto.id, "u-1");
    assert_eq!(dto.name, "Alice");
    assert_eq!(dto.email, "alice@example.com");
    assert!(dto.verified);
    assert_eq!(dto.role, "admin");
    assert_eq!(dto.created_at, 1_700_000_000_000);
    assert_eq!(dto.updated_at, 1_700_000_100_000);
}

#[test]
fn filter_user_strips_the_password_hash() {
    let user = sample_user("u-1", UserRole::User);
    let dto = FilterUserDto::filter_user(&user);
    // The outbound shape has no password field at all; nothing it renders
    // can leak the hash.
    let rendered = format!("{:?}", dto);
    assert!(!rendered.contains("argon2-hash-value"));
}

#[test]
fn filter_users_keeps_order_and_length() {
    let users = vec![
        sample_user("u-1", UserRole::Admin),
        sample_user("u-2", UserRole::User),
        sample_user("u-3", UserRole::Moderator),
    ];
    let dtos = FilterUserDto::filter_users(&users);
    assert_eq!(dtos.len(), 3);
    assert_eq!(dtos[0].id, "u-1");
    assert_eq!(dtos[0].role, "admin");
    assert_eq!(dtos[1].id, "u-2");
    assert_eq!(dtos[1].role, "user");
    assert_eq!(dtos[2].id, "u-3");
    assert_eq!(dtos[2].role, "moderator");
}

#[test]
fn role_names_are_canonical() {
    assert_eq!(UserRole::Admin.to_str(), "admin");
    assert_eq!(UserRole::Moderator.to_str(), "moderator");
    assert_eq!(UserRole::User.to_str(), "user");
}

#[test]
fn response_envelopes_carry_their_fields() {
    let user = sample_user("u-1", UserRole::User);
    let single = UserResponseDto {
        status: "success".to_string(),
        data: UserData { user: FilterUserDto::filter_user(&user) },
    };
    assert_eq!(single.status, "success");
    assert_eq!(single.data.user.id, "u-1");
    let listing = UserListResponseDto {
        status: "success".to_string(),
        users: FilterUserDto::filter_users(&vec![user]),
        results: 1,
    };
    assert_eq!(listing.users.len(), 1);
    assert_eq!(listing.results, 1);
    let login = UserLoginResponseDto { status: "success".to_string(), token: "jwt".to_string() };
    assert_eq!(login.status, "success");
    assert_eq!(login.token, "jwt");
}

#[test]
fn config_renders_max_age_and_fixes_port() {
    let c = Config::new("postgres://db".to_string(), "SECRET-REDACTED".to_string(), 3600);
    assert_eq!(c.database_url, "postgres://db");
    assert_eq!(c.jwt_secret, "SECRET-REDACTED");
    assert_eq!(c.jwt_maxage, "3600");
    assert_eq!(c.port, 8080);
    let c = Config::new(String::new(), String::new(), -7);
    assert_eq!(c.jwt_maxage, "-7");
}

#[test]
fn decimal_rendering_handles_edges() {
    assert_eq!(u64_dec(0), "0");
    assert_eq!(u64_dec(10), "10");
    assert_eq!(u64_dec(1_234_567_890), "1234567890");
    assert_eq!(u64_dec(u64::MAX), "18446744073709551615");
    assert_eq!(i64_dec(0), "0");
    assert_eq!(i64_dec(-1), "-1");
    assert_eq!(i64_dec(i64::MIN), "-9223372036854775808");
    assert_eq!(i64_dec(i64::MAX), "9223372036854775807");
}
