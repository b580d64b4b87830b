//! The request DTO layer: one typed shape per endpoint, each with its
//! declarative validation table, evaluated by the rule engine. A payload is
//! validated once, after deserialization at the boundary; on failure the
//! ordered violation list surfaces as a 400 through the HTTP error mapper,
//! on success the value goes to business logic unchanged. Also the outbound
//! user shapes, which never carry the password hash.

use vstd::prelude::*;
use crate::model::{spec_role_str, User, UserRole};
use crate::rules::{
    evaluate, fields_view, lemma_empty_required_fields, rule_message, violations_of, FieldRules,
    SpecField, SpecRule, StrRule, Violation,
};

verus! {

fn rule_required(message: &str) -> (r: StrRule)
    ensures
        r@ == (SpecRule::Required { message: message@ }),
{
    StrRule::Required { message: message.to_owned() }
}

fn rule_min_length(min: usize, message: &str) -> (r: StrRule)
    ensures
        r@ == (SpecRule::MinLength { min: min as int, message: message@ }),
{
    StrRule::MinLength { min, message: message.to_owned() }
}

fn rule_email(message: &str) -> (r: StrRule)
    ensures
        r@ == (SpecRule::Email { message: message@ }),
{
    StrRule::Email { message: message.to_owned() }
}

fn rule_equals(other: &String, message: &str) -> (r: StrRule)
    ensures
        r@ == (SpecRule::EqualsValue { other: other@, message: message@ }),
{
    StrRule::EqualsValue { other: other.clone(), message: message.to_owned() }
}

/// Registration payload.
#[derive(Debug, Default, Clone)]
pub struct RegisterUserDto {
    pub name: String,
    pub email: String,
    pub password: String,
    pub password_confirm: String,
}

/// The declared validation table of a registration payload, in field
/// declaration order.
pub open spec fn register_fields(d: RegisterUserDto) -> Seq<SpecField> {
    seq![
        SpecField {
            name: "name"@,
            value: d.name@,
            rules: seq![SpecRule::Required { message: "Name is required"@ }],
        },
        SpecField {
            name: "email"@,
            value: d.email@,
            rules: seq![
                SpecRule::Required { message: "Email is required"@ },
                SpecRule::Email { message: "Email is invalid"@ },
            ],
        },
        SpecField {
            name: "password"@,
            value: d.password@,
            rules: seq![
                SpecRule::Required { message: "Password is required"@ },
                SpecRule::MinLength {
                    min: 6,
                    message: "Password must be at least 6 characters"@,
                },
            ],
        },
    ]
}

/// The ordered violations of a registration payload.
pub open spec fn register_violations(d: RegisterUserDto) -> Seq<(Seq<char>, Seq<char>)> {
    violations_of(register_fields(d))
}

impl RegisterUserDto {
    /// Evaluates the payload's validation table: `Ok` exactly when every
    /// rule passes, otherwise the full ordered violation list.
    pub fn validate(&self) -> (r: Result<(), Vec<Violation>>)
        ensures
            (r is Ok <==> register_violations(*self).len() == 0),
            (r matches Err(vs) ==> vs@.map_values(|v: Violation| v@) == register_violations(*self)
                && vs@.len() > 0),
    {
        let mut fields: Vec<FieldRules> = Vec::new();

        let mut name_rules: Vec<StrRule> = Vec::new();
        name_rules.push(rule_required("Name is required"));
        fields.push(FieldRules { field: "name".to_owned(), value: self.name.clone(), rules: name_rules });

        let mut email_rules: Vec<StrRule> = Vec::new();
        email_rules.push(rule_required("Email is required"));
        email_rules.push(rule_email("Email is invalid"));
        fields.push(FieldRules { field: "email".to_owned(), value: self.email.clone(), rules: email_rules });

        let mut password_rules: Vec<StrRule> = Vec::new();
        password_rules.push(rule_required("Password is required"));
        password_rules.push(rule_min_length(6, "Password must be at least 6 characters"));
        fields.push(FieldRules { field: "password".to_owned(), value: self.password.clone(), rules: password_rules });

        proof {
            assert(fields_view(fields@) =~~= register_fields(*self));
        }
        evaluate(&fields)
    }
}

/// Law: a registration payload with every required field empty reports
/// exactly one violation per declared field, in declaration order, each
/// with that field's own required message — no cross-field contamination.
pub proof fn lemma_register_empty_payload(d: RegisterUserDto)
    requires
        d.name@.len() == 0,
        d.email@.len() == 0,
        d.password@.len() == 0,
    ensures
        register_violations(d).len() == 3,
        register_violations(d)[0] == ("name"@, "Name is required"@),
        register_violations(d)[1] == ("email"@, "Email is required"@),
        register_violations(d)[2] == ("password"@, "Password is required"@),
{
    let fs = register_fields(d);
    lemma_empty_required_fields(fs);
    assert(rule_message(fs[0].rules[0]) == "Name is required"@);
    assert(rule_message(fs[1].rules[0]) == "Email is required"@);
    assert(rule_message(fs[2].rules[0]) == "Password is required"@);
}

/// Login payload.
#[derive(Debug, Default, Clone)]
pub struct LoginUserDto {
    pub name: String,
    pub email: String,
    pub password: String,
}

/// The declared validation table of a login payload.
pub open spec fn login_fields(d: LoginUserDto) -> Seq<SpecField> {
    seq![
        SpecField {
            name: "name"@,
            value: d.name@,
            rules: seq![SpecRule::Required { message: "Name is required"@ }],
        },
        SpecField {
            name: "email"@,
            value: d.email@,
            rules: seq![
                SpecRule::Required { message: "Email is required"@ },
                SpecRule::Email { message: "Email is invalid"@ },
            ],
        },
        SpecField {
            name: "password"@,
            value: d.password@,
            rules: seq![
                SpecRule::Required { message: "Password is required"@ },
                SpecRule::MinLength {
                    min: 6,
                    message: "Password must be at least 6 characters"@,
                },
            ],
        },
    ]
}

/// The ordered violations of a login payload.
pub open spec fn login_violations(d: LoginUserDto) -> Seq<(Seq<char>, Seq<char>)> {
    violations_of(login_fields(d))
}

impl LoginUserDto {
    /// Evaluates the payload's validation table.
    pub fn validate(&self) -> (r: Result<(), Vec<Violation>>)
        ensures
            (r is Ok <==> login_violations(*self).len() == 0),
            (r matches Err(vs) ==> vs@.map_values(|v: Violation| v@) == login_violations(*self)
                && vs@.len() > 0),
    {
        let mut fields: Vec<FieldRules> = Vec::new();

        let mut name_rules: Vec<StrRule> = Vec::new();
        name_rules.push(rule_required("Name is required"));
        fields.push(FieldRules { field: "name".to_owned(), value: self.name.clone(), rules: name_rules });

        let mut email_rules: Vec<StrRule> = Vec::new();
        email_rules.push(rule_required("Email is required"));
        email_rules.push(rule_email("Email is invalid"));
        fields.push(FieldRules { field: "email".to_owned(), value: self.email.clone(), rules: email_rules });

        let mut password_rules: Vec<StrRule> = Vec::new();
        password_rules.push(rule_required("Password is required"));
        password_rules.push(rule_min_length(6, "Password must be at least 6 characters"));
        fields.push(FieldRules { field: "password".to_owned(), value: self.password.clone(), rules: password_rules });

        proof {
            assert(fields_view(fields@) =~~= login_fields(*self));
        }
        evaluate(&fields)
    }
}

/// Pagination query parameters. A missing parameter passes; a present one
/// must lie in its inclusive range: `batch` at least 1, `limit` between 1
/// and 50.
#[derive(Debug, Default, Clone)]
pub struct RequestQueryDto {
    pub batch: Option<usize>,
    pub limit: Option<usize>,
}

/// The ordered violations of a pagination query.
pub open spec fn query_violations(d: RequestQueryDto) -> Seq<(Seq<char>, Seq<char>)> {
    (if d.batch matches Some(b) && b < 1 {
        seq![("batch"@, "batch must be at least 1"@)]
    } else {
        Seq::<(Seq<char>, Seq<char>)>::empty()
    }) + (if d.limit matches Some(l) && !(1 <= l <= 50) {
        seq![("limit"@, "limit must be between 1 and 50"@)]
    } else {
        Seq::<(Seq<char>, Seq<char>)>::empty()
    })
}

impl RequestQueryDto {
    /// Range-checks the present parameters, reporting every out-of-range one
    /// in declaration order.
    pub fn validate(&self) -> (r: Result<(), Vec<Violation>>)
        ensures
            (r is Ok <==> query_violations(*self).len() == 0),
            (r matches Err(vs) ==> vs@.map_values(|v: Violation| v@) == query_violations(*self)
                && vs@.len() > 0),
    {
        let mut out: Vec<Violation> = Vec::new();
        if let Some(b) = self.batch {
            if b < 1 {
                out.push(
                    Violation {
                        field: "batch".to_owned(),
                        message: "batch must be at least 1".to_owned(),
                    },
                );
            }
        }
        if let Some(l) = self.limit {
            if l < 1 || l > 50 {
                out.push(
                    Violation {
                        field: "limit".to_owned(),
                        message: "limit must be between 1 and 50".to_owned(),
                    },
                );
            }
        }
        proof {
            assert(out@.map_values(|v: Violation| v@) =~~= query_violations(*self));
        }
        if out.len() == 0 {
            Ok(())
        } else {
            Err(out)
        }
    }
}

/// Outbound user shape: every stored field except the password hash, which
/// must never appear in any outbound payload — this type has no field that
/// could carry it.
#[derive(Debug, Clone)]
pub struct FilterUserDto {
    pub id: String,
    pub email: String,
    pub role: String,
    pub verified: bool,
    pub name: String,
    pub created_at: i64,
    pub updated_at: i64,
}

/// The outbound shape a stored record filters to: fields copied over, the
/// role rendered as its canonical name, and no password hash.
pub open spec fn filters_to(u: User, f: FilterUserDto) -> bool {
    &&& f.id@ == u.id@
    &&& f.name@ == u.name@
    &&& f.email@ == u.email@
    &&& f.verified == u.verified
    &&& f.role@ == spec_role_str(u.role)
    &&& f.created_at == u.created_at
    &&& f.updated_at == u.updated_at
}

impl FilterUserDto {
    /// Filters one stored record to its outbound shape.
    pub fn filter_user(user: &User) -> (r: FilterUserDto)
        ensures
            filters_to(*user, r),
    {
        FilterUserDto {
            id: user.id.clone(),
            name: user.name.clone(),
            email: user.email.clone(),
            verified: user.verified,
            role: user.role.to_str().to_owned(),
            created_at: user.created_at,
            updated_at: user.updated_at,
        }
    }

    /// Filters a listing of stored records, keeping the order.
    pub fn filter_users(user: &[User]) -> (r: Vec<FilterUserDto>)
        ensures
            r@.len() == user@.len(),
            forall|i: int| 0 <= i < user@.len() ==> filters_to(user@[i], #[trigger] r@[i]),
    {
        let mut out: Vec<FilterUserDto> = Vec::new();
        let n = user.len();
        let mut i: usize = 0;
        while i < n
            invariant
                n == user@.len(),
                i <= n,
                out@.len() == i,
                forall|k: int| 0 <= k < i ==> filters_to(user@[k], #[trigger] out@[k]),
            decreases n - i,
        {
            out.push(FilterUserDto::filter_user(&user[i]));
            i = i + 1;
        }
        out
    }
}

/// Wrapper for a single-user success envelope.
#[derive(Debug, Clone)]
pub struct UserData {
    pub user: FilterUserDto,
}

/// Success envelope for a single-user response.
#[derive(Debug, Clone)]
pub struct UserResponseDto {
    pub status: String,
    pub data: UserData,
}

/// Success envelope for a user listing.
#[derive(Debug, Clone)]
pub struct UserListResponseDto {
    pub status: String,
    pub users: Vec<FilterUserDto>,
    pub results: i64,
}

/// Success envelope for a login: the signed token.
#[derive(Debug, Clone)]
pub struct UserLoginResponseDto {
    pub status: String,
    pub token: String,
}

/// Display-name update payload.
#[derive(Debug, Default, Clone)]
pub struct NameUpdateDto {
    pub name: String,
}

/// The declared validation table of a name update.
pub open spec fn name_update_fields(d: NameUpdateDto) -> Seq<SpecField> {
    seq![
        SpecField {
            name: "name"@,
            value: d.name@,
            rules: seq![SpecRule::Required { message: "Name is required"@ }],
        },
    ]
}

/// The ordered violations of a name update.
pub open spec fn name_update_violations(d: NameUpdateDto) -> Seq<(Seq<char>, Seq<char>)> {
    violations_of(name_update_fields(d))
}

impl NameUpdateDto {
    /// Evaluates the payload's validation table.
    pub fn validate(&self) -> (r: Result<(), Vec<Violation>>)
        ensures
            (r is Ok <==> name_update_violations(*self).len() == 0),
            (r matches Err(vs) ==> vs@.map_values(|v: Violation| v@) == name_update_violations(
                *self,
            ) && vs@.len() > 0),
    {
        let mut fields: Vec<FieldRules> = Vec::new();

        let mut name_rules: Vec<StrRule> = Vec::new();
        name_rules.push(rule_required("Name is required"));
        fields.push(FieldRules { field: "name".to_owned(), value: self.name.clone(), rules: name_rules });

        proof {
            assert(fields_view(fields@) =~~= name_update_fields(*self));
        }
        evaluate(&fields)
    }
}

/// Role update payload. Deserialization success and semantic validity are
/// distinct gates: a role may parse and still be rejected here.
#[derive(Debug, Clone)]
pub struct RoleUpdateDto {
    pub role: UserRole,
}

/// The custom role-membership rule: only `Admin` and `User` are accepted;
/// any other parsed role fails with the error code `invalid_role`.
pub fn validate_user_role(role: &UserRole) -> (r: Result<(), String>)
    ensures
        (r is Ok <==> (*role is Admin || *role is User)),
        (r matches Err(m) ==> m@ == "invalid_role"@),
{
    match role {
        UserRole::Admin | UserRole::User => Ok(()),
        _ => Err("invalid_role".to_owned()),
    }
}

/// The ordered violations of a role update: empty, or the one
/// role-membership failure.
pub open spec fn role_violations(d: RoleUpdateDto) -> Seq<(Seq<char>, Seq<char>)> {
    if d.role is Admin || d.role is User {
        Seq::<(Seq<char>, Seq<char>)>::empty()
    } else {
        seq![("role"@, "invalid_role"@)]
    }
}

impl RoleUpdateDto {
    /// Applies the custom role-membership rule.
    pub fn validate(&self) -> (r: Result<(), Vec<Violation>>)
        ensures
            (r is Ok <==> role_violations(*self).len() == 0),
            (r matches Err(vs) ==> vs@.map_values(|v: Violation| v@) == role_violations(*self)
                && vs@.len() > 0),
    {
        match validate_user_role(&self.role) {
            Ok(()) => Ok(()),
            Err(code) => {
                let mut out: Vec<Violation> = Vec::new();
                out.push(Violation { field: "role".to_owned(), message: code });
                proof {
                    assert(out@.map_values(|v: Violation| v@) =~~= role_violations(*self));
                }
                Err(out)
            },
        }
    }
}

/// Password change payload for a signed-in user.
#[derive(Debug, Default, Clone)]
pub struct UserUpdatePasswordDto {
    pub new_password: String,
    pub new_password_confirm: String,
    pub old_password: String,
}

/// The declared validation table of a password change, in field declaration
/// order; the confirmation must equal the new password character for
/// character.
pub open spec fn password_update_fields(d: UserUpdatePasswordDto) -> Seq<SpecField> {
    seq![
        SpecField {
            name: "new_password"@,
            value: d.new_password@,
            rules: seq![
                SpecRule::Required { message: "New password is required"@ },
                SpecRule::MinLength {
                    min: 6,
                    message: "New password must be at least 6 characters"@,
                },
            ],
        },
        SpecField {
            name: "new_password_confirm"@,
            value: d.new_password_confirm@,
            rules: seq![
                SpecRule::Required { message: "New password confirm is required"@ },
                SpecRule::MinLength {
                    min: 6,
                    message: "New password confirm must be at least 6 characters"@,
                },
                SpecRule::EqualsValue {
                    other: d.new_password@,
                    message: "New Passwords do not match"@,
                },
            ],
        },
        SpecField {
            name: "old_password"@,
            value: d.old_password@,
            rules: seq![
                SpecRule::Required { message: "Old password is required"@ },
                SpecRule::MinLength {
                    min: 6,
                    message: "Old password must be at least 6 characters"@,
                },
            ],
        },
    ]
}

/// The ordered violations of a password change.
pub open spec fn password_update_violations(d: UserUpdatePasswordDto) -> Seq<
    (Seq<char>, Seq<char>),
> {
    violations_of(password_update_fields(d))
}

impl UserUpdatePasswordDto {
    /// Evaluates the payload's validation table.
    pub fn validate(&self) -> (r: Result<(), Vec<Violation>>)
        ensures
            (r is Ok <==> password_update_violations(*self).len() == 0),
            (r matches Err(vs) ==> vs@.map_values(|v: Violation| v@)
                == password_update_violations(*self) && vs@.len() > 0),
    {
        let mut fields: Vec<FieldRules> = Vec::new();

        let mut new_rules: Vec<StrRule> = Vec::new();
        new_rules.push(rule_required("New password is required"));
        new_rules.push(rule_min_length(6, "New password must be at least 6 characters"));
        fields.push(
            FieldRules {
                field: "new_password".to_owned(),
                value: self.new_password.clone(),
                rules: new_rules,
            },
        );

        let mut confirm_rules: Vec<StrRule> = Vec::new();
        confirm_rules.push(rule_required("New password confirm is required"));
        confirm_rules.push(rule_min_length(6, "New password confirm must be at least 6 characters"));
        confirm_rules.push(rule_equals(&self.new_password, "New Passwords do not match"));
        fields.push(
            FieldRules {
                field: "new_password_confirm".to_owned(),
                value: self.new_password_confirm.clone(),
                rules: confirm_rules,
            },
        );

        let mut old_rules: Vec<StrRule> = Vec::new();
        old_rules.push(rule_required("Old password is required"));
        old_rules.push(rule_min_length(6, "Old password must be at least 6 characters"));
        fields.push(
            FieldRules {
                field: "old_password".to_owned(),
                value: self.old_password.clone(),
                rules: old_rules,
            },
        );

        proof {
            assert(fields_view(fields@) =~~= password_update_fields(*self));
        }
        evaluate(&fields)
    }
}

/// Email-verification query payload.
pub struct VerifyEmailQueryDto {
    pub token: String,
}

/// The declared validation table of an email-verification query.
pub open spec fn verify_email_fields(d: VerifyEmailQueryDto) -> Seq<SpecField> {
    seq![
        SpecField {
            name: "token"@,
            value: d.token@,
            rules: seq![SpecRule::Required { message: "Token is required"@ }],
        },
    ]
}

/// The ordered violations of an email-verification query.
pub open spec fn verify_email_violations(d: VerifyEmailQueryDto) -> Seq<(Seq<char>, Seq<char>)> {
    violations_of(verify_email_fields(d))
}

impl VerifyEmailQueryDto {
    /// Evaluates the payload's validation table.
    pub fn validate(&self) -> (r: Result<(), Vec<Violation>>)
        ensures
            (r is Ok <==> verify_email_violations(*self).len() == 0),
            (r matches Err(vs) ==> vs@.map_values(|v: Violation| v@) == verify_email_violations(
                *self,
            ) && vs@.len() > 0),
    {
        let mut fields: Vec<FieldRules> = Vec::new();

        let mut token_rules: Vec<StrRule> = Vec::new();
        token_rules.push(rule_required("Token is required"));
        fields.push(
            FieldRules { field: "token".to_owned(), value: self.token.clone(), rules: token_rules },
        );

        proof {
            assert(fields_view(fields@) =~~= verify_email_fields(*self));
        }
        evaluate(&fields)
    }
}

/// Password-reset request payload: the account's email.
pub struct ForgotPasswordRequestDto {
    pub email: String,
}

/// The declared validation table of a password-reset request.
pub open spec fn forgot_password_fields(d: ForgotPasswordRequestDto) -> Seq<SpecField> {
    seq![
        SpecField {
            name: "email"@,
            value: d.email@,
            rules: seq![
                SpecRule::Required { message: "Email is required"@ },
                SpecRule::Email { message: "Email is invalid"@ },
            ],
        },
    ]
}

/// The ordered violations of a password-reset request.
pub open spec fn forgot_password_violations(d: ForgotPasswordRequestDto) -> Seq<
    (Seq<char>, Seq<char>),
> {
    violations_of(forgot_password_fields(d))
}

impl ForgotPasswordRequestDto {
    /// Evaluates the payload's validation table.
    pub fn validate(&self) -> (r: Result<(), Vec<Violation>>)
        ensures
            (r is Ok <==> forgot_password_violations(*self).len() == 0),
            (r matches Err(vs) ==> vs@.map_values(|v: Violation| v@)
                == forgot_password_violations(*self) && vs@.len() > 0),
    {
        let mut fields: Vec<FieldRules> = Vec::new();

        let mut email_rules: Vec<StrRule> = Vec::new();
        email_rules.push(rule_required("Email is required"));
        email_rules.push(rule_email("Email is invalid"));
        fields.push(
            FieldRules { field: "email".to_owned(), value: self.email.clone(), rules: email_rules },
        );

        proof {
            assert(fields_view(fields@) =~~= forgot_password_fields(*self));
        }
        evaluate(&fields)
    }
}

/// Password-reset completion payload: the emailed token and the new
/// password with its confirmation.
#[derive(Debug, Default, Clone)]
pub struct ResetPasswordRequestDto {
    pub token: String,
    pub new_password: String,
    pub new_password_confirm: String,
}

/// The declared validation table of a password reset, in field declaration
/// order; the confirmation must equal the new password character for
/// character.
pub open spec fn reset_password_fields(d: ResetPasswordRequestDto) -> Seq<SpecField> {
    seq![
        SpecField {
            name: "token"@,
            value: d.token@,
            rules: seq![SpecRule::Required { message: "Token is required"@ }],
        },
        SpecField {
            name: "new_password"@,
            value: d.new_password@,
            rules: seq![
                SpecRule::Required { message: "New password is required"@ },
                SpecRule::MinLength {
                    min: 6,
                    message: "New password must be at least 6 characters"@,
                },
            ],
        },
        SpecField {
            name: "new_password_confirm"@,
            value: d.new_password_confirm@,
            rules: seq![
                SpecRule::Required { message: "New password confirm is required"@ },
                SpecRule::MinLength {
                    min: 6,
                    message: "New password confirm must be at least 6 characters"@,
                },
                SpecRule::EqualsValue {
                    other: d.new_password@,
                    message: "New Passwords do not match"@,
                },
            ],
        },
    ]
}

/// The ordered violations of a password reset.
pub open spec fn reset_password_violations(d: ResetPasswordRequestDto) -> Seq<
    (Seq<char>, Seq<char>),
> {
    violations_of(reset_password_fields(d))
}

impl ResetPasswordRequestDto {
    /// Evaluates the payload's validation table.
    pub fn validate(&self) -> (r: Result<(), Vec<Violation>>)
        ensures
            (r is Ok <==> reset_password_violations(*self).len() == 0),
            (r matches Err(vs) ==> vs@.map_values(|v: Violation| v@) == reset_password_violations(
                *self,
            ) && vs@.len() > 0),
    {
        let mut fields: Vec<FieldRules> = Vec::new();

        let mut token_rules: Vec<StrRule> = Vec::new();
        token_rules.push(rule_required("Token is required"));
        fields.push(
            FieldRules { field: "token".to_owned(), value: self.token.clone(), rules: token_rules },
        );

        let mut new_rules: Vec<StrRule> = Vec::new();
        new_rules.push(rule_required("New password is required"));
        new_rules.push(rule_min_length(6, "New password must be at least 6 characters"));
        fields.push(
            FieldRules {
                field: "new_password".to_owned(),
                value: self.new_password.clone(),
                rules: new_rules,
            },
        );

        let mut confirm_rules: Vec<StrRule> = Vec::new();
        confirm_rules.push(rule_required("New password confirm is required"));
        confirm_rules.push(rule_min_length(6, "New password confirm must be at least 6 characters"));
        confirm_rules.push(rule_equals(&self.new_password, "New Passwords do not match"));
        fields.push(
            FieldRules {
                field: "new_password_confirm".to_owned(),
                value: self.new_password_confirm.clone(),
                rules: confirm_rules,
            },
        );

        proof {
            assert(fields_view(fields@) =~~= reset_password_fields(*self));
        }
        evaluate(&fields)
    }
}

} // verus!
