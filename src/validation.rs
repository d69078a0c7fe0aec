//! Field rules for create and update payloads.
use vstd::prelude::*;
use crate::model::{CreateAuthorDto, UpdateAuthorDto, opt_view};

verus! {

/// Whether garde's email parser accepts the text.
pub uninterp spec fn email_accepted(s: Seq<char>) -> bool;

/// Relies on garde::rules::email::parse_email: it accepts or rejects the text
/// as a function of the text alone, and rejects an empty text and one
/// without `@`.
#[verifier::external_body]
fn parse_email_ok(s: &str) -> (r: bool)
    ensures
        r == email_accepted(s@),
        s@.len() == 0 ==> !r,
        !s@.contains('@') ==> !r,
{
    garde::rules::email::parse_email(s).is_ok()
}

/// A rule that a field of a payload breaks.
#[derive(Clone, Copy, Debug, PartialEq, Eq, Structural)]
pub enum FieldError {
    /// The name is not between 2 and 60 characters long.
    NameLength,
    /// The email is not a valid address.
    InvalidEmail,
}

pub const NAME_MIN: usize = 2;
pub const NAME_MAX: usize = 60;

/// A name is valid when it has 2 to 60 characters.
pub open spec fn name_ok(name: Seq<char>) -> bool {
    NAME_MIN <= name.len() <= NAME_MAX
}

/// The violations, in field order, given the verdict on each present field.
pub open spec fn field_errors(name_valid: Option<bool>, email_valid: Option<bool>) -> Seq<FieldError> {
    let a = if name_valid == Some(false) { seq![FieldError::NameLength] } else { Seq::empty() };
    let b = if email_valid == Some(false) { seq![FieldError::InvalidEmail] } else { Seq::empty() };
    a + b
}

/// The violations of a present name and a present email, in field order.
pub open spec fn violations(name: Option<Seq<char>>, email: Option<Seq<char>>) -> Seq<FieldError> {
    field_errors(
        match name { Some(n) => Some(name_ok(n)), None => None },
        match email { Some(e) => Some(email_accepted(e)), None => None },
    )
}

pub open spec fn create_violations(dto: CreateAuthorDto) -> Seq<FieldError> {
    violations(Some(dto.name@), Some(dto.email@))
}

pub open spec fn update_violations(dto: UpdateAuthorDto) -> Seq<FieldError> {
    violations(opt_view(dto.name), opt_view(dto.email))
}

/// Checks a name against the length rule.
pub fn is_valid_name(name: &str) -> (r: bool)
    ensures
        r == name_ok(name@),
{
    let n = name.unicode_len();
    NAME_MIN <= n && n <= NAME_MAX
}

/// Checks an email against the address rule.
pub fn is_valid_email(email: &str) -> (r: bool)
    ensures
        r == email_accepted(email@),
{
    parse_email_ok(email)
}

/// Lists the violations, given the verdict on each field that is present.
pub fn field_errors_of(name_valid: Option<bool>, email_valid: Option<bool>) -> (r: Vec<FieldError>)
    ensures
        r@ == field_errors(name_valid, email_valid),
{
    let mut errors: Vec<FieldError> = Vec::new();
    if name_valid == Some(false) {
        errors.push(FieldError::NameLength);
    }
    if email_valid == Some(false) {
        errors.push(FieldError::InvalidEmail);
    }
    assert(errors@ =~= field_errors(name_valid, email_valid));
    errors
}

fn check_fields(name: Option<&str>, email: Option<&str>) -> (r: Vec<FieldError>)
    ensures
        r@ == violations(
            match name { Some(n) => Some(n@), None => None },
            match email { Some(e) => Some(e@), None => None },
        ),
{
    let name_valid = match name {
        Some(n) => Some(is_valid_name(n)),
        None => None,
    };
    let email_valid = match email {
        Some(e) => Some(is_valid_email(e)),
        None => None,
    };
    field_errors_of(name_valid, email_valid)
}

/// Validates a create payload: both fields are checked.
pub fn validate_create(dto: &CreateAuthorDto) -> (r: Result<(), Vec<FieldError>>)
    ensures
        r is Ok <==> create_violations(*dto).len() == 0,
        r matches Err(v) ==> v@ == create_violations(*dto),
{
    let errors = check_fields(Some(dto.name.as_str()), Some(dto.email.as_str()));
    if errors.len() == 0 {
        Ok(())
    } else {
        Err(errors)
    }
}

/// Validates an update payload: only the fields present are checked.
pub fn validate_update(dto: &UpdateAuthorDto) -> (r: Result<(), Vec<FieldError>>)
    ensures
        r is Ok <==> update_violations(*dto).len() == 0,
        r matches Err(v) ==> v@ == update_violations(*dto),
{
    let name = match &dto.name {
        Some(n) => Some(n.as_str()),
        None => None,
    };
    let email = match &dto.email {
        Some(e) => Some(e.as_str()),
        None => None,
    };
    let errors = check_fields(name, email);
    if errors.len() == 0 {
        Ok(())
    } else {
        Err(errors)
    }
}

} // verus!
