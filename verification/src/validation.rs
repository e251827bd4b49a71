//! Field-level validation: every check runs, and every violation is reported,
//! in the order in which the fields are checked.

use vstd::prelude::*;

verus! {

/// The least number of bytes a name may have.
pub const MIN_NAME_LEN: usize = 1;

/// The greatest number of bytes a name may have.
pub const MAX_NAME_LEN: usize = 200;

/// One violated field constraint: the field's name and a message for people.
#[derive(Debug, Clone, PartialEq, Eq)]
pub struct ValidationError {
    pub field: String,
    pub message: String,
}

/// A `ValidationError` as plain text.
pub struct FieldError {
    pub field: Seq<char>,
    pub message: Seq<char>,
}

impl View for ValidationError {
    type V = FieldError;

    open spec fn view(&self) -> FieldError {
        FieldError { field: self.field@, message: self.message@ }
    }
}

/// A list of errors as plain text, in the same order.
pub open spec fn error_views(errors: Seq<ValidationError>) -> Seq<FieldError> {
    errors.map_values(|e: ValidationError| e@)
}

/// The length of a text in bytes, as UTF-8.
pub open spec fn byte_len(text: Seq<char>) -> nat {
    vstd::utf8::encode_utf8(text).len()
}

/// The error reported for a name shorter than `MIN_NAME_LEN`.
pub open spec fn name_too_short() -> FieldError {
    FieldError { field: "name"@, message: "must be at least 1 characters"@ }
}

/// The error reported for a name longer than `MAX_NAME_LEN`.
pub open spec fn name_too_long() -> FieldError {
    FieldError { field: "name"@, message: "must be at most 200 characters"@ }
}

/// The violations of the bounds on a name's length: the lower bound is
/// checked first, then the upper one, each whatever the other found.
pub open spec fn name_errors(name: Seq<char>) -> Seq<FieldError> {
    let short: Seq<FieldError> = if byte_len(name) < MIN_NAME_LEN {
        seq![name_too_short()]
    } else {
        seq![]
    };
    let long: Seq<FieldError> = if byte_len(name) > MAX_NAME_LEN {
        seq![name_too_long()]
    } else {
        seq![]
    };
    short + long
}

/// Whether a name's length is within bounds.
pub open spec fn name_ok(name: Seq<char>) -> bool {
    MIN_NAME_LEN <= byte_len(name) <= MAX_NAME_LEN
}

/// A name is within bounds exactly when no error is reported for it.
pub proof fn name_errors_empty_iff_ok(name: Seq<char>)
    ensures
        name_errors(name).len() == 0 <==> name_ok(name),
        !name_ok(name) ==> name_errors(name).len() == 1,
        byte_len(name) < MIN_NAME_LEN ==> name_errors(name) == seq![name_too_short()],
        byte_len(name) > MAX_NAME_LEN ==> name_errors(name) == seq![name_too_long()],
{
    assert(byte_len(name) < MIN_NAME_LEN ==> name_errors(name) =~= seq![name_too_short()]);
    assert(byte_len(name) > MAX_NAME_LEN ==> name_errors(name) =~= seq![name_too_long()]);
}

/// Whether a list holds anything.
pub fn non_empty<T>(items: &Vec<T>) -> (r: bool)
    ensures
        r == (items@.len() > 0),
{
    items.len() > 0
}

/// Checks the bounds on a name's length.
pub fn check_name(name: &str) -> (errors: Vec<ValidationError>)
    ensures
        error_views(errors@) == name_errors(name@),
{
    let mut errors: Vec<ValidationError> = Vec::new();
    let len: usize = name.as_bytes().len();
    if len < MIN_NAME_LEN {
        errors.push(
            ValidationError {
                field: "name".to_owned(),
                message: "must be at least 1 characters".to_owned(),
            },
        );
    }
    if len > MAX_NAME_LEN {
        errors.push(
            ValidationError {
                field: "name".to_owned(),
                message: "must be at most 200 characters".to_owned(),
            },
        );
    }
    assert(error_views(errors@) =~= name_errors(name@));
    errors
}

} // verus!
