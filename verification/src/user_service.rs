//! Users: the entity, what creating one takes, the outcomes of looking one up
//! and of creating one, and the two service functions that produce them.

use vstd::prelude::*;
use vstd::string::StringExecFns;
use crate::ident::EntityId;
use crate::ident::hyphenated;
use crate::ident::is_version_four;
use crate::store::Entity;
use crate::store::Store;
use crate::store::StoreError;
use crate::store::consistent;
use crate::store::has_id;
use crate::store::has_unique;
use crate::store::is_nearest_unused;
use crate::store::unused_id;
use crate::store::without_id;
use crate::quote::debug_form;
use crate::quote::debug_quoted;
use crate::validation::FieldError;
use crate::validation::ValidationError;
use crate::validation::byte_len;
use crate::validation::check_name;
use crate::validation::error_views;
use crate::validation::name_errors;
use crate::validation::name_errors_empty_iff_ok;
use crate::validation::name_ok;
use crate::validation::non_empty;

verus! {

/// A user: an identifier assigned on creation, a name of 1 to 200 bytes, and
/// an e-mail address that no other user of the same store has.
#[derive(Debug, Clone, PartialEq, Eq)]
pub struct User {
    pub id: EntityId,
    pub name: String,
    pub email: String,
}

/// What creating a user takes: the identifier is assigned on insertion.
#[derive(Debug, Clone, PartialEq, Eq)]
pub struct CreateUserInput {
    pub name: String,
    pub email: String,
}

impl Entity for User {
    open spec fn key(&self) -> u128 {
        self.id.value
    }

    open spec fn unique_name() -> Seq<char> {
        "email"@
    }

    open spec fn unique_value(&self) -> Seq<char> {
        self.email@
    }

    fn id(&self) -> (r: EntityId) {
        self.id
    }

    fn unique_field(&self) -> (r: (String, String)) {
        ("email".to_owned(), self.email.clone())
    }

    fn duplicate(&self) -> (r: Self) {
        User { id: self.id, name: self.name.clone(), email: self.email.clone() }
    }
}

impl User {
    /// The violated constraints of a user's fields, in the order in which
    /// the fields are checked.
    pub fn validate(&self) -> (errors: Vec<ValidationError>)
        ensures
            error_views(errors@) == name_errors(self.name@),
    {
        check_name(self.name.as_str())
    }

    /// The violated constraints of an input's fields, in the order in which
    /// the fields are checked.
    pub fn validate_input(input: &CreateUserInput) -> (errors: Vec<ValidationError>)
        ensures
            error_views(errors@) == name_errors(input.name@),
    {
        check_name(input.name.as_str())
    }

    /// The user as printed for debugging: the identifier in hyphenated
    /// form, the name and the e-mail address quoted.
    pub open spec fn debug_text(&self) -> Seq<char> {
        "User { id: "@ + hyphenated(self.id.value) + ", name: "@ + debug_form(self.name@)
            + ", email: "@ + debug_form(self.email@) + " }"@
    }

    /// Prints the user for debugging.
    pub fn debug(&self) -> (text: String)
        ensures
            text@ == self.debug_text(),
    {
        let mut text = "User { id: ".to_owned();
        text.append(self.id.to_text().as_str());
        text.append(", name: ");
        text.append(debug_quoted(self.name.as_str()).as_str());
        text.append(", email: ");
        text.append(debug_quoted(self.email.as_str()).as_str());
        text.append(" }");
        text
    }

    /// The user that `input` describes, under the identifier `id`.
    pub fn with_id(input: CreateUserInput, id: EntityId) -> (user: User)
        ensures
            user == (User { id, name: input.name, email: input.email }),
    {
        User { id, name: input.name, email: input.email }
    }

    /// The user that `input` describes, under an identifier drawn at random.
    pub fn from_input(input: CreateUserInput) -> (user: User)
        ensures
            user.name == input.name,
            user.email == input.email,
            is_version_four(user.id.value),
    {
        User::with_id(input, EntityId::random())
    }
}

/// How looking a user up can end.
#[derive(Debug)]
pub enum GetUserByIdResult {
    /// The identifier is well formed and a user has it.
    Found(User),
    /// The identifier is well formed and no user has it; `id` is its
    /// hyphenated form.
    NotFound { id: String },
    /// The text is no identifier; `id` is the text.
    InvalidId { id: String },
}

impl GetUserByIdResult {
    /// The HTTP status that goes with the outcome: 200 for a user found,
    /// 404 for none, 400 for text that is no identifier.
    pub open spec fn status_code(&self) -> u16 {
        match *self {
            GetUserByIdResult::Found(_) => 200,
            GetUserByIdResult::NotFound { .. } => 404,
            GetUserByIdResult::InvalidId { .. } => 400,
        }
    }

    /// The HTTP status that goes with the outcome.
    pub fn http_status(&self) -> (status: u16)
        ensures
            status == self.status_code(),
    {
        match self {
            GetUserByIdResult::Found(_) => 200,
            GetUserByIdResult::NotFound { .. } => 404,
            GetUserByIdResult::InvalidId { .. } => 400,
        }
    }

    /// The outcome in one line.
    pub open spec fn description(&self) -> Seq<char> {
        match *self {
            GetUserByIdResult::Found(user) => "Ok: "@ + user.debug_text(),
            GetUserByIdResult::NotFound { .. } => "Error: not-found"@,
            GetUserByIdResult::InvalidId { .. } => "Error: invalid-id"@,
        }
    }

    /// Writes the outcome in one line.
    pub fn describe(&self) -> (text: String)
        ensures
            text@ == self.description(),
    {
        match self {
            GetUserByIdResult::Found(user) => {
                let mut text = "Ok: ".to_owned();
                text.append(user.debug().as_str());
                text
            },
            GetUserByIdResult::NotFound { .. } => "Error: not-found".to_owned(),
            GetUserByIdResult::InvalidId { .. } => "Error: invalid-id".to_owned(),
        }
    }
}

/// One error as printed for debugging: both fields quoted.
pub open spec fn error_debug_text(error: FieldError) -> Seq<char> {
    "ValidationError { field: "@ + debug_form(error.field) + ", message: "@ + debug_form(
        error.message,
    ) + " }"@
}

/// The errors as printed for debugging, in order, with `, ` between them.
pub open spec fn errors_debug_text(errors: Seq<FieldError>) -> Seq<char>
    decreases errors.len(),
{
    if errors.len() == 0 {
        Seq::empty()
    } else if errors.len() == 1 {
        error_debug_text(errors[0])
    } else {
        errors_debug_text(errors.drop_last()) + ", "@ + error_debug_text(errors.last())
    }
}

/// Prints the errors for debugging, with `, ` between them.
fn errors_debug(errors: &Vec<ValidationError>) -> (text: String)
    ensures
        text@ == errors_debug_text(error_views(errors@)),
{
    let mut text = String::new();
    let mut at: usize = 0;
    while at < errors.len()
        invariant
            at <= errors@.len(),
            text@ == errors_debug_text(error_views(errors@).take(at as int)),
        decreases errors@.len() - at,
    {
        if at > 0 {
            text.append(", ");
        }
        text.append("ValidationError { field: ");
        text.append(debug_quoted(errors[at].field.as_str()).as_str());
        text.append(", message: ");
        text.append(debug_quoted(errors[at].message.as_str()).as_str());
        text.append(" }");
        proof {
            let next = error_views(errors@).take(at + 1);
            assert(next.drop_last() =~= error_views(errors@).take(at as int));
            assert(text@ =~= errors_debug_text(next));
        }
        at += 1;
    }
    assert(error_views(errors@).take(at as int) =~= error_views(errors@));
    text
}

/// How creating a user can end.
#[derive(Debug)]
pub enum CreateUserResult {
    /// The input was valid and the user is now kept.
    Created(User),
    /// The input was valid, but a user with this e-mail address is kept.
    DuplicateEmail { email: String },
    /// The input broke these constraints; the store was not consulted.
    ValidationFailed(Vec<ValidationError>),
}

impl CreateUserResult {
    /// The HTTP status that goes with the outcome: 201 for a user created,
    /// 409 for a taken e-mail address, 422 for an invalid input.
    pub open spec fn status_code(&self) -> u16 {
        match *self {
            CreateUserResult::Created(_) => 201,
            CreateUserResult::DuplicateEmail { .. } => 409,
            CreateUserResult::ValidationFailed(_) => 422,
        }
    }

    /// The HTTP status that goes with the outcome.
    pub fn http_status(&self) -> (status: u16)
        ensures
            status == self.status_code(),
    {
        match self {
            CreateUserResult::Created(_) => 201,
            CreateUserResult::DuplicateEmail { .. } => 409,
            CreateUserResult::ValidationFailed(_) => 422,
        }
    }

    /// The outcome in one line.
    pub open spec fn description(&self) -> Seq<char> {
        match *self {
            CreateUserResult::Created(user) => "Ok: "@ + user.debug_text(),
            CreateUserResult::DuplicateEmail { .. } => "Error: duplicate-email"@,
            CreateUserResult::ValidationFailed(errors) => "Error(validation-failed): ["@
                + errors_debug_text(error_views(errors@)) + "]"@,
        }
    }

    /// Writes the outcome in one line.
    pub fn describe(&self) -> (text: String)
        ensures
            text@ == self.description(),
    {
        match self {
            CreateUserResult::Created(user) => {
                let mut text = "Ok: ".to_owned();
                text.append(user.debug().as_str());
                text
            },
            CreateUserResult::DuplicateEmail { .. } => "Error: duplicate-email".to_owned(),
            CreateUserResult::ValidationFailed(errors) => {
                let mut text = "Error(validation-failed): [".to_owned();
                text.append(errors_debug(errors).as_str());
                text.append("]");
                text
            },
        }
    }
}

/// Whether `outcome` is what looking up `raw` owes, given the users kept and
/// the identifier that `raw` was read as.
pub open spec fn is_lookup_outcome(
    users: Seq<User>,
    raw: Seq<char>,
    parsed: Option<EntityId>,
    outcome: GetUserByIdResult,
) -> bool {
    match parsed {
        None => match outcome {
            GetUserByIdResult::InvalidId { id } => id@ == raw,
            _ => false,
        },
        Some(wanted) => if has_id(users, wanted.value) {
            match outcome {
                GetUserByIdResult::Found(user) => user.id == wanted && users.contains(user),
                _ => false,
            }
        } else {
            match outcome {
                GetUserByIdResult::NotFound { id } => id@ == hyphenated(wanted.value),
                _ => false,
            }
        },
    }
}

/// Looks up the user whose identifier `raw` was read as; `parsed` is `None`
/// where `raw` is no identifier.
pub fn lookup_parsed<S: Store<User>>(store: &S, raw: &str, parsed: Option<EntityId>) -> (outcome:
    GetUserByIdResult)
    ensures
        is_lookup_outcome(store.entities(), raw@, parsed, outcome),
        outcome is Found ==> consistent(store.entities()),
{
    match parsed {
        None => GetUserByIdResult::InvalidId { id: raw.to_owned() },
        Some(wanted) => match store.query_by_id(&wanted) {
            None => GetUserByIdResult::NotFound { id: wanted.to_text() },
            Some(user) => {
                proof {
                    let at = store.entities().index_of(user);
                    assert(store.entities()[at].key() == wanted.value);
                }
                GetUserByIdResult::Found(user)
            },
        },
    }
}

/// Looks up the user with the identifier written in `id`. Text that is no
/// identifier is answered without asking the store.
pub fn get_user_by_id<S: Store<User>>(store: &S, id: &str) -> (outcome: GetUserByIdResult)
    ensures
        is_lookup_outcome(store.entities(), id@, EntityId::parsed(id@), outcome),
        outcome is Found ==> consistent(store.entities()),
{
    lookup_parsed(store, id, EntityId::parse(id))
}

/// Looks up the user with the identifier `id` by its written form. The text
/// that an identifier is written as is read as that identifier, so a user is
/// found under the text that its creation reported.
pub fn find_user<S: Store<User>>(store: &S, id: &EntityId) -> (outcome: GetUserByIdResult)
    ensures
        is_lookup_outcome(store.entities(), hyphenated(id.value), Some(*id), outcome),
        outcome is Found ==> consistent(store.entities()),
        !(outcome is InvalidId),
{
    let text = id.to_text();
    get_user_by_id(store, text.as_str())
}

/// Whether `outcome` and the users kept afterwards are what creating a user
/// from an input with this name and this e-mail address owes. Validation
/// comes first: an invalid input is never reported as a duplicate.
pub open spec fn is_create_outcome(
    before: Seq<User>,
    name: Seq<char>,
    email: Seq<char>,
    outcome: CreateUserResult,
    after: Seq<User>,
) -> bool {
    if !name_ok(name) {
        match outcome {
            CreateUserResult::ValidationFailed(errors) => error_views(errors@) == name_errors(name)
                && after == before,
            _ => false,
        }
    } else if has_unique(before, email) {
        match outcome {
            CreateUserResult::DuplicateEmail { email: taken } => taken@ == email && after
                == before,
            _ => false,
        }
    } else {
        match outcome {
            CreateUserResult::Created(user) => user.name@ == name && user.email@ == email
                && !has_id(before, user.id.value) && after == before.push(user),
            _ => false,
        }
    }
}

/// Creates a user from `input` under the first identifier, counting from
/// `candidate`, that no user of the store has.
pub fn create_user_with_id<S: Store<User>>(
    store: &mut S,
    input: CreateUserInput,
    candidate: EntityId,
) -> (outcome: CreateUserResult)
    ensures
        consistent(old(store).entities()) ==> consistent(final(store).entities()),
        is_create_outcome(
            old(store).entities(),
            input.name@,
            input.email@,
            outcome,
            final(store).entities(),
        ),
        match outcome {
            CreateUserResult::Created(user) => is_nearest_unused(
                old(store).entities(),
                candidate.value,
                user.id.value,
            ),
            _ => true,
        },
{
    let errors = User::validate_input(&input);
    proof {
        name_errors_empty_iff_ok(input.name@);
    }
    if non_empty(&errors) {
        CreateUserResult::ValidationFailed(errors)
    } else {
        let id = unused_id(&*store, candidate);
        let email = input.email.clone();
        match store.insert(User::with_id(input, id)) {
            Ok(user) => CreateUserResult::Created(user),
            Err(StoreError::UniqueViolation { .. }) => CreateUserResult::DuplicateEmail { email },
        }
    }
}

/// Creates a user from `input` under a freshly drawn identifier.
pub fn create_user<S: Store<User>>(store: &mut S, input: CreateUserInput) -> (outcome:
    CreateUserResult)
    ensures
        consistent(old(store).entities()) ==> consistent(final(store).entities()),
        is_create_outcome(
            old(store).entities(),
            input.name@,
            input.email@,
            outcome,
            final(store).entities(),
        ),
{
    create_user_with_id(store, input, EntityId::random())
}

/// The users kept after a request to delete the one whose identifier was
/// read as `parsed`: text that is no identifier deletes nothing.
pub open spec fn after_delete(users: Seq<User>, parsed: Option<EntityId>) -> Seq<User> {
    match parsed {
        Some(id) => without_id(users, id.value),
        None => users,
    }
}

/// Deletes the user whose identifier was read as `parsed`, if it was read
/// at all.
pub fn delete_parsed<S: Store<User>>(store: &mut S, parsed: Option<EntityId>)
    ensures
        final(store).entities() == after_delete(old(store).entities(), parsed),
{
    match parsed {
        Some(id) => store.delete(&id),
        None => {},
    }
}

/// Deletes the user with the identifier written in `id`. A user that is
/// not kept, and text that is no identifier, change nothing.
pub fn delete_user_by_id<S: Store<User>>(store: &mut S, id: &str)
    ensures
        final(store).entities() == after_delete(old(store).entities(), EntityId::parsed(id@)),
{
    delete_parsed(store, EntityId::parse(id))
}

/// An input whose name is empty or longer than 200 bytes is answered with
/// `ValidationFailed` holding one error, on the name, and nothing is
/// inserted, whatever its e-mail address.
pub proof fn invalid_name_is_rejected(
    before: Seq<User>,
    name: Seq<char>,
    email: Seq<char>,
    outcome: CreateUserResult,
    after: Seq<User>,
)
    requires
        is_create_outcome(before, name, email, outcome, after),
        byte_len(name) == 0 || byte_len(name) > 200,
    ensures
        outcome is ValidationFailed,
        outcome.status_code() == 422,
        error_views(outcome->ValidationFailed_0@).len() == 1,
        error_views(outcome->ValidationFailed_0@)[0].field == "name"@,
        after == before,
{
    name_errors_empty_iff_ok(name);
}

/// A valid input whose e-mail address no user has is answered with
/// `Created`: the user has the input's fields and an identifier that no
/// user had before, and is kept after all the others.
pub proof fn fresh_email_is_created(
    before: Seq<User>,
    name: Seq<char>,
    email: Seq<char>,
    outcome: CreateUserResult,
    after: Seq<User>,
)
    requires
        is_create_outcome(before, name, email, outcome, after),
        1 <= byte_len(name) <= 200,
        !has_unique(before, email),
    ensures
        outcome is Created,
        outcome.status_code() == 201,
        outcome->Created_0.name@ == name,
        outcome->Created_0.email@ == email,
        forall|i: int| 0 <= i < before.len() ==> before[i].id != outcome->Created_0.id,
        after == before.push(outcome->Created_0),
        consistent(before) ==> consistent(after),
{
    let user = outcome->Created_0;
    assert forall|i: int| 0 <= i < before.len() implies before[i].id != user.id by {
        if before[i].id == user.id {
            assert(before[i].key() == user.id.value);
        }
    }
    if consistent(before) {
        assert forall|i: int, j: int| 0 <= i < j < after.len() implies after[i].key()
            != after[j].key() && after[i].unique_value() != after[j].unique_value() by {
            assert(after[i] == before[i]);
            if j == before.len() {
                assert(after[j] == user);
                assert(before[i].key() != user.id.value);
                assert(before[i].unique_value() != email);
            } else {
                assert(after[j] == before[j]);
                assert(before[i].key() != before[j].key());
            }
        }
    }
}

/// A valid input whose e-mail address a user already has is answered with
/// `DuplicateEmail`, and the store keeps what it kept.
pub proof fn taken_email_is_refused(
    before: Seq<User>,
    name: Seq<char>,
    email: Seq<char>,
    outcome: CreateUserResult,
    after: Seq<User>,
)
    requires
        is_create_outcome(before, name, email, outcome, after),
        1 <= byte_len(name) <= 200,
        has_unique(before, email),
    ensures
        outcome is DuplicateEmail,
        outcome.status_code() == 409,
        outcome->DuplicateEmail_email@ == email,
        after == before,
        after.len() == before.len(),
{
}

/// Text that is no identifier is answered with `InvalidId`, whatever the
/// store keeps.
pub proof fn malformed_id_is_invalid(users: Seq<User>, raw: Seq<char>, outcome: GetUserByIdResult)
    requires
        is_lookup_outcome(users, raw, EntityId::parsed(raw), outcome),
        EntityId::parsed(raw) is None,
    ensures
        outcome is InvalidId,
        outcome.status_code() == 400,
        outcome->InvalidId_id@ == raw,
{
}

/// A well-formed identifier that no user has is answered with `NotFound`.
pub proof fn unused_id_is_not_found(users: Seq<User>, raw: Seq<char>, outcome: GetUserByIdResult)
    requires
        is_lookup_outcome(users, raw, EntityId::parsed(raw), outcome),
        EntityId::parsed(raw) is Some,
        !has_id(users, EntityId::parsed(raw)->0.value),
    ensures
        outcome is NotFound,
        outcome.status_code() == 404,
        outcome->NotFound_id@ == hyphenated(EntityId::parsed(raw)->0.value),
{
}

/// A well-formed identifier that a user of a consistent store has is
/// answered with `Found` and that user, the only one with the identifier.
pub proof fn used_id_is_found(users: Seq<User>, raw: Seq<char>, outcome: GetUserByIdResult, at: int)
    requires
        is_lookup_outcome(users, raw, EntityId::parsed(raw), outcome),
        consistent(users),
        0 <= at < users.len(),
        EntityId::parsed(raw) == Some(users[at].id),
    ensures
        outcome is Found,
        outcome.status_code() == 200,
        outcome->Found_0 == users[at],
{
    assert(users[at].key() == users[at].id.value);
    let found = outcome->Found_0;
    let i = choose|i: int| 0 <= i < users.len() && users[i] == found;
    if i < at {
        assert(users[i].key() != users[at].key());
    } else if at < i {
        assert(users[at].key() != users[i].key());
    }
}

} // verus!
