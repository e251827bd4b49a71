//! The pages of the user directory: what is shown for the list of users, for
//! the form that creates one, and for each outcome of creating one and of
//! looking one up.

use vstd::prelude::*;
use vstd::string::StringExecFns;
use vstd::string::StrSliceExecFns;
use crate::html::alert_text;
use crate::html::form_text;
use crate::html::html_alert;
use crate::html::html_form;
use crate::html::html_page;
use crate::html::html_table;
use crate::html::page_text;
use crate::html::row_views;
use crate::html::str_views;
use crate::html::string_views;
use crate::html::table_text;
use crate::html::triple_views;
use crate::ident::EntityId;
use crate::ident::hyphenated;
use crate::user_service::CreateUserResult;
use crate::user_service::GetUserByIdResult;
use crate::user_service::User;
use crate::validation::FieldError;
use crate::validation::ValidationError;
use crate::validation::error_views;

verus! {

// The fixed parts of the pages, named after what follows each of them.

pub const USER_LINK_OPEN: &'static str = "<a href=\"/users/";

pub const USER_LINK_LABEL: &'static str = "\" class=\"text-indigo-600 hover:text-indigo-800\">";

pub const USER_LINK_CLOSE: &'static str = "</a>";

pub const DELETE_FORM_OPEN: &'static str = "<form method=\"POST\" action=\"/users/";

pub const DELETE_FORM_CLOSE: &'static str =
    "/delete\" class=\"inline\">\n                        <button type=\"submit\" class=\"text-red-600 hover:text-red-800 text-sm\">Delete</button>\n                    </form>";

pub const NO_USERS: &'static str =
    "<h1 class=\"text-2xl font-bold mb-6\">Users</h1>\n            <p class=\"text-gray-500\">No users yet. <a href=\"/users/new\" class=\"text-indigo-600 hover:underline\">Create one</a>.</p>";

pub const USERS_HEADING_OPEN: &'static str = "<h1 class=\"text-2xl font-bold mb-6\">Users (";

pub const USERS_HEADING_CLOSE: &'static str = ")</h1>";

pub const CREATE_HEADING: &'static str = "<h1 class=\"text-2xl font-bold mb-6\">Create User</h1>";

pub const AFTER_ALERT: &'static str = "\n                ";

pub const DETAILS_OPEN: &'static str =
    "<h1 class=\"text-2xl font-bold mb-6\">User Details</h1>\n                <div class=\"bg-white shadow rounded-lg p-6\">\n                    <dl class=\"grid grid-cols-2 gap-4\">\n                        <dt class=\"text-sm font-medium text-gray-500\">ID</dt>\n                        <dd class=\"text-sm text-gray-900\">";

pub const DETAILS_NAME: &'static str =
    "</dd>\n                        <dt class=\"text-sm font-medium text-gray-500\">Name</dt>\n                        <dd class=\"text-sm text-gray-900\">";

pub const DETAILS_EMAIL: &'static str =
    "</dd>\n                        <dt class=\"text-sm font-medium text-gray-500\">Email</dt>\n                        <dd class=\"text-sm text-gray-900\">";

pub const DETAILS_ACTIONS: &'static str =
    "</dd>\n                    </dl>\n                    <div class=\"mt-6 flex space-x-4\">\n                        <a href=\"/\" class=\"text-indigo-600 hover:underline\">Back to list</a>\n                        <form method=\"POST\" action=\"/users/";

pub const DETAILS_CLOSE: &'static str =
    "/delete\" class=\"inline\">\n                            <button type=\"submit\" class=\"text-red-600 hover:underline\">Delete</button>\n                        </form>\n                    </div>\n                </div>";

pub const NOT_FOUND_HEADING: &'static str =
    "<h1 class=\"text-2xl font-bold mb-6\">User Not Found</h1>";

pub const INVALID_ID_HEADING: &'static str = "<h1 class=\"text-2xl font-bold mb-6\">Invalid ID</h1>";

pub const BACK_TO_LIST: &'static str =
    "\n                <a href=\"/\" class=\"text-indigo-600 hover:underline\">Back to list</a>";

/// One decimal digit.
pub open spec fn digit_text(d: nat) -> Seq<char> {
    if d == 0 {
        "0"@
    } else if d == 1 {
        "1"@
    } else if d == 2 {
        "2"@
    } else if d == 3 {
        "3"@
    } else if d == 4 {
        "4"@
    } else if d == 5 {
        "5"@
    } else if d == 6 {
        "6"@
    } else if d == 7 {
        "7"@
    } else if d == 8 {
        "8"@
    } else {
        "9"@
    }
}

/// A number in decimal notation, without leading zeros.
pub open spec fn decimal_text(n: nat) -> Seq<char>
    decreases n,
{
    if n < 10 {
        digit_text(n)
    } else {
        decimal_text(n / 10) + digit_text(n % 10)
    }
}

/// The cell that links to a user: the link shows the first eight characters
/// of the identifier.
pub open spec fn user_link_text(id: u128) -> Seq<char> {
    USER_LINK_OPEN@ + hyphenated(id) + USER_LINK_LABEL@ + hyphenated(id).subrange(0, 8)
        + USER_LINK_CLOSE@
}

/// The cell with the button that deletes a user.
pub open spec fn delete_form_text(id: u128) -> Seq<char> {
    DELETE_FORM_OPEN@ + hyphenated(id) + DELETE_FORM_CLOSE@
}

/// The table row of one user: link, name, e-mail address, delete button.
pub open spec fn user_row_text(user: User) -> Seq<Seq<char>> {
    seq![
        user_link_text(user.id.value),
        user.name@,
        user.email@,
        delete_form_text(user.id.value),
    ]
}

/// The table rows of a list of users, in the same order.
pub open spec fn user_rows_text(users: Seq<User>) -> Seq<Seq<Seq<char>>> {
    users.map_values(|user: User| user_row_text(user))
}

/// The headers of the table of users.
pub open spec fn user_table_headers() -> Seq<Seq<char>> {
    seq!["ID"@, "Name"@, "Email"@, "Actions"@]
}

/// The body of the page that lists users: a hint where there are none, else
/// their number and the table.
pub open spec fn users_body_text(users: Seq<User>) -> Seq<char> {
    if users.len() == 0 {
        NO_USERS@
    } else {
        USERS_HEADING_OPEN@ + decimal_text(users.len()) + USERS_HEADING_CLOSE@ + table_text(
            user_table_headers(),
            user_rows_text(users),
        )
    }
}

/// The page that lists users.
pub open spec fn users_page_text(users: Seq<User>) -> Seq<char> {
    page_text("Users"@, users_body_text(users))
}

/// The fields of the form that creates a user.
pub open spec fn user_form_fields() -> Seq<(Seq<char>, Seq<char>, Seq<char>)> {
    seq![("name"@, "Name"@, "text"@), ("email"@, "Email"@, "email"@)]
}

/// The form that creates a user.
pub open spec fn user_form_text() -> Seq<char> {
    form_text("/users"@, user_form_fields())
}

/// The page with the form that creates a user.
pub open spec fn new_user_page_text() -> Seq<char> {
    page_text("New User"@, CREATE_HEADING@ + user_form_text())
}

/// The page with the form that creates a user, under an error message.
pub open spec fn create_failure_text(message: Seq<char>) -> Seq<char> {
    page_text(
        "New User"@,
        CREATE_HEADING@ + alert_text("error"@, message) + AFTER_ALERT@ + user_form_text(),
    )
}

/// One error as shown to people: the field, a colon, the message.
pub open spec fn error_line(error: FieldError) -> Seq<char> {
    error.field + ": "@ + error.message
}

/// The errors as shown to people, in order, with `, ` between them.
pub open spec fn error_lines(errors: Seq<FieldError>) -> Seq<char>
    decreases errors.len(),
{
    if errors.len() == 0 {
        Seq::empty()
    } else if errors.len() == 1 {
        error_line(errors[0])
    } else {
        error_lines(errors.drop_last()) + ", "@ + error_line(errors.last())
    }
}

/// The message shown where the e-mail address is taken.
pub open spec fn taken_text(email: Seq<char>) -> Seq<char> {
    "Email '"@ + email + "' is already taken"@
}

/// The address at which a user that was just created is found.
pub open spec fn created_location(id: u128) -> Seq<char> {
    "/users/"@ + hyphenated(id) + "?created=1"@
}

/// What is answered to a request: a page under an HTTP status and, where a
/// user was created, the address at which the user is found.
#[derive(Debug, Clone, PartialEq, Eq)]
pub struct Reply {
    pub status: u16,
    pub location: Option<String>,
    pub html: String,
}

/// The details of one user.
pub open spec fn details_text(user: User) -> Seq<char> {
    DETAILS_OPEN@ + hyphenated(user.id.value) + DETAILS_NAME@ + user.name@ + DETAILS_EMAIL@
        + user.email@ + DETAILS_ACTIONS@ + hyphenated(user.id.value) + DETAILS_CLOSE@
}

/// The page that shows one user.
pub open spec fn details_page_text(user: User) -> Seq<char> {
    page_text("User Details"@, details_text(user))
}

/// The page shown for the outcome of creating a user: the user created, or
/// the form again under what was wrong.
pub open spec fn create_page_text(outcome: CreateUserResult) -> Seq<char> {
    match outcome {
        CreateUserResult::Created(user) => details_page_text(user),
        CreateUserResult::ValidationFailed(errors) => create_failure_text(
            error_lines(error_views(errors@)),
        ),
        CreateUserResult::DuplicateEmail { email } => create_failure_text(taken_text(email@)),
    }
}

/// The address that goes with the outcome of creating a user: that of the
/// user created, and none where none was.
pub open spec fn create_location(outcome: CreateUserResult) -> Option<Seq<char>> {
    match outcome {
        CreateUserResult::Created(user) => Some(created_location(user.id.value)),
        _ => None,
    }
}

/// Whether `reply` is what the outcome of creating a user is answered with:
/// the status of the outcome, the page for it, and the address of a user
/// created.
pub open spec fn is_create_reply(outcome: CreateUserResult, reply: Reply) -> bool {
    &&& reply.status == outcome.status_code()
    &&& reply.html@ == create_page_text(outcome)
    &&& match create_location(outcome) {
        Some(address) => reply.location matches Some(location) && location@ == address,
        None => reply.location is None,
    }
}

/// Whether `reply` is what the outcome of looking a user up is answered
/// with: the status of the outcome and the page for it.
pub open spec fn is_lookup_reply(outcome: GetUserByIdResult, reply: Reply) -> bool {
    &&& reply.status == outcome.status_code()
    &&& reply.html@ == lookup_page_text(outcome)
    &&& reply.location is None
}

/// The message shown where no user has the identifier.
pub open spec fn not_found_text(id: Seq<char>) -> Seq<char> {
    "No user found with ID: "@ + id
}

/// The message shown where the text is no identifier.
pub open spec fn invalid_id_text(id: Seq<char>) -> Seq<char> {
    "'"@ + id + "' is not a valid UUID"@
}

/// The page shown for the outcome of looking a user up.
pub open spec fn lookup_page_text(outcome: GetUserByIdResult) -> Seq<char> {
    match outcome {
        GetUserByIdResult::Found(user) => details_page_text(user),
        GetUserByIdResult::NotFound { id } => page_text(
            "Not Found"@,
            NOT_FOUND_HEADING@ + alert_text("error"@, not_found_text(id@)) + BACK_TO_LIST@,
        ),
        GetUserByIdResult::InvalidId { id } => page_text(
            "Invalid ID"@,
            INVALID_ID_HEADING@ + alert_text("error"@, invalid_id_text(id@)) + BACK_TO_LIST@,
        ),
    }
}

fn digit(d: usize) -> (text: &'static str)
    requires
        d < 10,
    ensures
        text@ == digit_text(d as nat),
{
    if d == 0 {
        "0"
    } else if d == 1 {
        "1"
    } else if d == 2 {
        "2"
    } else if d == 3 {
        "3"
    } else if d == 4 {
        "4"
    } else if d == 5 {
        "5"
    } else if d == 6 {
        "6"
    } else if d == 7 {
        "7"
    } else if d == 8 {
        "8"
    } else {
        "9"
    }
}

/// Writes a number in decimal notation.
pub fn decimal(n: usize) -> (text: String)
    ensures
        text@ == decimal_text(n as nat),
    decreases n,
{
    if n < 10 {
        digit(n).to_owned()
    } else {
        let mut text = decimal(n / 10);
        text.append(digit(n % 10));
        text
    }
}

/// The table row of one user.
pub fn user_row(user: &User) -> (row: Vec<String>)
    ensures
        string_views(row@) == user_row_text(*user),
{
    let id = user.id.to_text();
    let mut link = USER_LINK_OPEN.to_owned();
    link.append(id.as_str());
    link.append(USER_LINK_LABEL);
    link.append(id.as_str().substring_char(0, 8));
    link.append(USER_LINK_CLOSE);
    let mut delete = DELETE_FORM_OPEN.to_owned();
    delete.append(id.as_str());
    delete.append(DELETE_FORM_CLOSE);
    let mut row: Vec<String> = Vec::new();
    row.push(link);
    row.push(user.name.clone());
    row.push(user.email.clone());
    row.push(delete);
    assert(string_views(row@) =~= user_row_text(*user));
    row
}

/// The page that lists `users`.
pub fn users_page(users: &Vec<User>) -> (html: String)
    ensures
        html@ == users_page_text(users@),
{
    let body = if users.len() == 0 {
        NO_USERS.to_owned()
    } else {
        let mut rows: Vec<Vec<String>> = Vec::new();
        let mut at: usize = 0;
        while at < users.len()
            invariant
                at <= users@.len(),
                rows@.len() == at,
                row_views(rows@) == user_rows_text(users@.take(at as int)),
            decreases users@.len() - at,
        {
            let ghost before = rows@;
            let row = user_row(&users[at]);
            rows.push(row);
            proof {
                let next = user_rows_text(users@.take(at + 1));
                assert forall|i: int| 0 <= i < at implies row_views(rows@)[i] == next[i] by {
                    assert(row_views(before)[i] == user_rows_text(users@.take(at as int))[i]);
                }
                assert(row_views(rows@) =~= next);
            }
            at += 1;
        }
        assert(users@.take(at as int) =~= users@);
        let headers: [&str; 4] = ["ID", "Name", "Email", "Actions"];
        assert(str_views(headers@) =~= user_table_headers());
        let table = html_table(headers.as_slice(), rows.as_slice());
        let mut body = USERS_HEADING_OPEN.to_owned();
        body.append(decimal(users.len()).as_str());
        body.append(USERS_HEADING_CLOSE);
        body.append(table.as_str());
        body
    };
    html_page("Users", body.as_str())
}

/// The form that creates a user.
fn user_form() -> (html: String)
    ensures
        html@ == user_form_text(),
{
    let fields: [(&str, &str, &str); 2] = [("name", "Name", "text"), ("email", "Email", "email")];
    assert(triple_views(fields@) =~= user_form_fields());
    html_form("/users", fields.as_slice())
}

/// The page with the form that creates a user.
pub fn new_user_page() -> (html: String)
    ensures
        html@ == new_user_page_text(),
{
    let mut body = CREATE_HEADING.to_owned();
    body.append(user_form().as_str());
    html_page("New User", body.as_str())
}

/// The page with the form that creates a user, under an error message.
fn create_failure_page(message: &str) -> (html: String)
    ensures
        html@ == create_failure_text(message@),
{
    let mut body = CREATE_HEADING.to_owned();
    body.append(html_alert("error", message).as_str());
    body.append(AFTER_ALERT);
    body.append(user_form().as_str());
    html_page("New User", body.as_str())
}

/// The errors as shown to people: `field: message`, with `, ` between them.
pub fn error_messages(errors: &Vec<ValidationError>) -> (text: String)
    ensures
        text@ == error_lines(error_views(errors@)),
{
    let mut text = String::new();
    let mut at: usize = 0;
    while at < errors.len()
        invariant
            at <= errors@.len(),
            text@ == error_lines(error_views(errors@).take(at as int)),
        decreases errors@.len() - at,
    {
        if at > 0 {
            text.append(", ");
        }
        text.append(errors[at].field.as_str());
        text.append(": ");
        text.append(errors[at].message.as_str());
        proof {
            let next = error_views(errors@).take(at + 1);
            assert(next.drop_last() =~= error_views(errors@).take(at as int));
            assert(text@ =~= error_lines(next));
        }
        at += 1;
    }
    assert(error_views(errors@).take(at as int) =~= error_views(errors@));
    text
}

/// The page that shows one user.
fn details_page(user: &User) -> (html: String)
    ensures
        html@ == details_page_text(*user),
{
    let id = user.id.to_text();
    let mut body = DETAILS_OPEN.to_owned();
    body.append(id.as_str());
    body.append(DETAILS_NAME);
    body.append(user.name.as_str());
    body.append(DETAILS_EMAIL);
    body.append(user.email.as_str());
    body.append(DETAILS_ACTIONS);
    body.append(id.as_str());
    body.append(DETAILS_CLOSE);
    html_page("User Details", body.as_str())
}

/// What the outcome of creating a user is answered with: under the status
/// of the outcome, the user created and the address at which it is found,
/// or the form again under what was wrong.
pub fn create_reply(outcome: &CreateUserResult) -> (reply: Reply)
    ensures
        is_create_reply(*outcome, reply),
{
    let status = outcome.http_status();
    match outcome {
        CreateUserResult::Created(user) => {
            let mut location = "/users/".to_owned();
            location.append(user.id.to_text().as_str());
            location.append("?created=1");
            Reply { status, location: Some(location), html: details_page(user) }
        },
        CreateUserResult::ValidationFailed(errors) => {
            let message = error_messages(errors);
            Reply { status, location: None, html: create_failure_page(message.as_str()) }
        },
        CreateUserResult::DuplicateEmail { email } => {
            let mut message = "Email '".to_owned();
            message.append(email.as_str());
            message.append("' is already taken");
            Reply { status, location: None, html: create_failure_page(message.as_str()) }
        },
    }
}

/// The page that shows an error message and the way back to the list.
fn error_page(title: &str, heading: &str, message: &str) -> (html: String)
    ensures
        html@ == page_text(title@, heading@ + alert_text("error"@, message@) + BACK_TO_LIST@),
{
    let mut body = heading.to_owned();
    body.append(html_alert("error", message).as_str());
    body.append(BACK_TO_LIST);
    html_page(title, body.as_str())
}

/// What the outcome of looking a user up is answered with: a page under the
/// status of the outcome.
pub fn lookup_reply(outcome: &GetUserByIdResult) -> (reply: Reply)
    ensures
        is_lookup_reply(*outcome, reply),
{
    let status = outcome.http_status();
    let html = match outcome {
        GetUserByIdResult::Found(user) => details_page(user),
        GetUserByIdResult::NotFound { id } => {
            let mut message = "No user found with ID: ".to_owned();
            message.append(id.as_str());
            error_page("Not Found", NOT_FOUND_HEADING, message.as_str())
        },
        GetUserByIdResult::InvalidId { id } => {
            let mut message = "'".to_owned();
            message.append(id.as_str());
            message.append("' is not a valid UUID");
            error_page("Invalid ID", INVALID_ID_HEADING, message.as_str())
        },
    };
    Reply { status, location: None, html }
}

} // verus!
