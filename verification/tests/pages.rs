use user_service::html::{html_alert, html_form, html_page, html_table};
use user_service::ident::EntityId;
use user_service::pages::{
    create_reply, decimal, error_messages, lookup_reply, new_user_page, user_row, users_page,
    Reply,
};
use user_service::user_service::{CreateUserResult, GetUserByIdResult, User};
use user_service::validation::ValidationError;

const ADA: u128 = 0x67e5504410b1426f9247bb680e5fe0c8;

const ADA_TEXT: &str = "67e55044-10b1-426f-9247-bb680e5fe0c8";

fn user(value: u128, name: &str, email: &str) -> User {
    User { id: EntityId { value }, name: name.to_string(), email: email.to_string() }
}

fn error(field: &str, message: &str) -> ValidationError {
    ValidationError { field: field.to_string(), message: message.to_string() }
}

fn form() -> String {
    html_form("/users", &[("name", "Name", "text"), ("email", "Email", "email")])
}

fn details(id_text: &str, name: &str, email: &str) -> String {
    format!(
        r#"<h1 class="text-2xl font-bold mb-6">User Details</h1>
                <div class="bg-white shadow rounded-lg p-6">
                    <dl class="grid grid-cols-2 gap-4">
                        <dt class="text-sm font-medium text-gray-500">ID</dt>
                        <dd class="text-sm text-gray-900">{}</dd>
                        <dt class="text-sm font-medium text-gray-500">Name</dt>
                        <dd class="text-sm text-gray-900">{}</dd>
                        <dt class="text-sm font-medium text-gray-500">Email</dt>
                        <dd class="text-sm text-gray-900">{}</dd>
                    </dl>
                    <div class="mt-6 flex space-x-4">
                        <a href="/" class="text-indigo-600 hover:underline">Back to list</a>
                        <form method="POST" action="/users/{}/delete" class="inline">
                            <button type="submit" class="text-red-600 hover:underline">Delete</button>
                        </form>
                    </div>
                </div>"#,
        id_text, name, email, id_text
    )
}

fn page(status: u16, html: String) -> Reply {
    Reply { status, location: None, html }
}

#[test]
fn decimal_notation() {
    assert_eq!(decimal(0), "0");
    assert_eq!(decimal(7), "7");
    assert_eq!(decimal(9), "9");
    assert_eq!(decimal(10), "10");
    assert_eq!(decimal(1234567890), "1234567890");
    assert_eq!(decimal(usize::MAX), usize::MAX.to_string());
    for n in 0..2000usize {
        assert_eq!(decimal(n), n.to_string());
    }
}

#[test]
fn row_of_a_user() {
    let row = user_row(&user(ADA, "Ada", "ada@x.com"));
    assert_eq!(
        row,
        vec![
            format!(
                r#"<a href="/users/{}" class="text-indigo-600 hover:text-indigo-800">{}</a>"#,
                ADA_TEXT, "67e55044"
            ),
            "Ada".to_string(),
            "ada@x.com".to_string(),
            format!(
                r#"<form method="POST" action="/users/{}/delete" class="inline">
                        <button type="submit" class="text-red-600 hover:text-red-800 text-sm">Delete</button>
                    </form>"#,
                ADA_TEXT
            ),
        ]
    );
}

#[test]
fn page_of_no_users() {
    let body = r#"<h1 class="text-2xl font-bold mb-6">Users</h1>
            <p class="text-gray-500">No users yet. <a href="/users/new" class="text-indigo-600 hover:underline">Create one</a>.</p>"#;
    assert_eq!(users_page(&Vec::new()), html_page("Users", body));
}

#[test]
fn page_of_some_users() {
    let users = vec![user(ADA, "Ada", "ada@x.com"), user(2, "Bea", "bea@x.com")];
    let rows: Vec<Vec<String>> = users.iter().map(user_row).collect();
    let body = format!(
        r#"<h1 class="text-2xl font-bold mb-6">Users ({})</h1>{}"#,
        2,
        html_table(&["ID", "Name", "Email", "Actions"], &rows)
    );
    assert_eq!(users_page(&users), html_page("Users", &body));
}

#[test]
fn page_counts_many_users() {
    let users: Vec<User> = (0..12u128).map(|i| user(i, "N", &format!("{}@x.com", i))).collect();
    let page = users_page(&users);
    assert!(page.contains("<h1 class=\"text-2xl font-bold mb-6\">Users (12)</h1>"));
    assert!(page.contains("/users/00000000-0000-0000-0000-00000000000b/delete"));
}

#[test]
fn page_with_the_form() {
    let body = format!(r#"<h1 class="text-2xl font-bold mb-6">Create User</h1>{}"#, form());
    assert_eq!(new_user_page(), html_page("New User", &body));
}

#[test]
fn error_messages_are_joined_in_order() {
    assert_eq!(error_messages(&Vec::new()), "");
    assert_eq!(error_messages(&vec![error("name", "too short")]), "name: too short");
    assert_eq!(
        error_messages(&vec![error("name", "a"), error("email", "b"), error("name", "c")]),
        "name: a, email: b, name: c"
    );
}

#[test]
fn a_created_user_is_answered_with_201_and_its_address() {
    let outcome = CreateUserResult::Created(user(ADA, "Ada", "ada@x.com"));
    assert_eq!(
        create_reply(&outcome),
        Reply {
            status: 201,
            location: Some(format!("/users/{}?created=1", ADA_TEXT)),
            html: html_page("User Details", &details(ADA_TEXT, "Ada", "ada@x.com")),
        }
    );
}

#[test]
fn every_reply_carries_the_status_of_its_outcome() {
    let creations = vec![
        CreateUserResult::Created(user(1, "A", "a@x.com")),
        CreateUserResult::DuplicateEmail { email: "a@x.com".to_string() },
        CreateUserResult::ValidationFailed(vec![error("name", "m")]),
    ];
    for outcome in creations.iter() {
        assert_eq!(create_reply(outcome).status, outcome.http_status());
    }
    let lookups = vec![
        GetUserByIdResult::Found(user(1, "A", "a@x.com")),
        GetUserByIdResult::NotFound { id: "x".to_string() },
        GetUserByIdResult::InvalidId { id: "x".to_string() },
    ];
    for outcome in lookups.iter() {
        assert_eq!(lookup_reply(outcome).status, outcome.http_status());
        assert_eq!(lookup_reply(outcome).location, None);
    }
}

#[test]
fn a_validation_failure_shows_the_form_again() {
    let errors = vec![
        error("name", "must be at least 1 characters"),
        error("name", "must be at most 200 characters"),
    ];
    let body = format!(
        r#"<h1 class="text-2xl font-bold mb-6">Create User</h1>{}
                {}"#,
        html_alert(
            "error",
            "name: must be at least 1 characters, name: must be at most 200 characters"
        ),
        form()
    );
    assert_eq!(
        create_reply(&CreateUserResult::ValidationFailed(errors)),
        page(422, html_page("New User", &body))
    );
}

#[test]
fn a_duplicate_email_shows_the_form_again() {
    let body = format!(
        r#"<h1 class="text-2xl font-bold mb-6">Create User</h1>{}
                {}"#,
        html_alert("error", "Email 'ada@x.com' is already taken"),
        form()
    );
    assert_eq!(
        create_reply(&CreateUserResult::DuplicateEmail { email: "ada@x.com".to_string() }),
        page(409, html_page("New User", &body))
    );
}

#[test]
fn a_user_found_is_shown_with_its_details() {
    assert_eq!(
        lookup_reply(&GetUserByIdResult::Found(user(ADA, "Ada", "ada@x.com"))),
        page(200, html_page("User Details", &details(ADA_TEXT, "Ada", "ada@x.com")))
    );
}

#[test]
fn a_user_not_found_is_answered_with_404() {
    let body = format!(
        r#"<h1 class="text-2xl font-bold mb-6">User Not Found</h1>{}
                <a href="/" class="text-indigo-600 hover:underline">Back to list</a>"#,
        html_alert("error", &format!("No user found with ID: {}", ADA_TEXT))
    );
    assert_eq!(
        lookup_reply(&GetUserByIdResult::NotFound { id: ADA_TEXT.to_string() }),
        page(404, html_page("Not Found", &body))
    );
}

#[test]
fn an_invalid_identifier_is_answered_with_400() {
    let body = format!(
        r#"<h1 class="text-2xl font-bold mb-6">Invalid ID</h1>{}
                <a href="/" class="text-indigo-600 hover:underline">Back to list</a>"#,
        html_alert("error", "'not-a-uuid' is not a valid UUID")
    );
    assert_eq!(
        lookup_reply(&GetUserByIdResult::InvalidId { id: "not-a-uuid".to_string() }),
        page(400, html_page("Invalid ID", &body))
    );
}

#[test]
fn outcomes_of_a_lookup_in_one_line() {
    assert_eq!(
        GetUserByIdResult::Found(user(ADA, "Ada \"the first\"", "ada@x.com")).describe(),
        "Ok: User { id: 67e55044-10b1-426f-9247-bb680e5fe0c8, name: \"Ada \\\"the first\\\"\", email: \"ada@x.com\" }"
    );
    assert_eq!(GetUserByIdResult::NotFound { id: "x".to_string() }.describe(), "Error: not-found");
    assert_eq!(GetUserByIdResult::InvalidId { id: "x".to_string() }.describe(), "Error: invalid-id");
}

#[test]
fn outcomes_of_a_creation_in_one_line() {
    assert_eq!(
        CreateUserResult::Created(user(1, "Ada", "ada@x.com")).describe(),
        "Ok: User { id: 00000000-0000-0000-0000-000000000001, name: \"Ada\", email: \"ada@x.com\" }"
    );
    assert_eq!(
        CreateUserResult::DuplicateEmail { email: "ada@x.com".to_string() }.describe(),
        "Error: duplicate-email"
    );
    assert_eq!(
        CreateUserResult::ValidationFailed(Vec::new()).describe(),
        "Error(validation-failed): []"
    );
    assert_eq!(
        CreateUserResult::ValidationFailed(vec![error("name", "a\nb")]).describe(),
        "Error(validation-failed): [ValidationError { field: \"name\", message: \"a\\nb\" }]"
    );
    assert_eq!(
        CreateUserResult::ValidationFailed(vec![error("name", "a"), error("email", "b")]).describe(),
        "Error(validation-failed): [ValidationError { field: \"name\", message: \"a\" }, ValidationError { field: \"email\", message: \"b\" }]"
    );
}

#[test]
fn a_user_printed_for_debugging() {
    assert_eq!(
        user(ADA, "Ada", "ada@x.com").debug(),
        "User { id: 67e55044-10b1-426f-9247-bb680e5fe0c8, name: \"Ada\", email: \"ada@x.com\" }"
    );
}
