use user_service::ident::EntityId;
use user_service::memory::InMemoryStore;
use user_service::store::{unused_id, Entity, Store, StoreError};
use user_service::user_service::{
    create_user, create_user_with_id, delete_parsed, delete_user_by_id, get_user_by_id,
    lookup_parsed, CreateUserInput, CreateUserResult, GetUserByIdResult, User,
};
use user_service::validation::{check_name, non_empty, ValidationError};

fn input(name: &str, email: &str) -> CreateUserInput {
    CreateUserInput { name: name.to_string(), email: email.to_string() }
}

fn user(value: u128, name: &str, email: &str) -> User {
    User { id: EntityId { value }, name: name.to_string(), email: email.to_string() }
}

fn too_short() -> ValidationError {
    ValidationError {
        field: "name".to_string(),
        message: "must be at least 1 characters".to_string(),
    }
}

fn too_long() -> ValidationError {
    ValidationError {
        field: "name".to_string(),
        message: "must be at most 200 characters".to_string(),
    }
}

fn created(outcome: CreateUserResult) -> User {
    match outcome {
        CreateUserResult::Created(user) => user,
        other => panic!("expected a created user, got {:?}", other),
    }
}

#[test]
fn scenario_create_duplicate_lookup_and_invalid_input() {
    let mut store: InMemoryStore<User> = InMemoryStore::new();

    let ada = created(create_user(&mut store, input("Ada", "ada@x.com")));
    assert!(!ada.id.to_text().is_empty());
    assert_eq!(ada.name, "Ada");
    assert_eq!(ada.email, "ada@x.com");

    match create_user(&mut store, input("Bea", "ada@x.com")) {
        CreateUserResult::DuplicateEmail { email } => assert_eq!(email, "ada@x.com"),
        other => panic!("expected a duplicate, got {:?}", other),
    }
    assert_eq!(store.len(), 1);

    let unused = unused_id(&store, EntityId::random());
    match get_user_by_id(&store, &unused.to_text()) {
        GetUserByIdResult::NotFound { id } => assert_eq!(id, unused.to_text()),
        other => panic!("expected not found, got {:?}", other),
    }

    match get_user_by_id(&store, "not-a-uuid") {
        GetUserByIdResult::InvalidId { id } => assert_eq!(id, "not-a-uuid"),
        other => panic!("expected an invalid identifier, got {:?}", other),
    }

    match create_user(&mut store, input("", "x@y.com")) {
        CreateUserResult::ValidationFailed(errors) => assert_eq!(errors, vec![too_short()]),
        other => panic!("expected a validation failure, got {:?}", other),
    }
    assert_eq!(store.len(), 1);
}

#[test]
fn empty_name_is_rejected_and_nothing_is_inserted() {
    let mut store: InMemoryStore<User> = InMemoryStore::new();
    let outcome = create_user(&mut store, input("", "a@b.c"));
    assert_eq!(outcome.http_status(), 422);
    assert!(matches!(outcome, CreateUserResult::ValidationFailed(ref e) if *e == vec![too_short()]));
    assert!(store.is_empty());
}

#[test]
fn overlong_name_is_rejected_and_nothing_is_inserted() {
    let mut store: InMemoryStore<User> = InMemoryStore::new();
    let outcome = create_user(&mut store, input(&"n".repeat(201), "a@b.c"));
    assert!(matches!(outcome, CreateUserResult::ValidationFailed(ref e) if *e == vec![too_long()]));
    assert!(store.is_empty());
}

#[test]
fn name_bounds_are_inclusive() {
    assert_eq!(check_name("a"), vec![]);
    assert_eq!(check_name(&"a".repeat(200)), vec![]);
    assert_eq!(check_name(&"a".repeat(201)), vec![too_long()]);
    assert_eq!(check_name(""), vec![too_short()]);
}

#[test]
fn name_length_is_counted_in_bytes() {
    let hundred = "\u{e9}".repeat(100);
    assert_eq!(hundred.len(), 200);
    assert_eq!(check_name(&hundred), vec![]);
    let more = "\u{e9}".repeat(101);
    assert_eq!(check_name(&more), vec![too_long()]);
}

#[test]
fn validate_and_validate_input_agree() {
    let long = "x".repeat(300);
    assert_eq!(User::validate_input(&input(&long, "a@b.c")), vec![too_long()]);
    assert_eq!(user(1, &long, "a@b.c").validate(), vec![too_long()]);
    assert_eq!(User::validate_input(&input("", "a@b.c")), vec![too_short()]);
    assert_eq!(user(1, "", "a@b.c").validate(), vec![too_short()]);
    assert_eq!(User::validate_input(&input("Ada", "not an address")), vec![]);
    assert_eq!(user(1, "Ada", "a@b.c").validate(), vec![]);
}

#[test]
fn non_empty_tells_whether_a_list_holds_anything() {
    assert!(!non_empty(&Vec::<u8>::new()));
    assert!(non_empty(&vec![0u8]));
}

#[test]
fn created_users_get_distinct_identifiers() {
    let mut store: InMemoryStore<User> = InMemoryStore::new();
    let a = created(create_user(&mut store, input("A", "a@x.com")));
    let b = created(create_user(&mut store, input("B", "b@x.com")));
    let c = created(create_user(&mut store, input("C", "c@x.com")));
    assert_ne!(a.id, b.id);
    assert_ne!(a.id, c.id);
    assert_ne!(b.id, c.id);
    assert_eq!(store.list_all(), vec![a, b, c]);
}

#[test]
fn a_taken_candidate_is_replaced_by_the_next_free_identifier() {
    let mut store: InMemoryStore<User> = InMemoryStore::new();
    let first = created(create_user_with_id(&mut store, input("A", "a@x.com"), EntityId { value: 7 }));
    assert_eq!(first.id, EntityId { value: 7 });
    let second = created(create_user_with_id(&mut store, input("B", "b@x.com"), EntityId { value: 7 }));
    assert_eq!(second.id, EntityId { value: 8 });
    let third = created(create_user_with_id(&mut store, input("C", "c@x.com"), EntityId { value: 7 }));
    assert_eq!(third.id, EntityId { value: 9 });
    assert_eq!(unused_id(&store, EntityId { value: 8 }), EntityId { value: 10 });
    assert_eq!(unused_id(&store, EntityId { value: 6 }), EntityId { value: 6 });
}

#[test]
fn the_identifier_after_the_greatest_is_the_least() {
    let mut store: InMemoryStore<User> = InMemoryStore::new();
    let top = created(create_user_with_id(&mut store, input("A", "a@x.com"), EntityId { value: u128::MAX }));
    assert_eq!(top.id.value, u128::MAX);
    let wrapped = created(create_user_with_id(&mut store, input("B", "b@x.com"), EntityId { value: u128::MAX }));
    assert_eq!(wrapped.id.value, 0);
}

#[test]
fn validation_comes_before_the_duplicate_check() {
    let mut store: InMemoryStore<User> = InMemoryStore::new();
    created(create_user(&mut store, input("Ada", "ada@x.com")));
    let outcome = create_user(&mut store, input("", "ada@x.com"));
    assert!(matches!(outcome, CreateUserResult::ValidationFailed(_)));
    assert_eq!(store.len(), 1);
}

#[test]
fn duplicate_email_leaves_the_store_as_it_was() {
    let mut store: InMemoryStore<User> = InMemoryStore::new();
    let ada = created(create_user(&mut store, input("Ada", "ada@x.com")));
    let outcome = create_user(&mut store, input("Other", "ada@x.com"));
    assert_eq!(outcome.http_status(), 409);
    assert!(matches!(outcome, CreateUserResult::DuplicateEmail { ref email } if email == "ada@x.com"));
    assert_eq!(store.list_all(), vec![ada]);
}

#[test]
fn status_codes_of_every_outcome() {
    assert_eq!(GetUserByIdResult::Found(user(1, "A", "a@x.com")).http_status(), 200);
    assert_eq!(GetUserByIdResult::NotFound { id: String::new() }.http_status(), 404);
    assert_eq!(GetUserByIdResult::InvalidId { id: String::new() }.http_status(), 400);
    assert_eq!(CreateUserResult::Created(user(1, "A", "a@x.com")).http_status(), 201);
    assert_eq!(CreateUserResult::DuplicateEmail { email: String::new() }.http_status(), 409);
    assert_eq!(CreateUserResult::ValidationFailed(Vec::new()).http_status(), 422);
}

#[test]
fn lookup_finds_a_created_user_by_its_written_identifier() {
    let mut store: InMemoryStore<User> = InMemoryStore::new();
    created(create_user(&mut store, input("Ada", "ada@x.com")));
    let bea = created(create_user(&mut store, input("Bea", "bea@x.com")));
    match get_user_by_id(&store, &bea.id.to_text()) {
        GetUserByIdResult::Found(found) => assert_eq!(found, bea),
        other => panic!("expected the user, got {:?}", other),
    }
    match get_user_by_id(&store, &bea.id.to_text().to_uppercase()) {
        GetUserByIdResult::Found(found) => assert_eq!(found, bea),
        other => panic!("expected the user, got {:?}", other),
    }
}

#[test]
fn lookup_of_an_unused_identifier_reports_its_hyphenated_form() {
    let store: InMemoryStore<User> = InMemoryStore::new();
    match get_user_by_id(&store, "67E5504410B1426F9247BB680E5FE0C8") {
        GetUserByIdResult::NotFound { id } => {
            assert_eq!(id, "67e55044-10b1-426f-9247-bb680e5fe0c8")
        },
        other => panic!("expected not found, got {:?}", other),
    }
}

#[test]
fn lookup_of_malformed_text_is_invalid() {
    let mut store: InMemoryStore<User> = InMemoryStore::new();
    created(create_user(&mut store, input("Ada", "ada@x.com")));
    for text in ["", "not-a-uuid", "67e55044-10b1-426f-9247-bb680e5fe0c", "67e55044-10b1-426f-9247-bb680e5fe0cg", "67e5504410b1-426f-9247-bb680e5fe0c8-"] {
        match get_user_by_id(&store, text) {
            GetUserByIdResult::InvalidId { id } => assert_eq!(id, text),
            other => panic!("expected an invalid identifier, got {:?}", other),
        }
    }
}

#[test]
fn lookup_parsed_answers_for_each_reading() {
    let mut store: InMemoryStore<User> = InMemoryStore::new();
    let ada = created(create_user_with_id(&mut store, input("Ada", "ada@x.com"), EntityId { value: 5 }));
    assert!(matches!(lookup_parsed(&store, "raw", None), GetUserByIdResult::InvalidId { ref id } if id == "raw"));
    assert!(matches!(lookup_parsed(&store, "raw", Some(EntityId { value: 5 })), GetUserByIdResult::Found(ref u) if *u == ada));
    assert!(matches!(
        lookup_parsed(&store, "raw", Some(EntityId { value: 6 })),
        GetUserByIdResult::NotFound { ref id } if id == "00000000-0000-0000-0000-000000000006"
    ));
}

#[test]
fn store_insert_hands_the_entity_back_and_keeps_it() {
    let mut store: InMemoryStore<User> = InMemoryStore::new();
    let ada = user(1, "Ada", "ada@x.com");
    assert_eq!(store.insert(ada.clone()), Ok(ada.clone()));
    assert_eq!(store.query_by_id(&EntityId { value: 1 }), Some(ada.clone()));
    assert_eq!(store.query_by_id(&EntityId { value: 2 }), None);
    assert_eq!(store.list_all(), vec![ada]);
    assert_eq!(store.len(), 1);
    assert!(!store.is_empty());
}

#[test]
fn store_refuses_a_taken_unique_value() {
    let mut store: InMemoryStore<User> = InMemoryStore::new();
    let ada = user(1, "Ada", "ada@x.com");
    store.insert(ada.clone()).unwrap();
    assert_eq!(
        store.insert(user(2, "Bea", "ada@x.com")),
        Err(StoreError::UniqueViolation { field: "email".to_string(), value: "ada@x.com".to_string() })
    );
    assert_eq!(store.list_all(), vec![ada]);
}

#[test]
fn store_refuses_a_taken_identifier() {
    let mut store: InMemoryStore<User> = InMemoryStore::new();
    let ada = user(1, "Ada", "ada@x.com");
    store.insert(ada.clone()).unwrap();
    assert_eq!(
        store.insert(user(1, "Bea", "bea@x.com")),
        Err(StoreError::UniqueViolation {
            field: "id".to_string(),
            value: "00000000-0000-0000-0000-000000000001".to_string(),
        })
    );
    assert_eq!(
        store.insert(user(1, "Bea", "ada@x.com")),
        Err(StoreError::UniqueViolation {
            field: "id".to_string(),
            value: "00000000-0000-0000-0000-000000000001".to_string(),
        })
    );
    assert_eq!(store.list_all(), vec![ada]);
}

#[test]
fn store_lists_in_insertion_order() {
    let mut store: InMemoryStore<User> = InMemoryStore::new();
    let users = vec![user(3, "C", "c@x.com"), user(1, "A", "a@x.com"), user(2, "B", "b@x.com")];
    for u in users.iter() {
        store.insert(u.clone()).unwrap();
    }
    assert_eq!(store.list_all(), users);
    assert_eq!(store.list_all(), store.list_all());
}

#[test]
fn delete_removes_only_the_named_entity() {
    let mut store: InMemoryStore<User> = InMemoryStore::new();
    let a = user(1, "A", "a@x.com");
    let b = user(2, "B", "b@x.com");
    let c = user(3, "C", "c@x.com");
    for u in [&a, &b, &c] {
        store.insert(u.clone()).unwrap();
    }
    store.delete(&EntityId { value: 2 });
    assert_eq!(store.list_all(), vec![a.clone(), c.clone()]);
    assert_eq!(store.query_by_id(&EntityId { value: 2 }), None);
    assert_eq!(store.insert(user(4, "D", "b@x.com")), Ok(user(4, "D", "b@x.com")));
}

#[test]
fn delete_twice_is_delete_once() {
    let mut once: InMemoryStore<User> = InMemoryStore::new();
    let mut twice: InMemoryStore<User> = InMemoryStore::new();
    for store in [&mut once, &mut twice] {
        store.insert(user(1, "A", "a@x.com")).unwrap();
        store.insert(user(2, "B", "b@x.com")).unwrap();
    }
    once.delete(&EntityId { value: 1 });
    twice.delete(&EntityId { value: 1 });
    twice.delete(&EntityId { value: 1 });
    assert_eq!(once.list_all(), twice.list_all());
    assert_eq!(twice.list_all(), vec![user(2, "B", "b@x.com")]);
}

#[test]
fn delete_of_an_absent_identifier_changes_nothing() {
    let mut store: InMemoryStore<User> = InMemoryStore::new();
    store.insert(user(1, "A", "a@x.com")).unwrap();
    store.delete(&EntityId { value: 9 });
    assert_eq!(store.list_all(), vec![user(1, "A", "a@x.com")]);
}

#[test]
fn delete_by_written_identifier() {
    let mut store: InMemoryStore<User> = InMemoryStore::new();
    store.insert(user(1, "A", "a@x.com")).unwrap();
    store.insert(user(2, "B", "b@x.com")).unwrap();
    delete_user_by_id(&mut store, "garbage");
    assert_eq!(store.len(), 2);
    delete_user_by_id(&mut store, "00000000-0000-0000-0000-000000000001");
    assert_eq!(store.list_all(), vec![user(2, "B", "b@x.com")]);
    delete_parsed(&mut store, None);
    assert_eq!(store.len(), 1);
    delete_parsed(&mut store, Some(EntityId { value: 2 }));
    assert!(store.is_empty());
}

#[test]
fn a_user_is_an_entity_with_a_unique_email() {
    let ada = user(77, "Ada", "ada@x.com");
    assert_eq!(ada.id(), EntityId { value: 77 });
    assert_eq!(ada.unique_field(), ("email".to_string(), "ada@x.com".to_string()));
    assert_eq!(ada.duplicate(), ada);
}

#[test]
fn from_input_keeps_the_fields_and_draws_a_random_identifier() {
    let a = User::from_input(input("Ada", "ada@x.com"));
    let b = User::from_input(input("Ada", "ada@x.com"));
    assert_eq!(a.name, "Ada");
    assert_eq!(a.email, "ada@x.com");
    assert_ne!(a.id, b.id);
    assert_eq!((a.id.value >> 76) & 0xf, 4);
    assert_eq!((a.id.value >> 62) & 0x3, 2);
    let c = User::with_id(input("Cy", "cy@x.com"), EntityId { value: 3 });
    assert_eq!(c, user(3, "Cy", "cy@x.com"));
}
