use farm_core::users::{
    ApiFarmOwnerStatus, ApiUser, FarmOwnerStatus, NewApiUser, User, email_in_use_error,
    email_taken, may_change_user, username_change_error, validate_password,
};

fn plain_user() -> NewApiUser {
    NewApiUser {
        firstname: "Test".to_string(),
        lastname: "User".to_string(),
        username: "testuser".to_string(),
        email: "test@test.com".to_string(),
        password: "na9e8#aKsd".to_string(),
    }
}

#[test]
fn sanitize_new_api_user() {
    let mut user = NewApiUser {
        firstname: " Test ".to_string(),
        lastname: " User ".to_string(),
        username: " Testuser ".to_string(),
        email: " Test@test.com ".to_string(),
        password: "".to_string(),
    };
    user.sanitize();
    assert_eq!(
        user,
        NewApiUser {
            firstname: "Test".to_string(),
            lastname: "User".to_string(),
            username: "testuser".to_string(),
            email: "test@test.com".to_string(),
            password: "".to_string(),
        }
    );
}

#[test]
fn users_sanitize_new_api_user() {
    let mut user = NewApiUser {
        firstname: " Test ".to_string(),
        lastname: " User ".to_string(),
        username: " Testuser ".to_string(),
        email: " Test@test.com ".to_string(),
        password: "".to_string(),
    };
    user.sanitize();
    assert_eq!(
        user,
        NewApiUser {
            firstname: "Test".to_string(),
            lastname: "User".to_string(),
            username: "testuser".to_string(),
            email: "test@test.com".to_string(),
            password: "".to_string(),
        }
    );
}

#[test]
fn valid_user_passes() {
    assert!(plain_user().validate().is_ok());
}

#[test]
fn username_failures_share_one_entry() {
    // The username misses the length rule and the leading-letter rule at
    // once: both messages stand under a single "username" entry.
    let mut user = plain_user();
    user.username = "9".to_string();
    let err = user.validate().unwrap_err();
    assert_eq!(err.message, "Invalid data");
    assert_eq!(err.invalid_fields.len(), 1);
    let (field, messages) = &err.invalid_fields[0];
    assert_eq!(field, "username");
    assert_eq!(
        messages,
        &vec![
            "Expected mininum 3 characters but got only 1.".to_string(),
            "Has to begin with a letter".to_string(),
        ]
    );
}

#[test]
fn username_rules() {
    let mut user = plain_user();
    user.username = "ab-cd".to_string();
    let err = user.validate().unwrap_err();
    assert_eq!(
        err.invalid_fields,
        vec![(
            "username".to_string(),
            vec!["Only letters and numbers allowed".to_string()],
        )]
    );
    user.username = "9abcd".to_string();
    let err = user.validate().unwrap_err();
    assert_eq!(
        err.invalid_fields,
        vec![(
            "username".to_string(),
            vec!["Has to begin with a letter".to_string()],
        )]
    );
    user.username = "abc9".to_string();
    assert!(user.validate().is_ok());
}

#[test]
fn email_rule() {
    let mut user = plain_user();
    user.email = "not-an-email".to_string();
    let err = user.validate().unwrap_err();
    assert_eq!(
        err.invalid_fields,
        vec![(
            "email".to_string(),
            vec!["`not-an-email` does not match expected regex.".to_string()],
        )]
    );
    assert!(user.validate_email().is_some());
    user.email = "test@test.com".to_string();
    assert!(user.validate_email().is_none());
}

#[test]
fn every_field_reported_at_once() {
    let user = NewApiUser {
        firstname: "Test".to_string(),
        lastname: "User".to_string(),
        username: "!".to_string(),
        email: "nope".to_string(),
        password: ".".to_string(),
    };
    let err = user.validate().unwrap_err();
    let fields: Vec<&str> = err.invalid_fields.iter().map(|(f, _)| f.as_str()).collect();
    assert_eq!(fields, vec!["password", "email", "username"]);
    // The username fails all three of its checks at once.
    assert_eq!(err.invalid_fields[2].1.len(), 3);
}

#[test]
fn password_entry_carries_all_messages() {
    let msgs = validate_password(".").unwrap();
    assert_eq!(msgs.len(), 4);
    assert!(validate_password("na9e8#aKsd").is_none());
}

#[test]
fn api_user_encodes_external_id() {
    let user = User {
        id: 7,
        firstname: "Test".to_string(),
        lastname: "User".to_string(),
        username: "testuser".to_string(),
        email: "test@test.com".to_string(),
        password: "digest".to_string(),
        sysadmin: 0,
        farmowner: FarmOwnerStatus::REQUESTED,
        ext_id: vec![0u8; 16],
    };
    let api = ApiUser::from_user(user);
    assert_eq!(api.id, "AAAAAAAAAAAAAAAAAAAAAA==");
    assert_eq!(api.username, "testuser");
    assert_eq!(api.farmowner, ApiFarmOwnerStatus::Requested);
}

#[test]
fn change_rules() {
    let stored = User {
        id: 1,
        firstname: "Test".to_string(),
        lastname: "User".to_string(),
        username: "testuser".to_string(),
        email: "test@test.com".to_string(),
        password: "digest".to_string(),
        sysadmin: 0,
        farmowner: FarmOwnerStatus::NO,
        ext_id: vec![0u8; 16],
    };
    let mut changed = plain_user();
    assert!(may_change_user(&stored, &changed));
    changed.username = "otheruser".to_string();
    assert!(!may_change_user(&stored, &changed));

    let err = username_change_error();
    assert_eq!(err.message, "Cannot change user");
    assert_eq!(
        err.invalid_fields,
        vec![("username".to_string(), vec!["May not change username".to_string()])]
    );

    assert!(!email_taken(&stored.username, None));
    assert!(!email_taken(&stored.username, Some(&"testuser".to_string())));
    assert!(email_taken(&stored.username, Some(&"someoneelse".to_string())));

    let err = email_in_use_error();
    assert_eq!(err.message, "Invalid data");
    assert_eq!(
        err.invalid_fields,
        vec![("email".to_string(), vec!["Email already in use".to_string()])]
    );
}

#[test]
fn owner_status_maps_across() {
    assert_eq!(ApiFarmOwnerStatus::from(FarmOwnerStatus::NO), ApiFarmOwnerStatus::No);
    assert_eq!(ApiFarmOwnerStatus::from(FarmOwnerStatus::YES), ApiFarmOwnerStatus::Yes);
    assert_eq!(
        ApiFarmOwnerStatus::from(FarmOwnerStatus::REQUESTED),
        ApiFarmOwnerStatus::Requested
    );
}
