use farm_core::validation::{
    Criteria, PasswordValidator, RegexValidator, RequiredCharacterGroupCriteria, StringCriteria,
    StringLengthCriteria, StringValidator, Validator,
};

#[test]
fn string_length() {
    let min_validator = StringLengthCriteria::min(5);
    assert!(min_validator.validate("12345").is_ok());
    assert!(min_validator.validate("ä€`ñ0").is_ok());
    assert_eq!(
        "Expected mininum 5 characters but got only 4.",
        min_validator.validate("ä€`ñ").unwrap_err()
    );

    let max_validator = StringLengthCriteria::max(5);
    assert!(max_validator.validate("12345").is_ok());
    assert!(max_validator.validate("ä€`ñ0").is_ok());
    assert_eq!(
        "Expected maximum 5 characters but got 6.",
        max_validator.validate("ä€`ñ56").unwrap_err()
    );

    let validator = StringLengthCriteria::new(5, 6);
    assert!(validator.validate("12345").is_ok());
    assert!(validator.validate("ä€`ñ06").is_ok());
    assert_eq!(
        "Expected mininum 5 characters but got only 4.",
        min_validator.validate("ä€`ñ").unwrap_err()
    );
    assert_eq!(
        "Expected maximum 6 characters but got 7.",
        validator.validate("ä€`ñ567").unwrap_err()
    );
}

#[test]
fn required_char_group() {
    let chars = RequiredCharacterGroupCriteria::new("abc".chars().collect());
    assert!(chars.validate("adefg").is_ok());
    assert!(chars.validate("bdefg").is_ok());
    assert!(chars.validate("cdefg").is_ok());
    assert_eq!(
        Err("Expected one of `a,b,c` but got `def`.".to_string()),
        chars.validate("def")
    );

    let chars = RequiredCharacterGroupCriteria::range('a', 'c');
    assert!(chars.validate("adefg").is_ok());
    assert!(chars.validate("bdefg").is_ok());
    assert!(chars.validate("cdefg").is_ok());
    assert_eq!(
        Err("Expected one of `a,b,c` but got `def`.".to_string()),
        chars.validate("def")
    );
}

#[test]
fn validator() {
    let mut validator = StringValidator::new();
    validator.add_criteria(Criteria::Group(RequiredCharacterGroupCriteria::range('0', '9')));
    validator.add_criteria(Criteria::Group(RequiredCharacterGroupCriteria::range('A', 'Z')));
    validator.add_criteria(Criteria::Group(RequiredCharacterGroupCriteria::range('a', 'z')));
    validator.add_criteria(Criteria::Length(StringLengthCriteria::min(10)));
    assert!(validator.validate("abcDEF0189").is_ok());
    assert_eq!(validator.validate(".").unwrap_err().messages.len(), 4);
}

#[test]
fn length_rule_boundary() {
    let min8 = StringLengthCriteria::min(8);
    assert_eq!(
        "Expected mininum 8 characters but got only 7.",
        min8.validate("abc1234").unwrap_err()
    );
    assert!(min8.validate("abc12345").is_ok());
}

#[test]
fn length_counts_characters_not_bytes() {
    // Three characters, each of a different UTF-8 width.
    let min4 = StringLengthCriteria::min(4);
    assert_eq!(
        "Expected mininum 4 characters but got only 3.",
        min4.validate("aä€").unwrap_err()
    );
    let max3 = StringLengthCriteria::max(3);
    assert!(max3.validate("aä€").is_ok());
}

#[test]
fn group_rule_lower_range() {
    let lower = RequiredCharacterGroupCriteria::range('a', 'z');
    assert!(lower.validate("ABC123").is_err());
    assert!(lower.validate("aBC123").is_ok());
}

#[test]
fn group_message_lists_the_set() {
    let group = RequiredCharacterGroupCriteria::new(vec!['x']);
    assert_eq!(
        "Expected one of `x` but got ``.",
        group.validate("").unwrap_err()
    );
    let group = RequiredCharacterGroupCriteria::new(vec!['!', '?']);
    assert_eq!(
        "Expected one of `!,?` but got `abc`.",
        group.validate("abc").unwrap_err()
    );
}

#[test]
fn empty_range_rejects_everything() {
    let none = RequiredCharacterGroupCriteria::range('z', 'a');
    assert_eq!(
        Err("Expected one of `` but got `anything`.".to_string()),
        none.validate("anything")
    );
}

#[test]
fn password_rules_reject_dot_with_four_messages() {
    // "." is in the symbol set, so exactly the four other categories fail.
    let err = PasswordValidator.validate(".").unwrap_err();
    assert_eq!(err.messages.len(), 4);
    assert_eq!(
        err.messages[0],
        "Expected mininum 8 characters but got only 1."
    );
    for i in 0..err.messages.len() {
        for j in 0..i {
            assert_ne!(err.messages[i], err.messages[j]);
        }
    }
}

#[test]
fn password_rules_accept_strong_password() {
    assert!(PasswordValidator.validate("na9e8#aKsd").is_ok());
    // Missing symbol: exactly one failure.
    let err = PasswordValidator.validate("abcDEF0189").unwrap_err();
    assert_eq!(err.messages.len(), 1);
    assert_eq!(
        err.messages[0],
        "Expected one of `!,?,.,-,_,#,$,&` but got `abcDEF0189`."
    );
}

#[test]
fn validator_keeps_rule_order() {
    let mut validator = StringValidator::new();
    validator.add_criteria(Criteria::Length(StringLengthCriteria::min(3)));
    validator.add_criteria(Criteria::Group(RequiredCharacterGroupCriteria::range('0', '9')));
    let err = validator.validate("a").unwrap_err();
    assert_eq!(
        err.messages,
        vec![
            "Expected mininum 3 characters but got only 1.".to_string(),
            "Expected one of `0,1,2,3,4,5,6,7,8,9` but got `a`.".to_string(),
        ]
    );
}

#[test]
fn pattern_rule() {
    assert!(RegexValidator::new("[").is_err());
    let rule = RegexValidator::new("^[a-z]+$").expect("pattern compiles");
    assert!(rule.validate("abc").is_ok());
    assert_eq!(
        "`ab9` does not match expected regex.",
        rule.validate("ab9").unwrap_err()
    );
    let mut validator = StringValidator::new();
    validator.add_criteria(Criteria::Pattern(RegexValidator::new("^x").expect("compiles")));
    assert!(validator.validate("xyz").is_ok());
    assert_eq!(validator.validate("yz").unwrap_err().messages.len(), 1);
}
