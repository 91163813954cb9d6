//! User records and the field-level validation in front of them: incoming
//! registration data is sanitized, then every field is checked and every
//! failure collected into one field-keyed error payload.

use vstd::prelude::*;
use vstd::std_specs::convert::FromSpec;
use vstd::string::StrSliceExecFns;
use vstd::string::StringExecFns;
use crate::error::ValidationError as ValidationApiError;
use crate::error::fields_distinct;
use crate::strutil::{
    trim_of, normalized_of, trimmed, normalized, is_alphanumeric_char, is_alphabetic_char,
    char_is_alphanumeric, char_is_alphabetic,
};
use crate::types::{b64url_encode, base64url_of};
use crate::validation::{
    Criteria, StringCriteria, StringLengthCriteria, StringValidator, EmailValidator,
    PasswordValidator, Validator, collect_messages, lemma_collect_push, min_length_message,
    email_matches, no_match_message, password_messages,
};

verus! {

/// Whether a user may own farms: not at all, fully, or requested and not yet
/// granted.
#[allow(non_camel_case_types)]
#[derive(Clone, Copy, Debug, PartialEq, Eq, Structural)]
pub enum FarmOwnerStatus {
    NO,
    YES,
    REQUESTED,
}

/// A stored user record, as the credentials store hands it back: plain field
/// values, with the password only as an opaque digest and the external
/// identifier as its sixteen raw bytes.
pub struct User {
    pub id: i32,
    pub firstname: String,
    pub lastname: String,
    pub username: String,
    pub email: String,
    pub password: String,
    pub sysadmin: i32,
    pub farmowner: FarmOwnerStatus,
    pub ext_id: Vec<u8>,
}

/// The fields of a user yet to be created.
pub struct NewUser {
    pub firstname: String,
    pub lastname: String,
    pub username: String,
    pub email: String,
}

/// The changeable profile fields of an existing user.
pub struct DefaultUserChange {
    pub firstname: String,
    pub lastname: String,
    pub username: String,
    pub email: String,
}

/// Registration data as a client submits it, before sanitizing and
/// validation.
#[derive(Clone, Debug, PartialEq)]
pub struct NewApiUser {
    pub firstname: String,
    pub lastname: String,
    pub username: String,
    pub email: String,
    pub password: String,
}

impl From<NewApiUser> for NewUser {
    fn from(value: NewApiUser) -> (r: Self) {
        Self {
            firstname: value.firstname,
            lastname: value.lastname,
            username: value.username,
            email: value.email,
        }
    }
}

impl vstd::std_specs::convert::FromSpecImpl<NewApiUser> for NewUser {
    open spec fn obeys_from_spec() -> bool {
        true
    }

    open spec fn from_spec(value: NewApiUser) -> Self {
        NewUser {
            firstname: value.firstname,
            lastname: value.lastname,
            username: value.username,
            email: value.email,
        }
    }
}

/// Whether the sequence holds any character that is not alphanumeric.
pub open spec fn has_non_alphanumeric(s: Seq<char>) -> bool {
    exists|i: int| 0 <= i < s.len() && !is_alphanumeric_char(s[i])
}

/// Every failure message of the username checks, in check order: at least
/// three characters, only letters and numbers, and a letter first. An empty
/// username has no first letter.
pub open spec fn username_messages(username: Seq<char>) -> Seq<Seq<char>> {
    (if username.len() < 3 {
        seq![min_length_message(3, username.len())]
    } else {
        seq![]
    }) + (if has_non_alphanumeric(username) {
        seq!["Only letters and numbers allowed"@]
    } else {
        seq![]
    }) + (if username.len() == 0 || !is_alphabetic_char(username[0]) {
        seq!["Has to begin with a letter"@]
    } else {
        seq![]
    })
}

/// The field-keyed failure entries of one registration: for each failing
/// field, its name and all of its messages, in the order password, email,
/// username. A passing field contributes no entry.
pub open spec fn field_errors(password: Seq<char>, email: Seq<char>, username: Seq<char>) -> Seq<
    (Seq<char>, Seq<Seq<char>>),
> {
    (if password_messages(password).len() > 0 {
        seq![("password"@, password_messages(password))]
    } else {
        seq![]
    }) + (if email_matches(email) {
        seq![]
    } else {
        seq![("email"@, seq![no_match_message(email)])]
    }) + (if username_messages(username).len() > 0 {
        seq![("username"@, username_messages(username))]
    } else {
        seq![]
    })
}

/// A failing field is reported under exactly one entry: the three field
/// names are pairwise different, so aggregation never splits one field's
/// messages over two entries.
pub proof fn lemma_field_entries_distinct(password: Seq<char>, email: Seq<char>, username: Seq<char>)
    ensures
        fields_distinct(field_errors(password, email, username)),
{
    reveal_strlit("password");
    reveal_strlit("email");
    reveal_strlit("username");
    assert("password"@.len() == 8);
    assert("email"@.len() == 5);
    assert("password"@[0] == 'p' && "username"@[0] == 'u');
}

impl NewApiUser {
    /// Normalizes the submitted fields in place: names are trimmed, username
    /// and email are trimmed and lower-cased, the password stays untouched.
    pub fn sanitize(&mut self)
        ensures
            final(self).firstname@ == trim_of(old(self).firstname@),
            final(self).lastname@ == trim_of(old(self).lastname@),
            final(self).username@ == normalized_of(old(self).username@),
            final(self).email@ == normalized_of(old(self).email@),
            final(self).password == old(self).password,
    {
        let firstname = trimmed(self.firstname.as_str());
        self.firstname = firstname;
        let lastname = trimmed(self.lastname.as_str());
        self.lastname = lastname;
        let username = normalized(self.username.as_str());
        self.username = username;
        let email = normalized(self.email.as_str());
        self.email = email;
    }

    /// Checks every field and aggregates every failure into one field-keyed
    /// error; returns no error exactly when every field passes.
    pub fn validate(&self) -> (r: Result<(), ValidationApiError>)
        ensures
            match r {
                Ok(()) => field_errors(self.password@, self.email@, self.username@).len() == 0,
                Err(e) => {
                    &&& e.message@ == "Invalid data"@
                    &&& e.invalid_fields.deep_view() == field_errors(
                        self.password@,
                        self.email@,
                        self.username@,
                    )
                    &&& e.invalid_fields@.len() > 0
                },
            },
    {
        let mut errors: Vec<(String, Vec<String>)> = Vec::new();
        if let Some(err) = self.validate_password() {
            errors.push((String::from_str("password"), err));
        }
        proof {
            assert(errors.deep_view() =~= (if password_messages(self.password@).len() > 0 {
                seq![("password"@, password_messages(self.password@))]
            } else {
                Seq::<(Seq<char>, Seq<Seq<char>>)>::empty()
            }));
        }
        let ghost after_password = errors.deep_view();
        if let Some(err) = self.validate_email() {
            errors.push((String::from_str("email"), err));
        }
        proof {
            assert(errors.deep_view() =~= after_password + (if email_matches(self.email@) {
                Seq::<(Seq<char>, Seq<Seq<char>>)>::empty()
            } else {
                seq![("email"@, seq![no_match_message(self.email@)])]
            }));
        }
        let ghost after_email = errors.deep_view();
        if let Some(err) = self.validate_username() {
            errors.push((String::from_str("username"), err));
        }
        proof {
            assert(errors.deep_view() =~= after_email + (if username_messages(
                self.username@,
            ).len() > 0 {
                seq![("username"@, username_messages(self.username@))]
            } else {
                Seq::<(Seq<char>, Seq<Seq<char>>)>::empty()
            }));
            assert(errors.deep_view() =~= field_errors(
                self.password@,
                self.email@,
                self.username@,
            ));
        }
        if errors.len() == 0 {
            Ok(())
        } else {
            Err(ValidationApiError::for_fields(errors))
        }
    }

    /// The username checks: a minimum length and two structural rules, every
    /// failing message collected rather than stopping at the first.
    pub fn validate_username(&self) -> (r: Option<Vec<String>>)
        ensures
            match r {
                Some(msgs) => {
                    &&& msgs.deep_view() == username_messages(self.username@)
                    &&& msgs@.len() > 0
                },
                None => username_messages(self.username@).len() == 0,
            },
    {
        let mut msgs: Vec<String> = Vec::new();
        let mut validator = StringValidator::new();
        let length_rule = StringLengthCriteria::min(3);
        let ghost c0 = Criteria::Length(length_rule);
        validator.add_criteria(Criteria::Length(length_rule));
        match validator.validate(self.username.as_str()) {
            Ok(()) => {},
            Err(e) => {
                msgs = e.messages;
            },
        }
        proof {
            lemma_collect_push(Seq::<Criteria>::empty(), c0, self.username@);
            assert(collect_messages(Seq::<Criteria>::empty(), self.username@)
                =~= Seq::<Seq<char>>::empty());
            assert(msgs.deep_view() =~= (if self.username@.len() < 3 {
                seq![min_length_message(3, self.username@.len())]
            } else {
                Seq::<Seq<char>>::empty()
            }));
        }
        let ghost after_length = msgs.deep_view();
        let username = self.username.as_str();
        let n: usize = username.unicode_len();
        let mut has_bad = false;
        let mut i: usize = 0;
        while i < n
            invariant
                n == username@.len(),
                i <= n,
                has_bad == exists|j: int| 0 <= j < i && !is_alphanumeric_char(username@[j]),
            decreases n - i,
        {
            if !char_is_alphanumeric(username.get_char(i)) {
                has_bad = true;
            }
            i = i + 1;
        }
        if has_bad {
            msgs.push(String::from_str("Only letters and numbers allowed"));
        }
        proof {
            assert(msgs.deep_view() =~= after_length + (if has_non_alphanumeric(self.username@) {
                seq!["Only letters and numbers allowed"@]
            } else {
                Seq::<Seq<char>>::empty()
            }));
        }
        let ghost after_alnum = msgs.deep_view();
        if n == 0 {
            msgs.push(String::from_str("Has to begin with a letter"));
        } else {
            if !char_is_alphabetic(username.get_char(0)) {
                msgs.push(String::from_str("Has to begin with a letter"));
            }
        }
        proof {
            assert(msgs.deep_view() =~= after_alnum + (if self.username@.len() == 0
                || !is_alphabetic_char(self.username@[0]) {
                seq!["Has to begin with a letter"@]
            } else {
                Seq::<Seq<char>>::empty()
            }));
            assert(msgs.deep_view() =~= username_messages(self.username@));
        }
        if msgs.len() == 0 {
            None
        } else {
            Some(msgs)
        }
    }

    /// The email check: the value must match the email pattern.
    pub fn validate_email(&self) -> (r: Option<Vec<String>>)
        ensures
            match r {
                Some(msgs) => {
                    &&& msgs.deep_view() == seq![no_match_message(self.email@)]
                    &&& !email_matches(self.email@)
                },
                None => email_matches(self.email@),
            },
    {
        match EmailValidator.validate(self.email.as_str()) {
            Ok(()) => None,
            Err(e) => Some(e.messages),
        }
    }

    /// The password checks, as `validate_password` runs them.
    pub fn validate_password(&self) -> (r: Option<Vec<String>>)
        ensures
            match r {
                Some(msgs) => {
                    &&& msgs.deep_view() == password_messages(self.password@)
                    &&& msgs@.len() > 0
                },
                None => password_messages(self.password@).len() == 0,
            },
    {
        validate_password(self.password.as_str())
    }
}

/// Runs the composed password rule set against a candidate password and
/// hands back every failure message, or nothing when the password passes.
pub fn validate_password(password: &str) -> (r: Option<Vec<String>>)
    ensures
        match r {
            Some(msgs) => {
                &&& msgs.deep_view() == password_messages(password@)
                &&& msgs@.len() > 0
            },
            None => password_messages(password@).len() == 0,
        },
{
    match PasswordValidator.validate(password) {
        Ok(()) => None,
        Err(e) => Some(e.messages),
    }
}

/// The username-immutability rule of a profile change: the stored record and
/// the changed data must name the same username.
pub fn may_change_user(current: &User, changed: &NewApiUser) -> (r: bool)
    ensures
        r == (current.username@ == changed.username@),
{
    current.username == changed.username
}

/// The payload refusing a profile change that renames the user.
pub fn username_change_error() -> (r: ValidationApiError)
    ensures
        r.message@ == "Cannot change user"@,
        r.invalid_fields.deep_view() == seq![("username"@, seq!["May not change username"@])],
{
    let mut fields: Vec<(String, Vec<String>)> = Vec::new();
    fields.push((String::from_str("username"), vec![String::from_str("May not change username")]));
    proof {
        assert(fields.deep_view() =~~= seq![("username"@, seq!["May not change username"@])]);
    }
    ValidationApiError::new(String::from_str("Cannot change user"), fields)
}

/// The email-availability rule of a profile change: the changed email is
/// taken exactly when the store resolved it to a name other than the current
/// user's own.
pub fn email_taken(current_username: &String, found: Option<&String>) -> (r: bool)
    ensures
        r == match found.deep_view() {
            Some(f) => f != current_username@,
            None => false,
        },
{
    match found {
        Some(f) => !f.eq(current_username),
        None => false,
    }
}

/// The payload reporting an email address already in use by someone else.
pub fn email_in_use_error() -> (r: ValidationApiError)
    ensures
        r.message@ == "Invalid data"@,
        r.invalid_fields.deep_view() == seq![("email"@, seq!["Email already in use"@])],
{
    let mut fields: Vec<(String, Vec<String>)> = Vec::new();
    fields.push((String::from_str("email"), vec![String::from_str("Email already in use")]));
    proof {
        assert(fields.deep_view() =~~= seq![("email"@, seq!["Email already in use"@])]);
    }
    ValidationApiError::for_fields(fields)
}

/// A user's farm-owner status as it appears on the wire.
#[derive(Debug, PartialEq, Eq, Structural)]
pub enum ApiFarmOwnerStatus {
    No,
    Yes,
    Requested,
}

impl From<FarmOwnerStatus> for ApiFarmOwnerStatus {
    fn from(value: FarmOwnerStatus) -> (r: Self) {
        match value {
            FarmOwnerStatus::NO => ApiFarmOwnerStatus::No,
            FarmOwnerStatus::YES => ApiFarmOwnerStatus::Yes,
            FarmOwnerStatus::REQUESTED => ApiFarmOwnerStatus::Requested,
        }
    }
}

impl vstd::std_specs::convert::FromSpecImpl<FarmOwnerStatus> for ApiFarmOwnerStatus {
    open spec fn obeys_from_spec() -> bool {
        true
    }

    open spec fn from_spec(value: FarmOwnerStatus) -> Self {
        match value {
            FarmOwnerStatus::NO => ApiFarmOwnerStatus::No,
            FarmOwnerStatus::YES => ApiFarmOwnerStatus::Yes,
            FarmOwnerStatus::REQUESTED => ApiFarmOwnerStatus::Requested,
        }
    }
}

/// A user record as it appears on the wire: the external identifier encoded
/// as URL-safe base64 text, the password digest left out.
pub struct ApiUser {
    pub id: String,
    pub firstname: String,
    pub lastname: String,
    pub username: String,
    pub email: String,
    pub farmowner: ApiFarmOwnerStatus,
}

impl ApiUser {
    /// The wire form of a stored record.
    pub fn from_user(u: User) -> (r: ApiUser)
        ensures
            r.id@ == base64url_of(u.ext_id@),
            r.firstname == u.firstname,
            r.lastname == u.lastname,
            r.username == u.username,
            r.email == u.email,
            r.farmowner == ApiFarmOwnerStatus::from_spec(u.farmowner),
    {
        ApiUser {
            id: b64url_encode(u.ext_id.as_slice()),
            firstname: u.firstname,
            lastname: u.lastname,
            username: u.username,
            email: u.email,
            farmowner: ApiFarmOwnerStatus::from(u.farmowner),
        }
    }
}

} // verus!
