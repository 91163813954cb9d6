//! The farm-side field validation: a farm name must be long enough, drawn
//! from a fixed character repertoire, and led by a letter. Every failing
//! check is collected, and a failure is keyed under its field name exactly
//! as the user-side validation does it.

use vstd::prelude::*;
use vstd::string::StrSliceExecFns;
use vstd::string::StringExecFns;
use crate::error::ValidationError as ValidationApiError;
use crate::strutil::{
    is_alphanumeric_char, is_alphabetic_char, char_is_alphanumeric, char_is_alphabetic,
};
use crate::validation::{
    Criteria, StringLengthCriteria, StringValidator, Validator, collect_messages,
    lemma_collect_push, min_length_message,
};

verus! {

/// Whether the character may appear in a farm name: a letter or number, or
/// one of space, minus, dot and underscore.
pub open spec fn farm_name_char_ok(c: char) -> bool {
    is_alphanumeric_char(c) || c == ' ' || c == '-' || c == '.' || c == '_'
}

/// Whether the name holds any character outside the farm-name repertoire.
pub open spec fn has_bad_farm_name_char(name: Seq<char>) -> bool {
    exists|i: int| 0 <= i < name.len() && !farm_name_char_ok(name[i])
}

/// Every failure message of the farm-name checks, in check order: at least
/// three characters, only the allowed repertoire, and a letter first. An
/// empty name has no first letter.
pub open spec fn farm_name_messages(name: Seq<char>) -> Seq<Seq<char>> {
    (if name.len() < 3 {
        seq![min_length_message(3, name.len())]
    } else {
        seq![]
    }) + (if has_bad_farm_name_char(name) {
        seq!["Only letters, numbers and characters `-._` allowed"@]
    } else {
        seq![]
    }) + (if name.len() == 0 || !is_alphabetic_char(name[0]) {
        seq!["Has to begin with a letter"@]
    } else {
        seq![]
    })
}

/// The farm-name checks, every failing message collected rather than
/// stopping at the first.
pub fn validate_farm_name(name: &str) -> (r: Option<Vec<String>>)
    ensures
        match r {
            Some(msgs) => {
                &&& msgs.deep_view() == farm_name_messages(name@)
                &&& msgs@.len() > 0
            },
            None => farm_name_messages(name@).len() == 0,
        },
{
    let mut msgs: Vec<String> = Vec::new();
    let mut validator = StringValidator::new();
    let length_rule = StringLengthCriteria::min(3);
    let ghost c0 = Criteria::Length(length_rule);
    validator.add_criteria(Criteria::Length(length_rule));
    match validator.validate(name) {
        Ok(()) => {},
        Err(e) => {
            msgs = e.messages;
        },
    }
    proof {
        lemma_collect_push(Seq::<Criteria>::empty(), c0, name@);
        assert(collect_messages(Seq::<Criteria>::empty(), name@) =~= Seq::<Seq<char>>::empty());
        assert(msgs.deep_view() =~= (if name@.len() < 3 {
            seq![min_length_message(3, name@.len())]
        } else {
            Seq::<Seq<char>>::empty()
        }));
    }
    let ghost after_length = msgs.deep_view();
    let n: usize = name.unicode_len();
    let mut has_bad = false;
    let mut i: usize = 0;
    while i < n
        invariant
            n == name@.len(),
            i <= n,
            has_bad == exists|j: int| 0 <= j < i && !farm_name_char_ok(name@[j]),
        decreases n - i,
    {
        let c = name.get_char(i);
        if !char_is_alphanumeric(c) && !(c == ' ' || c == '-' || c == '.' || c == '_') {
            has_bad = true;
        }
        i = i + 1;
    }
    if has_bad {
        msgs.push(String::from_str("Only letters, numbers and characters `-._` allowed"));
    }
    proof {
        assert(msgs.deep_view() =~= after_length + (if has_bad_farm_name_char(name@) {
            seq!["Only letters, numbers and characters `-._` allowed"@]
        } else {
            Seq::<Seq<char>>::empty()
        }));
    }
    let ghost after_repertoire = msgs.deep_view();
    if n == 0 {
        msgs.push(String::from_str("Has to begin with a letter"));
    } else {
        if !char_is_alphabetic(name.get_char(0)) {
            msgs.push(String::from_str("Has to begin with a letter"));
        }
    }
    proof {
        assert(msgs.deep_view() =~= after_repertoire + (if name@.len() == 0
            || !is_alphabetic_char(name@[0]) {
            seq!["Has to begin with a letter"@]
        } else {
            Seq::<Seq<char>>::empty()
        }));
        assert(msgs.deep_view() =~= farm_name_messages(name@));
    }
    if msgs.len() == 0 {
        None
    } else {
        Some(msgs)
    }
}

/// The field-keyed failure entries of a new farm: its one validated field.
pub open spec fn farm_field_errors(name: Seq<char>) -> Seq<(Seq<char>, Seq<Seq<char>>)> {
    if farm_name_messages(name).len() > 0 {
        seq![("name"@, farm_name_messages(name))]
    } else {
        seq![]
    }
}

/// Validates the fields of a farm yet to be created; returns no error
/// exactly when every field passes.
pub fn validate_new_farm(name: &str) -> (r: Result<(), ValidationApiError>)
    ensures
        match r {
            Ok(()) => farm_field_errors(name@).len() == 0,
            Err(e) => {
                &&& e.message@ == "Invalid data"@
                &&& e.invalid_fields.deep_view() == farm_field_errors(name@)
                &&& e.invalid_fields@.len() > 0
            },
        },
{
    let mut errors: Vec<(String, Vec<String>)> = Vec::new();
    if let Some(err) = validate_farm_name(name) {
        errors.push((String::from_str("name"), err));
    }
    proof {
        assert(errors.deep_view() =~= farm_field_errors(name@));
    }
    if errors.len() == 0 {
        Ok(())
    } else {
        Err(ValidationApiError::for_fields(errors))
    }
}

} // verus!
