//! The structured failure payload of a rejected request: a headline message
//! and, per invalid field, the ordered list of that field's failure messages.
//! Absence of errors is signalled by returning no error value at all; an
//! empty field list is never built by the validators.

use vstd::prelude::*;
use vstd::string::StringExecFns;

verus! {

/// A field-keyed validation failure, ready to be serialized into a response
/// body by the surrounding transport layer.
pub struct ValidationError {
    pub message: String,
    pub invalid_fields: Vec<(String, Vec<String>)>,
}

/// Whether a field list is a proper mapping: no field name occurs twice.
pub open spec fn fields_distinct(fields: Seq<(Seq<char>, Seq<Seq<char>>)>) -> bool {
    forall|i: int, j: int| 0 <= i < j < fields.len() ==> fields[i].0 != fields[j].0
}

impl ValidationError {
    pub fn new(message: String, invalid_fields: Vec<(String, Vec<String>)>) -> (r: Self)
        ensures
            r.message == message,
            r.invalid_fields == invalid_fields,
    {
        Self { message, invalid_fields }
    }

    pub fn for_fields(fields: Vec<(String, Vec<String>)>) -> (r: Self)
        ensures
            r.message@ == "Invalid data"@,
            r.invalid_fields == fields,
    {
        Self { message: String::from_str("Invalid data"), invalid_fields: fields }
    }
}

} // verus!
