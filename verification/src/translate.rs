//! Translation of store-level failure information into the typed
//! error set: the one place that understands store-specific error
//! codes.

use vstd::prelude::*;
use vstd::string::StringExecFns;
use crate::models::DBError;

verus! {

/// The code a relational store reports when an inserted row references
/// a missing parent row.
pub open spec fn foreign_key_violation_code() -> Seq<char> {
    "23503"@
}

/// The store's error code for a foreign-key violation, as text.
pub fn foreign_key_violation() -> (r: &'static str)
    ensures
        r@ == foreign_key_violation_code(),
{
    "23503"
}

/// Whether a reported error code signals a foreign-key violation.
pub open spec fn is_foreign_key_violation(code: Option<Seq<char>>) -> bool {
    code matches Some(c) && c == foreign_key_violation_code()
}

/// Classifies a failed insertion of an answer. A foreign-key
/// violation means the referenced question does not exist: that is the
/// caller's fault and carries the offending identifier. Every other
/// failure is the store's fault and carries the store's message.
pub fn translate_insert_error(code: Option<String>, message: String, question_uuid: String) -> (r:
    DBError)
    ensures
        is_foreign_key_violation(
            match code {
                Some(c) => Some(c@),
                None => None,
            },
        ) ==> (r matches DBError::InvalidUUID(u) && u@ == question_uuid@),
        !is_foreign_key_violation(
            match code {
                Some(c) => Some(c@),
                None => None,
            },
        ) ==> (r matches DBError::Other(m) && m@ == message@),
{
    match code {
        Some(c) => {
            let fk = String::from_str(foreign_key_violation());
            if c == fk {
                DBError::InvalidUUID(question_uuid)
            } else {
                DBError::Other(message)
            }
        },
        None => DBError::Other(message),
    }
}

} // verus!
