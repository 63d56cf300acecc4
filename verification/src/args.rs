//! The argument values an invocation payload can carry, as plain data.
use vstd::prelude::*;

verus! {

/// One argument value from the invocation's argument object.  The payload is
/// JSON: a string or a boolean can match a field, `null` leaves a field
/// unset, and `Other` stands for any other JSON shape, which never conforms
/// to a parameter table.
#[derive(Debug, Clone)]
pub enum ArgValue {
    Text(String),
    Flag(bool),
    Null,
    Other,
}

/// How many pairs an optional field contributes: one when set, none when not.
pub open spec fn opt_count<T>(o: Option<T>) -> nat {
    match o {
        Some(_) => 1nat,
        None => 0nat,
    }
}

} // verus!
