//! The sets filter: the fields a set query may set, how a filter encodes onto
//! the `sets` resource path, and how an argument object is validated.
use vstd::prelude::*;
use crate::args::{ArgValue, opt_count};
use crate::errors::{CerebroError, invalid_args_chars, schema_validation_error};
use crate::origin::{Origin, origin_of_chars, parse_origin};
use crate::text::{
    EncodedRequest, build_encoded, encodes, opt_origin_pair, opt_text_pair, pairs_view,
    push_origin_pair, push_text_pair, str_eq,
};

verus! {

/// Filter criteria for the set catalogue.  Every field is optional; a field
/// that is `None` contributes nothing to the encoded query.  The `type_`
/// field goes on the wire as `type`, because the plain name is a reserved
/// word.
#[derive(Debug, Clone)]
pub struct Request {
    pub origin: Option<Origin>,
    pub id: Option<String>,
    pub name: Option<String>,
    pub type_: Option<String>,
}

/// The `key=value` pairs a sets filter contributes, one per set field, in
/// field order.
pub open spec fn sets_pairs(r: Request) -> Seq<(Seq<char>, Seq<char>)> {
    opt_origin_pair("origin"@, r.origin) + opt_text_pair("id"@, r.id) + opt_text_pair(
        "name"@,
        r.name,
    ) + opt_text_pair("type"@, r.type_)
}

/// How many fields of a sets filter are set.
pub open spec fn sets_set_count(r: Request) -> nat {
    opt_count(r.origin) + opt_count(r.id) + opt_count(r.name) + opt_count(r.type_)
}

/// The filter with no field set.
pub open spec fn sets_empty() -> Request {
    Request { origin: None, id: None, name: None, type_: None }
}

/// The wire names the sets validator recognizes.
pub open spec fn sets_known_key(key: Seq<char>) -> bool {
    ||| key == "origin"@
    ||| key == "id"@
    ||| key == "name"@
    ||| key == "type"@
}

/// How one argument entry updates a partially built filter; `None` means the
/// entry does not conform.  A later entry for the same name overwrites an
/// earlier one, as a JSON object would.
pub open spec fn sets_step(r: Request, key: Seq<char>, v: ArgValue) -> Option<Request> {
    if key == "origin"@ {
        match v {
            ArgValue::Text(s) => match origin_of_chars(s@) {
                Some(o) => Some(Request { origin: Some(o), ..r }),
                None => None,
            },
            ArgValue::Null => Some(Request { origin: None, ..r }),
            _ => None,
        }
    } else if key == "id"@ {
        match v {
            ArgValue::Text(s) => Some(Request { id: Some(s), ..r }),
            ArgValue::Null => Some(Request { id: None, ..r }),
            _ => None,
        }
    } else if key == "name"@ {
        match v {
            ArgValue::Text(s) => Some(Request { name: Some(s), ..r }),
            ArgValue::Null => Some(Request { name: None, ..r }),
            _ => None,
        }
    } else if key == "type"@ {
        match v {
            ArgValue::Text(s) => Some(Request { type_: Some(s), ..r }),
            ArgValue::Null => Some(Request { type_: None, ..r }),
            _ => None,
        }
    } else {
        None
    }
}

/// Fold the argument entries over a filter, left to right; `None` as soon as
/// one entry does not conform.
pub open spec fn sets_fold(r: Request, args: Seq<(String, ArgValue)>) -> Option<Request>
    decreases args.len(),
{
    if args.len() == 0 {
        Some(r)
    } else {
        match sets_step(r, args[0].0@, args[0].1) {
            Some(r2) => sets_fold(r2, args.drop_first()),
            None => None,
        }
    }
}

/// Apply one argument entry to a partially built filter.
fn apply_arg(r: Request, key: &str, v: &ArgValue) -> (res: Option<Request>)
    ensures
        res == sets_step(r, key@, *v),
{
    if str_eq(key, "origin") {
        match v {
            ArgValue::Text(s) => match parse_origin(s.as_str()) {
                Some(o) => Some(Request { origin: Some(o), ..r }),
                None => None,
            },
            ArgValue::Null => Some(Request { origin: None, ..r }),
            _ => None,
        }
    } else if str_eq(key, "id") {
        match v {
            ArgValue::Text(s) => Some(Request { id: Some(s.clone()), ..r }),
            ArgValue::Null => Some(Request { id: None, ..r }),
            _ => None,
        }
    } else if str_eq(key, "name") {
        match v {
            ArgValue::Text(s) => Some(Request { name: Some(s.clone()), ..r }),
            ArgValue::Null => Some(Request { name: None, ..r }),
            _ => None,
        }
    } else if str_eq(key, "type") {
        match v {
            ArgValue::Text(s) => Some(Request { type_: Some(s.clone()), ..r }),
            ArgValue::Null => Some(Request { type_: None, ..r }),
            _ => None,
        }
    } else {
        None
    }
}

impl Request {
    /// The filter with no field set.
    pub fn empty() -> (r: Request)
        ensures
            r == sets_empty(),
    {
        Request { origin: None, id: None, name: None, type_: None }
    }

    /// Validate an argument object into a filter: every entry must name one
    /// of the wire names and carry a value of the field's type, or the whole
    /// object is rejected with a schema-validation error — if and only if.
    pub fn from_args(args: &Vec<(String, ArgValue)>) -> (res: Result<Request, CerebroError>)
        ensures
            match res {
                Ok(req) => sets_fold(sets_empty(), args@) == Some(req),
                Err(e) => sets_fold(sets_empty(), args@) is None && (e matches
                    CerebroError::SchemaValidationError(m) && m@ == invalid_args_chars()),
            },
    {
        let mut cur = Request::empty();
        let n: usize = args.len();
        let mut i: usize = 0;
        proof {
            assert(args@.skip(0) =~= args@);
        }
        while i < n
            invariant
                n == args@.len(),
                0 <= i <= n,
                sets_fold(sets_empty(), args@) == sets_fold(cur, args@.skip(i as int)),
            decreases n - i,
        {
            let entry = &args[i];
            proof {
                assert(args@.skip(i as int)[0] == args@[i as int]);
                assert(args@.skip(i as int).drop_first() =~= args@.skip(i as int + 1));
            }
            match apply_arg(cur, entry.0.as_str(), &entry.1) {
                Some(next) => {
                    cur = next;
                },
                None => {
                    return Err(schema_validation_error());
                },
            }
            i += 1;
        }
        proof {
            assert(args@.skip(n as int) =~= Seq::<(String, ArgValue)>::empty());
        }
        Ok(cur)
    }

    /// The wire pairs of this filter: one per set field, in field order.
    pub fn to_pairs(&self) -> (r: Vec<(String, String)>)
        ensures
            pairs_view(r@) == sets_pairs(*self),
    {
        let mut ps: Vec<(String, String)> = Vec::new();
        push_origin_pair(&mut ps, "origin", &self.origin);
        push_text_pair(&mut ps, "id", &self.id);
        push_text_pair(&mut ps, "name", &self.name);
        push_text_pair(&mut ps, "type", &self.type_);
        proof {
            assert(pairs_view(ps@) =~= sets_pairs(*self));
        }
        ps
    }

    /// Encode this filter against the fixed `sets` resource path.
    pub fn encode(&self) -> (r: EncodedRequest)
        ensures
            encodes(r, "sets"@, sets_pairs(*self)),
    {
        let ps = self.to_pairs();
        build_encoded("sets", &ps)
    }
}

} // verus!
