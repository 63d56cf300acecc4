//! The cards filter: the fields a card query may set, their wire names, how a
//! filter encodes onto the `cards` resource path, and how an argument object
//! is validated into a filter.
use vstd::prelude::*;
use crate::args::{ArgValue, opt_count};
use crate::errors::{CerebroError, invalid_args_chars, schema_validation_error};
use crate::origin::{Origin, origin_of_chars, parse_origin};
use crate::text::{
    EncodedRequest, build_encoded, encodes, opt_flag_pair, opt_origin_pair, opt_text_pair,
    pairs_view, push_flag_pair, push_origin_pair, push_text_pair, str_eq,
};

verus! {

/// Filter criteria for the card catalogue.  Every field is optional; a field
/// that is `None` contributes nothing to the encoded query.  Two fields carry
/// a wire name that differs from the field name, because the plain name is a
/// reserved word: `exclude_campaign` goes on the wire as `excludeCampaign`,
/// and `type_` as `type`.
#[derive(Debug, Clone)]
pub struct Request {
    pub origin: Option<Origin>,
    pub incomplete: Option<bool>,
    pub author: Option<String>,
    pub boost: Option<String>,
    pub classification: Option<String>,
    pub cost: Option<String>,
    pub exclude_campaign: Option<bool>,
    pub name: Option<String>,
    pub resource: Option<String>,
    pub text: Option<String>,
    pub traits: Option<String>,
    pub type_: Option<String>,
    pub pack: Option<String>,
    pub set: Option<String>,
}

/// The `key=value` pairs a cards filter contributes, one per set field, in
/// field order, under the fields' wire names.
pub open spec fn cards_pairs(r: Request) -> Seq<(Seq<char>, Seq<char>)> {
    opt_origin_pair("origin"@, r.origin) + opt_flag_pair("incomplete"@, r.incomplete)
        + opt_text_pair("author"@, r.author) + opt_text_pair("boost"@, r.boost) + opt_text_pair(
        "classification"@,
        r.classification,
    ) + opt_text_pair("cost"@, r.cost) + opt_flag_pair("excludeCampaign"@, r.exclude_campaign)
        + opt_text_pair("name"@, r.name) + opt_text_pair("resource"@, r.resource) + opt_text_pair(
        "text"@,
        r.text,
    ) + opt_text_pair("traits"@, r.traits) + opt_text_pair("type"@, r.type_) + opt_text_pair(
        "pack"@,
        r.pack,
    ) + opt_text_pair("set"@, r.set)
}

/// How many fields of a cards filter are set.
pub open spec fn cards_set_count(r: Request) -> nat {
    opt_count(r.origin) + opt_count(r.incomplete) + opt_count(r.author) + opt_count(r.boost)
        + opt_count(r.classification) + opt_count(r.cost) + opt_count(r.exclude_campaign)
        + opt_count(r.name) + opt_count(r.resource) + opt_count(r.text) + opt_count(r.traits)
        + opt_count(r.type_) + opt_count(r.pack) + opt_count(r.set)
}

/// The filter with no field set.
pub open spec fn cards_empty() -> Request {
    Request {
        origin: None,
        incomplete: None,
        author: None,
        boost: None,
        classification: None,
        cost: None,
        exclude_campaign: None,
        name: None,
        resource: None,
        text: None,
        traits: None,
        type_: None,
        pack: None,
        set: None,
    }
}

/// The wire names the cards validator recognizes.
pub open spec fn cards_known_key(key: Seq<char>) -> bool {
    ||| key == "origin"@
    ||| key == "incomplete"@
    ||| key == "author"@
    ||| key == "boost"@
    ||| key == "classification"@
    ||| key == "cost"@
    ||| key == "excludeCampaign"@
    ||| key == "name"@
    ||| key == "resource"@
    ||| key == "text"@
    ||| key == "traits"@
    ||| key == "type"@
    ||| key == "pack"@
    ||| key == "set"@
}

/// How one argument entry updates a partially built filter.  The key must be
/// one of the wire names; a string matches a text field, a boolean a flag
/// field, and one of the three origin tokens the origin field; `null` leaves
/// the field unset.  `None` means the entry does not conform; a later entry
/// for the same name overwrites an earlier one, as a JSON object would.
pub open spec fn cards_step(r: Request, key: Seq<char>, v: ArgValue) -> Option<Request> {
    if key == "origin"@ {
        match v {
            ArgValue::Text(s) => match origin_of_chars(s@) {
                Some(o) => Some(Request { origin: Some(o), ..r }),
                None => None,
            },
            ArgValue::Null => Some(Request { origin: None, ..r }),
            _ => None,
        }
    } else if key == "incomplete"@ {
        match v {
            ArgValue::Flag(b) => Some(Request { incomplete: Some(b), ..r }),
            ArgValue::Null => Some(Request { incomplete: None, ..r }),
            _ => None,
        }
    } else if key == "author"@ {
        match v {
            ArgValue::Text(s) => Some(Request { author: Some(s), ..r }),
            ArgValue::Null => Some(Request { author: None, ..r }),
            _ => None,
        }
    } else if key == "boost"@ {
        match v {
            ArgValue::Text(s) => Some(Request { boost: Some(s), ..r }),
            ArgValue::Null => Some(Request { boost: None, ..r }),
            _ => None,
        }
    } else if key == "classification"@ {
        match v {
            ArgValue::Text(s) => Some(Request { classification: Some(s), ..r }),
            ArgValue::Null => Some(Request { classification: None, ..r }),
            _ => None,
        }
    } else if key == "cost"@ {
        match v {
            ArgValue::Text(s) => Some(Request { cost: Some(s), ..r }),
            ArgValue::Null => Some(Request { cost: None, ..r }),
            _ => None,
        }
    } else if key == "excludeCampaign"@ {
        match v {
            ArgValue::Flag(b) => Some(Request { exclude_campaign: Some(b), ..r }),
            ArgValue::Null => Some(Request { exclude_campaign: None, ..r }),
            _ => None,
        }
    } else if key == "name"@ {
        match v {
            ArgValue::Text(s) => Some(Request { name: Some(s), ..r }),
            ArgValue::Null => Some(Request { name: None, ..r }),
            _ => None,
        }
    } else if key == "resource"@ {
        match v {
            ArgValue::Text(s) => Some(Request { resource: Some(s), ..r }),
            ArgValue::Null => Some(Request { resource: None, ..r }),
            _ => None,
        }
    } else if key == "text"@ {
        match v {
            ArgValue::Text(s) => Some(Request { text: Some(s), ..r }),
            ArgValue::Null => Some(Request { text: None, ..r }),
            _ => None,
        }
    } else if key == "traits"@ {
        match v {
            ArgValue::Text(s) => Some(Request { traits: Some(s), ..r }),
            ArgValue::Null => Some(Request { traits: None, ..r }),
            _ => None,
        }
    } else if key == "type"@ {
        match v {
            ArgValue::Text(s) => Some(Request { type_: Some(s), ..r }),
            ArgValue::Null => Some(Request { type_: None, ..r }),
            _ => None,
        }
    } else if key == "pack"@ {
        match v {
            ArgValue::Text(s) => Some(Request { pack: Some(s), ..r }),
            ArgValue::Null => Some(Request { pack: None, ..r }),
            _ => None,
        }
    } else if key == "set"@ {
        match v {
            ArgValue::Text(s) => Some(Request { set: Some(s), ..r }),
            ArgValue::Null => Some(Request { set: None, ..r }),
            _ => None,
        }
    } else {
        None
    }
}

/// Fold the argument entries over a filter, left to right; `None` as soon as
/// one entry does not conform.
pub open spec fn cards_fold(r: Request, args: Seq<(String, ArgValue)>) -> Option<Request>
    decreases args.len(),
{
    if args.len() == 0 {
        Some(r)
    } else {
        match cards_step(r, args[0].0@, args[0].1) {
            Some(r2) => cards_fold(r2, args.drop_first()),
            None => None,
        }
    }
}

/// Apply one argument entry to a partially built filter.
fn apply_arg(r: Request, key: &str, v: &ArgValue) -> (res: Option<Request>)
    ensures
        res == cards_step(r, key@, *v),
{
    if str_eq(key, "origin") {
        match v {
            ArgValue::Text(s) => match parse_origin(s.as_str()) {
                Some(o) => Some(Request { origin: Some(o), ..r }),
                None => None,
            },
            ArgValue::Null => Some(Request { origin: None, ..r }),
            _ => None,
        }
    } else if str_eq(key, "incomplete") {
        match v {
            ArgValue::Flag(b) => Some(Request { incomplete: Some(*b), ..r }),
            ArgValue::Null => Some(Request { incomplete: None, ..r }),
            _ => None,
        }
    } else if str_eq(key, "author") {
        match v {
            ArgValue::Text(s) => Some(Request { author: Some(s.clone()), ..r }),
            ArgValue::Null => Some(Request { author: None, ..r }),
            _ => None,
        }
    } else if str_eq(key, "boost") {
        match v {
            ArgValue::Text(s) => Some(Request { boost: Some(s.clone()), ..r }),
            ArgValue::Null => Some(Request { boost: None, ..r }),
            _ => None,
        }
    } else if str_eq(key, "classification") {
        match v {
            ArgValue::Text(s) => Some(Request { classification: Some(s.clone()), ..r }),
            ArgValue::Null => Some(Request { classification: None, ..r }),
            _ => None,
        }
    } else if str_eq(key, "cost") {
        match v {
            ArgValue::Text(s) => Some(Request { cost: Some(s.clone()), ..r }),
            ArgValue::Null => Some(Request { cost: None, ..r }),
            _ => None,
        }
    } else if str_eq(key, "excludeCampaign") {
        match v {
            ArgValue::Flag(b) => Some(Request { exclude_campaign: Some(*b), ..r }),
            ArgValue::Null => Some(Request { exclude_campaign: None, ..r }),
            _ => None,
        }
    } else if str_eq(key, "name") {
        match v {
            ArgValue::Text(s) => Some(Request { name: Some(s.clone()), ..r }),
            ArgValue::Null => Some(Request { name: None, ..r }),
            _ => None,
        }
    } else if str_eq(key, "resource") {
        match v {
            ArgValue::Text(s) => Some(Request { resource: Some(s.clone()), ..r }),
            ArgValue::Null => Some(Request { resource: None, ..r }),
            _ => None,
        }
    } else if str_eq(key, "text") {
        match v {
            ArgValue::Text(s) => Some(Request { text: Some(s.clone()), ..r }),
            ArgValue::Null => Some(Request { text: None, ..r }),
            _ => None,
        }
    } else if str_eq(key, "traits") {
        match v {
            ArgValue::Text(s) => Some(Request { traits: Some(s.clone()), ..r }),
            ArgValue::Null => Some(Request { traits: None, ..r }),
            _ => None,
        }
    } else if str_eq(key, "type") {
        match v {
            ArgValue::Text(s) => Some(Request { type_: Some(s.clone()), ..r }),
            ArgValue::Null => Some(Request { type_: None, ..r }),
            _ => None,
        }
    } else if str_eq(key, "pack") {
        match v {
            ArgValue::Text(s) => Some(Request { pack: Some(s.clone()), ..r }),
            ArgValue::Null => Some(Request { pack: None, ..r }),
            _ => None,
        }
    } else if str_eq(key, "set") {
        match v {
            ArgValue::Text(s) => Some(Request { set: Some(s.clone()), ..r }),
            ArgValue::Null => Some(Request { set: None, ..r }),
            _ => None,
        }
    } else {
        None
    }
}

impl Request {
    /// The filter with no field set.
    pub fn empty() -> (r: Request)
        ensures
            r == cards_empty(),
    {
        Request {
            origin: None,
            incomplete: None,
            author: None,
            boost: None,
            classification: None,
            cost: None,
            exclude_campaign: None,
            name: None,
            resource: None,
            text: None,
            traits: None,
            type_: None,
            pack: None,
            set: None,
        }
    }

    /// Validate an argument object into a filter: every entry must name one
    /// of the wire names and carry a value of the field's type, or the whole
    /// object is rejected with a schema-validation error — if and only if.
    pub fn from_args(args: &Vec<(String, ArgValue)>) -> (res: Result<Request, CerebroError>)
        ensures
            match res {
                Ok(req) => cards_fold(cards_empty(), args@) == Some(req),
                Err(e) => cards_fold(cards_empty(), args@) is None && (e matches
                    CerebroError::SchemaValidationError(m) && m@ == invalid_args_chars()),
            },
    {
        let mut cur = Request::empty();
        let n: usize = args.len();
        let mut i: usize = 0;
        proof {
            assert(args@.skip(0) =~= args@);
        }
        while i < n
            invariant
                n == args@.len(),
                0 <= i <= n,
                cards_fold(cards_empty(), args@) == cards_fold(cur, args@.skip(i as int)),
            decreases n - i,
        {
            let entry = &args[i];
            proof {
                assert(args@.skip(i as int)[0] == args@[i as int]);
                assert(args@.skip(i as int).drop_first() =~= args@.skip(i as int + 1));
            }
            match apply_arg(cur, entry.0.as_str(), &entry.1) {
                Some(next) => {
                    cur = next;
                },
                None => {
                    return Err(schema_validation_error());
                },
            }
            i += 1;
        }
        proof {
            assert(args@.skip(n as int) =~= Seq::<(String, ArgValue)>::empty());
        }
        Ok(cur)
    }

    /// The wire pairs of this filter: one per set field, in field order.
    pub fn to_pairs(&self) -> (r: Vec<(String, String)>)
        ensures
            pairs_view(r@) == cards_pairs(*self),
    {
        let mut ps: Vec<(String, String)> = Vec::new();
        push_origin_pair(&mut ps, "origin", &self.origin);
        push_flag_pair(&mut ps, "incomplete", &self.incomplete);
        push_text_pair(&mut ps, "author", &self.author);
        push_text_pair(&mut ps, "boost", &self.boost);
        push_text_pair(&mut ps, "classification", &self.classification);
        push_text_pair(&mut ps, "cost", &self.cost);
        push_flag_pair(&mut ps, "excludeCampaign", &self.exclude_campaign);
        push_text_pair(&mut ps, "name", &self.name);
        push_text_pair(&mut ps, "resource", &self.resource);
        push_text_pair(&mut ps, "text", &self.text);
        push_text_pair(&mut ps, "traits", &self.traits);
        push_text_pair(&mut ps, "type", &self.type_);
        push_text_pair(&mut ps, "pack", &self.pack);
        push_text_pair(&mut ps, "set", &self.set);
        proof {
            assert(pairs_view(ps@) =~= cards_pairs(*self));
        }
        ps
    }

    /// Encode this filter against the fixed `cards` resource path.
    pub fn encode(&self) -> (r: EncodedRequest)
        ensures
            encodes(r, "cards"@, cards_pairs(*self)),
    {
        let ps = self.to_pairs();
        build_encoded("cards", &ps)
    }
}

} // verus!
