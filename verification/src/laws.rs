//! Laws of the request encoder, stated and proved over the pair-list and
//! query-string specifications: each set field contributes exactly one pair,
//! a filter with exactly one field set encodes as that one pair and nothing
//! else, and a filter with no fields set encodes as no query at all.
use vstd::prelude::*;
use crate::args::ArgValue;
use crate::cards;
use crate::packs;
use crate::schema::{is_cards_schema, is_packs_schema, is_sets_schema, FieldSpec};
use crate::sets;
use crate::text::{pair_chars, query_chars, query_rest_chars};

verus! {

/// A cards filter contributes exactly one pair per set field and none for an
/// unset field: the pair list is as long as the number of set fields.
#[verifier::rlimit(50)]
pub proof fn cards_pair_per_set_field(r: cards::Request)
    ensures
        cards::cards_pairs(r).len() == cards::cards_set_count(r),
{
}

/// A packs filter contributes exactly one pair per set field.
#[verifier::rlimit(50)]
pub proof fn packs_pair_per_set_field(r: packs::Request)
    ensures
        packs::packs_pairs(r).len() == packs::packs_set_count(r),
{
}

/// A sets filter contributes exactly one pair per set field.
#[verifier::rlimit(50)]
pub proof fn sets_pair_per_set_field(r: sets::Request)
    ensures
        sets::sets_pairs(r).len() == sets::sets_set_count(r),
{
}

/// A pair list of length one encodes as that one `key=value` pair, each side
/// percent-encoded, and nothing else.
pub proof fn single_pair_query(ps: Seq<(Seq<char>, Seq<char>)>)
    requires
        ps.len() == 1,
    ensures
        query_chars(ps) == pair_chars(ps[0].0, ps[0].1),
{
    assert(ps.drop_first() =~= Seq::<(Seq<char>, Seq<char>)>::empty());
    assert(query_rest_chars(ps.drop_first()) =~= Seq::<char>::empty());
    assert(pair_chars(ps[0].0, ps[0].1) + Seq::<char>::empty() =~= pair_chars(ps[0].0, ps[0].1));
}

/// A cards filter with exactly one field set encodes as exactly one
/// `key=value` pair, percent-encoded, with no other parameters.
pub proof fn cards_single_field_query(r: cards::Request)
    requires
        cards::cards_set_count(r) == 1,
    ensures
        cards::cards_pairs(r).len() == 1,
        query_chars(cards::cards_pairs(r)) == pair_chars(
            cards::cards_pairs(r)[0].0,
            cards::cards_pairs(r)[0].1,
        ),
{
    cards_pair_per_set_field(r);
    single_pair_query(cards::cards_pairs(r));
}

/// A packs filter with exactly one field set encodes as exactly one pair.
pub proof fn packs_single_field_query(r: packs::Request)
    requires
        packs::packs_set_count(r) == 1,
    ensures
        packs::packs_pairs(r).len() == 1,
        query_chars(packs::packs_pairs(r)) == pair_chars(
            packs::packs_pairs(r)[0].0,
            packs::packs_pairs(r)[0].1,
        ),
{
    packs_pair_per_set_field(r);
    single_pair_query(packs::packs_pairs(r));
}

/// A sets filter with exactly one field set encodes as exactly one pair.
pub proof fn sets_single_field_query(r: sets::Request)
    requires
        sets::sets_set_count(r) == 1,
    ensures
        sets::sets_pairs(r).len() == 1,
        query_chars(sets::sets_pairs(r)) == pair_chars(
            sets::sets_pairs(r)[0].0,
            sets::sets_pairs(r)[0].1,
        ),
{
    sets_pair_per_set_field(r);
    single_pair_query(sets::sets_pairs(r));
}

/// A cards filter with no fields set contributes no pairs, so its encoded
/// request carries no query string at all: the bare resource path.
pub proof fn cards_no_fields_no_query(r: cards::Request)
    requires
        cards::cards_set_count(r) == 0,
    ensures
        cards::cards_pairs(r).len() == 0,
        query_chars(cards::cards_pairs(r)) == Seq::<char>::empty(),
{
    cards_pair_per_set_field(r);
}

/// A packs filter with no fields set encodes as no query at all.
pub proof fn packs_no_fields_no_query(r: packs::Request)
    requires
        packs::packs_set_count(r) == 0,
    ensures
        packs::packs_pairs(r).len() == 0,
        query_chars(packs::packs_pairs(r)) == Seq::<char>::empty(),
{
    packs_pair_per_set_field(r);
}

/// A sets filter with no fields set encodes as no query at all.
pub proof fn sets_no_fields_no_query(r: sets::Request)
    requires
        sets::sets_set_count(r) == 0,
    ensures
        sets::sets_pairs(r).len() == 0,
        query_chars(sets::sets_pairs(r)) == Seq::<char>::empty(),
{
    sets_pair_per_set_field(r);
}

/// Validation and the advertised cards parameter table agree: an argument
/// entry conforms only under one of the table's wire names, the recognized
/// names are exactly the table's wire names, and every recognized name takes
/// at least a `null` value.
pub proof fn cards_args_follow_schema(
    fs: Seq<FieldSpec>,
    r: cards::Request,
    key: Seq<char>,
    v: ArgValue,
)
    requires
        is_cards_schema(fs),
    ensures
        cards::cards_step(r, key, v) is Some ==> cards::cards_known_key(key),
        cards::cards_known_key(key) <==> exists|i: int|
            0 <= i < fs.len() && #[trigger] fs[i].wire@ == key,
        cards::cards_known_key(key) ==> cards::cards_step(r, key, ArgValue::Null) is Some,
{
    if cards::cards_known_key(key) {
        if key == "origin"@ {
            assert(fs[0].wire@ == key);
        } else if key == "incomplete"@ {
            assert(fs[1].wire@ == key);
        } else if key == "author"@ {
            assert(fs[2].wire@ == key);
        } else if key == "boost"@ {
            assert(fs[3].wire@ == key);
        } else if key == "classification"@ {
            assert(fs[4].wire@ == key);
        } else if key == "cost"@ {
            assert(fs[5].wire@ == key);
        } else if key == "excludeCampaign"@ {
            assert(fs[6].wire@ == key);
        } else if key == "name"@ {
            assert(fs[7].wire@ == key);
        } else if key == "resource"@ {
            assert(fs[8].wire@ == key);
        } else if key == "text"@ {
            assert(fs[9].wire@ == key);
        } else if key == "traits"@ {
            assert(fs[10].wire@ == key);
        } else if key == "type"@ {
            assert(fs[11].wire@ == key);
        } else if key == "pack"@ {
            assert(fs[12].wire@ == key);
        } else {
            assert(fs[13].wire@ == key);
        }
    }
}

/// Validation and the advertised packs parameter table agree.
pub proof fn packs_args_follow_schema(
    fs: Seq<FieldSpec>,
    r: packs::Request,
    key: Seq<char>,
    v: ArgValue,
)
    requires
        is_packs_schema(fs),
    ensures
        packs::packs_step(r, key, v) is Some ==> packs::packs_known_key(key),
        packs::packs_known_key(key) <==> exists|i: int|
            0 <= i < fs.len() && #[trigger] fs[i].wire@ == key,
        packs::packs_known_key(key) ==> packs::packs_step(r, key, ArgValue::Null) is Some,
{
    if packs::packs_known_key(key) {
        if key == "origin"@ {
            assert(fs[0].wire@ == key);
        } else if key == "incomplete"@ {
            assert(fs[1].wire@ == key);
        } else if key == "id"@ {
            assert(fs[2].wire@ == key);
        } else {
            assert(fs[3].wire@ == key);
        }
    }
}

/// Validation and the advertised sets parameter table agree.
pub proof fn sets_args_follow_schema(
    fs: Seq<FieldSpec>,
    r: sets::Request,
    key: Seq<char>,
    v: ArgValue,
)
    requires
        is_sets_schema(fs),
    ensures
        sets::sets_step(r, key, v) is Some ==> sets::sets_known_key(key),
        sets::sets_known_key(key) <==> exists|i: int|
            0 <= i < fs.len() && #[trigger] fs[i].wire@ == key,
        sets::sets_known_key(key) ==> sets::sets_step(r, key, ArgValue::Null) is Some,
{
    if sets::sets_known_key(key) {
        if key == "origin"@ {
            assert(fs[0].wire@ == key);
        } else if key == "id"@ {
            assert(fs[1].wire@ == key);
        } else if key == "name"@ {
            assert(fs[2].wire@ == key);
        } else {
            assert(fs[3].wire@ == key);
        }
    }
}

} // verus!
