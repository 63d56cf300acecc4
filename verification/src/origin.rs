//! The origin filter: which provenance of catalogue entries a query asks for.
use vstd::prelude::*;
use crate::text::str_eq;

verus! {

/// Provenance of a catalogue entry; shared by all three filter kinds.
/// On the wire it is always the lowercase token, never the variant name.
#[derive(Debug, Clone, Copy, PartialEq, Eq, Structural)]
pub enum Origin {
    All,
    Official,
    Unofficial,
}

/// The lowercase token an origin value puts on the wire.
pub open spec fn origin_chars(o: Origin) -> Seq<char> {
    match o {
        Origin::All => seq!['a', 'l', 'l'],
        Origin::Official => seq!['o', 'f', 'f', 'i', 'c', 'i', 'a', 'l'],
        Origin::Unofficial => seq!['u', 'n', 'o', 'f', 'f', 'i', 'c', 'i', 'a', 'l'],
    }
}

/// Which origin a token denotes, if any.
pub open spec fn origin_of_chars(s: Seq<char>) -> Option<Origin> {
    if s == origin_chars(Origin::All) {
        Some(Origin::All)
    } else if s == origin_chars(Origin::Official) {
        Some(Origin::Official)
    } else if s == origin_chars(Origin::Unofficial) {
        Some(Origin::Unofficial)
    } else {
        None
    }
}

impl Origin {
    /// The token this origin encodes as.
    pub fn token(&self) -> (r: String)
        ensures
            r@ == origin_chars(*self),
    {
        match self {
            Origin::All => {
                let s = "all".to_owned();
                proof {
                    reveal_strlit("all");
                    assert(s@ =~= origin_chars(Origin::All));
                }
                s
            },
            Origin::Official => {
                let s = "official".to_owned();
                proof {
                    reveal_strlit("official");
                    assert(s@ =~= origin_chars(Origin::Official));
                }
                s
            },
            Origin::Unofficial => {
                let s = "unofficial".to_owned();
                proof {
                    reveal_strlit("unofficial");
                    assert(s@ =~= origin_chars(Origin::Unofficial));
                }
                s
            },
        }
    }
}

/// Parse a wire token back into an origin, accepting exactly the three tokens.
pub fn parse_origin(s: &str) -> (r: Option<Origin>)
    ensures
        r == origin_of_chars(s@),
{
    proof {
        reveal_strlit("all");
        reveal_strlit("official");
        reveal_strlit("unofficial");
        assert("all"@ =~= origin_chars(Origin::All));
        assert("official"@ =~= origin_chars(Origin::Official));
        assert("unofficial"@ =~= origin_chars(Origin::Unofficial));
    }
    if str_eq(s, "all") {
        Some(Origin::All)
    } else if str_eq(s, "official") {
        Some(Origin::Official)
    } else if str_eq(s, "unofficial") {
        Some(Origin::Unofficial)
    } else {
        None
    }
}

} // verus!
