//! Query-string encoding: percent-encoding of UTF-8 text, `key=value` pairs,
//! and the assembly of a full query string on a fixed resource path.
use vstd::prelude::*;
use vstd::utf8::encode_utf8;
use crate::origin::{Origin, origin_chars};

verus! {

/// Compare two string slices by their character sequences.
pub fn str_eq(a: &str, b: &str) -> (r: bool)
    ensures
        r == (a@ == b@),
{
    let alen = a.unicode_len();
    let blen = b.unicode_len();
    if alen != blen {
        return false;
    }
    let mut i: usize = 0;
    while i < alen
        invariant
            alen == a@.len(),
            blen == b@.len(),
            alen == blen,
            0 <= i <= alen,
            forall|j: int| 0 <= j < i ==> a@[j] == b@[j],
        decreases alen - i,
    {
        if a.get_char(i) != b.get_char(i) {
            return false;
        }
        i += 1;
    }
    proof {
        assert(a@ =~= b@);
    }
    true
}

/// A byte the query encoding leaves as itself: an ASCII letter, a digit,
/// or one of `-`, `.`, `_`, `~` (the unreserved set of URL syntax).
pub open spec fn is_unreserved(b: u8) -> bool {
    ||| 0x41 <= b <= 0x5A
    ||| 0x61 <= b <= 0x7A
    ||| 0x30 <= b <= 0x39
    ||| b == 0x2D
    ||| b == 0x2E
    ||| b == 0x5F
    ||| b == 0x7E
}

fn is_unreserved_byte(b: u8) -> (r: bool)
    ensures
        r == is_unreserved(b),
{
    (0x41 <= b && b <= 0x5A) || (0x61 <= b && b <= 0x7A) || (0x30 <= b && b <= 0x39) || b == 0x2D
        || b == 0x2E || b == 0x5F || b == 0x7E
}

/// The ASCII code of the uppercase hexadecimal digit of a nibble.
pub open spec fn hex_byte(n: u8) -> u8 {
    if n < 10 {
        (0x30 + n) as u8
    } else {
        (0x37 + n) as u8
    }
}

fn hex_byte_exec(n: u8) -> (r: u8)
    requires
        n < 16,
    ensures
        r == hex_byte(n),
{
    if n < 10 {
        0x30 + n
    } else {
        0x37 + n
    }
}

/// The characters one byte of UTF-8 input contributes to the encoded output:
/// itself if unreserved, else `%` and two uppercase hexadecimal digits.
pub open spec fn pct_byte_chars(b: u8) -> Seq<char> {
    if is_unreserved(b) {
        seq![b as char]
    } else {
        seq!['%', hex_byte((b / 16) as u8) as char, hex_byte((b % 16) as u8) as char]
    }
}

/// The percent-encoding of a byte sequence.
pub open spec fn pct_bytes_chars(bs: Seq<u8>) -> Seq<char>
    decreases bs.len(),
{
    if bs.len() == 0 {
        Seq::empty()
    } else {
        pct_byte_chars(bs[0]) + pct_bytes_chars(bs.drop_first())
    }
}

/// The percent-encoding of a string: its UTF-8 bytes, each encoded in turn.
pub open spec fn pct_chars(s: Seq<char>) -> Seq<char> {
    pct_bytes_chars(encode_utf8(s))
}

/// ASCII bytes read back as the characters they stand for.
pub open spec fn chars_of_ascii(bs: Seq<u8>) -> Seq<char> {
    bs.map_values(|b: u8| b as char)
}

/// Relies on String::from_utf8: bytes that are valid UTF-8 become the string
/// that decodes them, and ASCII bytes decode to themselves, one character each.
#[verifier::external_body]
fn string_from_ascii(bytes: Vec<u8>) -> (r: String)
    requires
        forall|i: int| 0 <= i < bytes@.len() ==> bytes@[i] < 0x80,
    ensures
        r@ == chars_of_ascii(bytes@),
{
    match String::from_utf8(bytes) {
        Ok(s) => s,
        Err(_) => String::new(),
    }
}

/// Percent-encode a string for use as a query key or value: every byte of its
/// UTF-8 form is kept if unreserved and written as `%XX` otherwise.
pub fn percent_encode(s: &str) -> (r: String)
    ensures
        r@ == pct_chars(s@),
{
    let bs: &[u8] = s.as_bytes();
    let n: usize = bs.len();
    let mut out: Vec<u8> = Vec::new();
    let mut i: usize = 0;
    proof {
        assert(bs@.skip(0) =~= bs@);
        assert(chars_of_ascii(out@) =~= Seq::<char>::empty());
    }
    while i < n
        invariant
            bs@ == encode_utf8(s@),
            n == bs@.len(),
            0 <= i <= n,
            forall|k: int| 0 <= k < out@.len() ==> out@[k] < 0x80,
            chars_of_ascii(out@) + pct_bytes_chars(bs@.skip(i as int)) == pct_bytes_chars(bs@),
        decreases n - i,
    {
        let ghost pre = out@;
        let b = bs[i];
        proof {
            assert(bs@.skip(i as int)[0] == b);
            assert(bs@.skip(i as int).drop_first() =~= bs@.skip(i as int + 1));
        }
        if is_unreserved_byte(b) {
            out.push(b);
            proof {
                assert(chars_of_ascii(out@) =~= chars_of_ascii(pre) + pct_byte_chars(b));
            }
        } else {
            out.push(0x25);
            out.push(hex_byte_exec(b / 16));
            out.push(hex_byte_exec(b % 16));
            proof {
                assert(hex_byte((b / 16) as u8) < 0x80 && hex_byte((b % 16) as u8) < 0x80);
                assert(chars_of_ascii(out@) =~= chars_of_ascii(pre) + pct_byte_chars(b));
            }
        }
        proof {
            assert(chars_of_ascii(out@) + pct_bytes_chars(bs@.skip(i as int + 1)) =~= chars_of_ascii(
                pre,
            ) + pct_bytes_chars(bs@.skip(i as int)));
        }
        i += 1;
    }
    proof {
        assert(bs@.skip(n as int) =~= Seq::<u8>::empty());
        assert(chars_of_ascii(out@) + pct_bytes_chars(Seq::<u8>::empty()) =~= chars_of_ascii(out@));
    }
    string_from_ascii(out)
}

/// One encoded `key=value` pair.
pub open spec fn pair_chars(k: Seq<char>, v: Seq<char>) -> Seq<char> {
    pct_chars(k) + seq!['='] + pct_chars(v)
}

/// The view of an owned pair list as character sequences.
pub open spec fn pairs_view(ps: Seq<(String, String)>) -> Seq<(Seq<char>, Seq<char>)> {
    ps.map_values(|p: (String, String)| (p.0@, p.1@))
}

/// The tail of a query string: every pair after the first, each led by `&`.
pub open spec fn query_rest_chars(ps: Seq<(Seq<char>, Seq<char>)>) -> Seq<char>
    decreases ps.len(),
{
    if ps.len() == 0 {
        Seq::empty()
    } else {
        seq!['&'] + pair_chars(ps[0].0, ps[0].1) + query_rest_chars(ps.drop_first())
    }
}

/// The full encoded query string of a pair list, pairs joined by `&`.
pub open spec fn query_chars(ps: Seq<(Seq<char>, Seq<char>)>) -> Seq<char> {
    if ps.len() == 0 {
        Seq::empty()
    } else {
        pair_chars(ps[0].0, ps[0].1) + query_rest_chars(ps.drop_first())
    }
}

/// Append one encoded `key=value` pair to the output.
fn append_pair(out: &mut String, k: &String, v: &String)
    ensures
        final(out)@ == old(out)@ + pair_chars(k@, v@),
{
    let ek = percent_encode(k.as_str());
    out.append(ek.as_str());
    out.append("=");
    let ev = percent_encode(v.as_str());
    out.append(ev.as_str());
    proof {
        reveal_strlit("=");
        assert("="@ =~= seq!['=']);
        assert(out@ =~= old(out)@ + pair_chars(k@, v@));
    }
}

/// Encode a pair list as a query string: `k1=v1&k2=v2&...`, each key and
/// value percent-encoded, in the order the list gives them.
pub fn encode_query(ps: &Vec<(String, String)>) -> (r: String)
    ensures
        r@ == query_chars(pairs_view(ps@)),
{
    let mut out = String::new();
    let n: usize = ps.len();
    if n == 0 {
        return out;
    }
    let first = &ps[0];
    append_pair(&mut out, &first.0, &first.1);
    proof {
        assert(pairs_view(ps@)[0] == (ps@[0].0@, ps@[0].1@));
        assert(pairs_view(ps@).drop_first() =~= pairs_view(ps@).skip(1));
        assert(out@ + query_rest_chars(pairs_view(ps@).skip(1)) =~= query_chars(pairs_view(ps@)));
    }
    let mut i: usize = 1;
    while i < n
        invariant
            n == ps@.len(),
            1 <= i <= n,
            out@ + query_rest_chars(pairs_view(ps@).skip(i as int)) == query_chars(pairs_view(ps@)),
        decreases n - i,
    {
        let ghost pre = out@;
        let p = &ps[i];
        out.append("&");
        append_pair(&mut out, &p.0, &p.1);
        proof {
            reveal_strlit("&");
            assert("&"@ =~= seq!['&']);
            assert(pairs_view(ps@).skip(i as int)[0] == (ps@[i as int].0@, ps@[i as int].1@));
            assert(pairs_view(ps@).skip(i as int).drop_first() =~= pairs_view(ps@).skip(
                i as int + 1,
            ));
            assert(out@ + query_rest_chars(pairs_view(ps@).skip(i as int + 1)) =~= pre
                + query_rest_chars(pairs_view(ps@).skip(i as int)));
        }
        i += 1;
    }
    proof {
        assert(pairs_view(ps@).skip(n as int) =~= Seq::<(Seq<char>, Seq<char>)>::empty());
    }
    out
}

/// The literal token a boolean value puts on the wire.
pub open spec fn bool_chars(b: bool) -> Seq<char> {
    if b {
        seq!['t', 'r', 'u', 'e']
    } else {
        seq!['f', 'a', 'l', 's', 'e']
    }
}

/// The pairs an optional text field contributes: none when absent, one
/// `(wire name, value)` pair when present.
pub open spec fn opt_text_pair(wire: Seq<char>, v: Option<String>) -> Seq<(Seq<char>, Seq<char>)> {
    match v {
        None => Seq::empty(),
        Some(s) => seq![(wire, s@)],
    }
}

/// The pairs an optional boolean field contributes.
pub open spec fn opt_flag_pair(wire: Seq<char>, v: Option<bool>) -> Seq<(Seq<char>, Seq<char>)> {
    match v {
        None => Seq::empty(),
        Some(b) => seq![(wire, bool_chars(b))],
    }
}

/// The pairs an optional origin field contributes.
pub open spec fn opt_origin_pair(wire: Seq<char>, v: Option<Origin>) -> Seq<
    (Seq<char>, Seq<char>),
> {
    match v {
        None => Seq::empty(),
        Some(o) => seq![(wire, origin_chars(o))],
    }
}

/// Append the pair of an optional text field, if the field is set.
pub fn push_text_pair(ps: &mut Vec<(String, String)>, wire: &str, v: &Option<String>)
    ensures
        pairs_view(final(ps)@) == pairs_view(old(ps)@) + opt_text_pair(wire@, *v),
{
    let ghost pre = ps@;
    match v {
        None => {
            proof {
                assert(pairs_view(ps@) =~= pairs_view(pre) + opt_text_pair(wire@, *v));
            }
        },
        Some(s) => {
            ps.push((wire.to_owned(), s.clone()));
            proof {
                assert(pairs_view(ps@) =~= pairs_view(pre) + opt_text_pair(wire@, *v));
            }
        },
    }
}

/// Append the pair of an optional boolean field, if the field is set.
pub fn push_flag_pair(ps: &mut Vec<(String, String)>, wire: &str, v: &Option<bool>)
    ensures
        pairs_view(final(ps)@) == pairs_view(old(ps)@) + opt_flag_pair(wire@, *v),
{
    let ghost pre = ps@;
    match v {
        None => {
            proof {
                assert(pairs_view(ps@) =~= pairs_view(pre) + opt_flag_pair(wire@, *v));
            }
        },
        Some(b) => {
            let tok = if *b {
                "true".to_owned()
            } else {
                "false".to_owned()
            };
            proof {
                reveal_strlit("true");
                reveal_strlit("false");
                assert(tok@ =~= bool_chars(*b));
            }
            ps.push((wire.to_owned(), tok));
            proof {
                assert(pairs_view(ps@) =~= pairs_view(pre) + opt_flag_pair(wire@, *v));
            }
        },
    }
}

/// Append the pair of an optional origin field, if the field is set.
pub fn push_origin_pair(ps: &mut Vec<(String, String)>, wire: &str, v: &Option<Origin>)
    ensures
        pairs_view(final(ps)@) == pairs_view(old(ps)@) + opt_origin_pair(wire@, *v),
{
    let ghost pre = ps@;
    match v {
        None => {
            proof {
                assert(pairs_view(ps@) =~= pairs_view(pre) + opt_origin_pair(wire@, *v));
            }
        },
        Some(o) => {
            ps.push((wire.to_owned(), o.token()));
            proof {
                assert(pairs_view(ps@) =~= pairs_view(pre) + opt_origin_pair(wire@, *v));
            }
        },
    }
}

/// An outbound request for the fetcher: a fixed resource path under the
/// upstream host, and the encoded query string if any field was set.
#[derive(Debug, Clone)]
pub struct EncodedRequest {
    pub path: String,
    pub query: Option<String>,
}

/// What it means for an encoded request to encode a filter: the fixed path,
/// no query string when no field is set, and otherwise exactly the encoded
/// pair list.
pub open spec fn encodes(r: EncodedRequest, path: Seq<char>, ps: Seq<(Seq<char>, Seq<char>)>) -> bool {
    &&& r.path@ == path
    &&& match r.query {
        None => ps.len() == 0,
        Some(q) => ps.len() > 0 && q@ == query_chars(ps),
    }
}

/// Build the request for one resource path from an encoded pair list.
pub fn build_encoded(path: &str, ps: &Vec<(String, String)>) -> (r: EncodedRequest)
    ensures
        encodes(r, path@, pairs_view(ps@)),
{
    if ps.len() == 0 {
        EncodedRequest { path: path.to_owned(), query: None }
    } else {
        let q = encode_query(ps);
        EncodedRequest { path: path.to_owned(), query: Some(q) }
    }
}

/// The request target as one string: the path, then `?` and the query if any.
pub open spec fn target_chars(path: Seq<char>, q: Option<Seq<char>>) -> Seq<char> {
    match q {
        None => path,
        Some(qs) => path + seq!['?'] + qs,
    }
}

impl EncodedRequest {
    /// Render the path-and-query target this request stands for.
    pub fn target(&self) -> (r: String)
        ensures
            r@ == target_chars(
                self.path@,
                match self.query {
                    None => None::<Seq<char>>,
                    Some(q) => Some(q@),
                },
            ),
    {
        match &self.query {
            None => self.path.clone(),
            Some(q) => {
                let mut t = self.path.clone();
                t.append("?");
                t.append(q.as_str());
                proof {
                    reveal_strlit("?");
                    assert("?"@ =~= seq!['?']);
                    assert(t@ =~= self.path@ + seq!['?'] + q@);
                }
                t
            },
        }
    }
}

} // verus!
