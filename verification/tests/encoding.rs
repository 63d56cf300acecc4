use cerebro_mcp::cards;
use cerebro_mcp::origin::{parse_origin, Origin};
use cerebro_mcp::packs;
use cerebro_mcp::sets;
use cerebro_mcp::text::percent_encode;

#[test]
fn origin_tokens_are_lowercase() {
    assert_eq!(Origin::All.token(), "all");
    assert_eq!(Origin::Official.token(), "official");
    assert_eq!(Origin::Unofficial.token(), "unofficial");
}

#[test]
fn parse_origin_accepts_exactly_the_tokens() {
    assert!(matches!(parse_origin("all"), Some(Origin::All)));
    assert!(matches!(parse_origin("official"), Some(Origin::Official)));
    assert!(matches!(parse_origin("unofficial"), Some(Origin::Unofficial)));
    assert!(parse_origin("Official").is_none());
    assert!(parse_origin("").is_none());
    assert!(parse_origin("everything").is_none());
}

#[test]
fn origin_official_encodes_as_origin_official() {
    let mut r = sets::Request::empty();
    r.origin = Some(Origin::Official);
    let enc = r.encode();
    assert_eq!(enc.path, "sets");
    assert_eq!(enc.query.unwrap(), "origin=official");
}

#[test]
fn origin_all_encodes_as_origin_all() {
    let mut r = packs::Request::empty();
    r.origin = Some(Origin::All);
    let enc = r.encode();
    assert_eq!(enc.query.unwrap(), "origin=all");
}

#[test]
fn exclude_campaign_uses_wire_name_override() {
    let mut r = cards::Request::empty();
    r.exclude_campaign = Some(true);
    let enc = r.encode();
    assert_eq!(enc.query.unwrap(), "excludeCampaign=true");
}

#[test]
fn type_field_uses_wire_name_override() {
    let mut r = cards::Request::empty();
    r.type_ = Some("ally".to_string());
    let enc = r.encode();
    assert_eq!(enc.query.unwrap(), "type=ally");
}

#[test]
fn false_flag_encodes_as_false() {
    let mut r = cards::Request::empty();
    r.incomplete = Some(false);
    let enc = r.encode();
    assert_eq!(enc.query.unwrap(), "incomplete=false");
}

#[test]
fn single_field_encodes_one_percent_encoded_pair() {
    let mut r = cards::Request::empty();
    r.name = Some("Iron Man".to_string());
    let pairs = r.to_pairs();
    assert_eq!(pairs.len(), 1);
    let enc = r.encode();
    assert_eq!(enc.query.unwrap(), "name=Iron%20Man");
}

#[test]
fn empty_cards_filter_gives_bare_path() {
    let r = cards::Request::empty();
    assert_eq!(r.to_pairs().len(), 0);
    let enc = r.encode();
    assert_eq!(enc.path, "cards");
    assert!(enc.query.is_none());
    assert_eq!(enc.target(), "cards");
}

#[test]
fn empty_packs_and_sets_filters_give_bare_paths() {
    let enc = packs::Request::empty().encode();
    assert_eq!(enc.path, "packs");
    assert!(enc.query.is_none());
    let enc = sets::Request::empty().encode();
    assert_eq!(enc.path, "sets");
    assert!(enc.query.is_none());
}

#[test]
fn fields_encode_in_definition_order() {
    let mut r = cards::Request::empty();
    r.set = Some("y".to_string());
    r.origin = Some(Origin::All);
    r.name = Some("x".to_string());
    let enc = r.encode();
    assert_eq!(enc.query.as_deref(), Some("origin=all&name=x&set=y"));
    assert_eq!(enc.target(), "cards?origin=all&name=x&set=y");
}

#[test]
fn percent_encoding_keeps_unreserved_bytes() {
    assert_eq!(
        percent_encode("AZaz09-._~"),
        "AZaz09-._~"
    );
}

#[test]
fn percent_encoding_escapes_reserved_bytes() {
    assert_eq!(percent_encode("a b&c=d"), "a%20b%26c%3Dd");
    assert_eq!(percent_encode("100%"), "100%25");
    assert_eq!(percent_encode("a/b?c#d"), "a%2Fb%3Fc%23d");
}

#[test]
fn percent_encoding_escapes_utf8_bytes() {
    assert_eq!(percent_encode("café"), "caf%C3%A9");
    assert_eq!(percent_encode("S.H.I.E.L.D."), "S.H.I.E.L.D.");
}

#[test]
fn base_url_is_the_fixed_host() {
    assert_eq!(
        cerebro_mcp::BASE_URL,
        "https://cerebro-beta-bot.herokuapp.com/"
    );
}
