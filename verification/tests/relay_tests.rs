use moq_xr::relay::{parse_relay_url, RelayError};

#[test]
fn relay_url_parses() {
    let url = parse_relay_url("https://relay.example.org:4443/anon").ok().expect("valid url refused");
    assert_eq!(url.host_str(), Some("relay.example.org"));
    assert_eq!(url.port(), Some(4443));
    assert_eq!(url.path(), "/anon");
}

#[test]
fn relay_url_without_scheme_is_refused() {
    match parse_relay_url("not a url") {
        Err(RelayError::InvalidUrl(e)) => assert_eq!(e, url::ParseError::RelativeUrlWithoutBase),
        Ok(_) => panic!("relative text accepted"),
    }
}

#[test]
fn relay_url_empty_is_refused() {
    assert!(matches!(parse_relay_url(""), Err(RelayError::InvalidUrl(_))));
}

#[test]
fn relay_url_matches_url_parse() {
    let text = "https://relay.example.org/a/b?x=1";
    let ours = parse_relay_url(text).ok().expect("valid url refused");
    assert_eq!(ours, url::Url::parse(text).unwrap());
    assert_eq!(ours.as_str(), text);
}
