use subscription::{DecodeError, Subscription};

#[test]
fn empty_request_parse() -> Result<(), DecodeError> {
    let raw_json = "[\"REQ\",\"some-id\",{}]";
    let s: Subscription = Subscription::parse(raw_json)?;
    assert_eq!(s.get_id(), "some-id");
    assert_eq!(s.filters().len(), 1);
    assert_eq!(s.filters().get(0).unwrap().author, None);
    Ok(())
}

#[test]
fn multi_empty_request_parse() -> Result<(), DecodeError> {
    let raw_json = r#"["REQ","some-id",{}]"#;
    let s: Subscription = Subscription::parse(raw_json)?;
    assert_eq!(s.get_id(), "some-id");
    assert_eq!(s.filters().len(), 1);
    assert_eq!(s.filters().get(0).unwrap().author, None);
    Ok(())
}

#[test]
fn incorrect_header() {
    let raw_json = "[\"REQUEST\",\"some-id\",\"{}\"]";
    assert!(Subscription::parse(raw_json).is_err());
}

#[test]
fn req_missing_filters() {
    let raw_json = "[\"REQ\",\"some-id\"]";
    assert!(Subscription::parse(raw_json).is_err());
}

#[test]
fn invalid_filter() {
    // unrecognized field in filter
    let raw_json = "[\"REQ\",\"some-id\",{\"foo\": 3}]";
    assert!(Subscription::parse(raw_json).is_err());
}

#[test]
fn author_filter() -> Result<(), DecodeError> {
    let raw_json = "[\"REQ\",\"some-id\",{\"author\": \"test-author-id\"}]";
    let s: Subscription = Subscription::parse(raw_json)?;
    assert_eq!(s.get_id(), "some-id");
    assert_eq!(s.filters().len(), 1);
    let first_filter = s.filters().get(0).unwrap();
    assert_eq!(first_filter.author, Some("test-author-id".to_owned()));
    Ok(())
}

#[test]
fn empty_filter_has_every_field_unset() {
    let s = Subscription::parse("[\"REQ\",\"some-id\",{}]").unwrap();
    let f = &s.filters()[0];
    assert_eq!(f.id, None);
    assert_eq!(f.author, None);
    assert_eq!(f.kind, None);
    assert_eq!(f.event, None);
    assert_eq!(f.pubkey, None);
    assert_eq!(f.since, None);
    assert_eq!(f.authors, None);
}

#[test]
fn wrong_command_word() {
    let r = Subscription::parse("[\"REQUEST\",\"some-id\",{}]");
    assert_eq!(r.unwrap_err(), DecodeError::UnexpectedCommand);
}

#[test]
fn wrong_command_case() {
    let r = Subscription::parse("[\"req\",\"some-id\",{}]");
    assert_eq!(r.unwrap_err(), DecodeError::UnexpectedCommand);
}

#[test]
fn non_string_command() {
    let r = Subscription::parse("[1,\"some-id\",{}]");
    assert_eq!(r.unwrap_err(), DecodeError::NotAString);
}

#[test]
fn too_few_elements() {
    assert_eq!(
        Subscription::parse("[\"REQ\",\"some-id\"]").unwrap_err(),
        DecodeError::TooFewElements
    );
    assert_eq!(Subscription::parse("[\"REQ\"]").unwrap_err(), DecodeError::TooFewElements);
    assert_eq!(Subscription::parse("[]").unwrap_err(), DecodeError::TooFewElements);
}

#[test]
fn unknown_field_with_name() {
    let r = Subscription::parse("[\"REQ\",\"some-id\",{\"foo\":3}]");
    assert_eq!(r.unwrap_err(), DecodeError::UnknownField("foo".to_owned()));
}

#[test]
fn unknown_field_after_valid_filters() {
    let raw = "[\"REQ\",\"some-id\",{},{\"author\":\"a\"},{\"bogus\":1}]";
    let r = Subscription::parse(raw);
    assert_eq!(r.unwrap_err(), DecodeError::UnknownField("bogus".to_owned()));
}

#[test]
fn malformed_input() {
    assert_eq!(Subscription::parse("not json at all").unwrap_err(), DecodeError::MalformedInput);
}

#[test]
fn root_not_a_sequence() {
    assert_eq!(Subscription::parse("{}").unwrap_err(), DecodeError::NotASequence);
    assert_eq!(Subscription::parse("\"REQ\"").unwrap_err(), DecodeError::NotASequence);
}

#[test]
fn missing_subscription_id() {
    let r = Subscription::parse("[\"REQ\",42,{}]");
    assert_eq!(r.unwrap_err(), DecodeError::MissingSubscriptionId);
}

#[test]
fn author_filter_exact_shape() {
    let s = Subscription::parse("[\"REQ\",\"some-id\",{\"author\":\"test-author-id\"}]").unwrap();
    assert_eq!(s.get_id(), "some-id");
    assert_eq!(s.filters().len(), 1);
    let f = &s.filters()[0];
    assert_eq!(f.author, Some("test-author-id".to_owned()));
    assert_eq!(f.id, None);
    assert_eq!(f.kind, None);
    assert_eq!(f.event, None);
    assert_eq!(f.pubkey, None);
    assert_eq!(f.since, None);
    assert_eq!(f.authors, None);
}

#[test]
fn filter_order_is_preserved() {
    let raw = "[\"REQ\",\"sub\",{\"author\":\"a\"},{\"kind\":5},{\"since\":123}]";
    let s = Subscription::parse(raw).unwrap();
    assert_eq!(s.filters().len(), 3);
    assert_eq!(s.filters()[0].author, Some("a".to_owned()));
    assert_eq!(s.filters()[1].kind, Some(5));
    assert_eq!(s.filters()[2].since, Some(123));
}

#[test]
fn decode_is_referentially_transparent() {
    let raw = "[\"REQ\",\"sub\",{\"author\":\"a\"},{\"kind\":7}]";
    let s1 = Subscription::parse(raw).unwrap();
    let s2 = Subscription::parse(raw).unwrap();
    assert_eq!(s1, s2);
}
