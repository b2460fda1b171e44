use ruma_api::identifiers::{
    check_identifier, EventId, IdParseError, RoomId, UInt, UserId, MAX_SAFE_UINT,
};

#[test]
fn identifiers_need_their_sigil() {
    assert_eq!(RoomId::parse("!room:example.org").unwrap().as_str(), "!room:example.org");
    assert_eq!(EventId::parse("$event").unwrap().as_str(), "$event");
    assert_eq!(UserId::parse("@bot:example.org").unwrap().as_str(), "@bot:example.org");
    assert_eq!(RoomId::parse("room:example.org"), Err(IdParseError::MissingLeadingSigil));
    assert_eq!(RoomId::parse("$event"), Err(IdParseError::MissingLeadingSigil));
    assert_eq!(EventId::parse(""), Err(IdParseError::MissingLeadingSigil));
    assert_eq!(UserId::parse("!room"), Err(IdParseError::MissingLeadingSigil));
}

#[test]
fn identifiers_have_at_most_255_bytes() {
    let longest = format!("!{}", "a".repeat(254));
    assert!(RoomId::parse(&longest).is_ok());
    let too_long = format!("!{}", "a".repeat(255));
    assert_eq!(RoomId::parse(&too_long), Err(IdParseError::MaximumLengthExceeded));
    let no_sigil_and_too_long = "a".repeat(300);
    assert_eq!(
        check_identifier(&no_sigil_and_too_long, '!'),
        Err(IdParseError::MaximumLengthExceeded)
    );
    let multibyte = format!("${}", "é".repeat(127));
    assert!(EventId::parse(&multibyte).is_ok());
    let multibyte_too_long = format!("${}", "é".repeat(128));
    assert_eq!(EventId::parse(&multibyte_too_long), Err(IdParseError::MaximumLengthExceeded));
}

#[test]
fn identifier_clones_are_equal() {
    let id = RoomId::parse("!room:example.org").unwrap();
    assert_eq!(id.clone(), id);
}

#[test]
fn uint_range() {
    assert_eq!(UInt::new(0).unwrap().get(), 0);
    assert_eq!(UInt::new(MAX_SAFE_UINT).unwrap().get(), 9007199254740991);
    assert!(UInt::new(MAX_SAFE_UINT + 1).is_none());
    assert!(UInt::new(u64::MAX).is_none());
}
