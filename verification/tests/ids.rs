use omarec::ids::SessionId;

#[test]
fn session_id_text_reads_back_as_the_same_id() {
    for value in [0u128, 1, 0x0123_4567_89ab_cdef_0123_4567_89ab_cdef, u128::MAX] {
        let id = SessionId::from_u128(value);
        let text = id.to_string();
        assert_eq!(text.len(), 36);
        assert_eq!(SessionId::parse(&text), Some(id));
    }
    assert_eq!(
        SessionId::from_u128(0x0123_4567_89ab_cdef_0123_4567_89ab_cdef).to_string(),
        "01234567-89ab-cdef-0123-456789abcdef"
    );
    assert_eq!(SessionId::parse("not-a-uuid"), None);
}

#[test]
fn fresh_session_ids_differ() {
    assert_ne!(SessionId::new([1; 10]), SessionId::new([2; 10]));
}

#[test]
fn fresh_ids_are_version_seven() {
    let text = SessionId::new([0xff; 10]).to_string();
    assert_eq!(&text[14..15], "7");
    assert!(["8", "9", "a", "b"].contains(&&text[19..20]));
    let request = omarec::ids::fresh_request_id([0; 10]);
    assert_eq!((request >> 76) & 0xf, 7);
    assert_eq!((request >> 62) & 3, 2);
}

#[test]
fn version_seven_layout_puts_time_first_and_keeps_the_random_bytes() {
    let random = [0xab, 0xcd, 0xff, 1, 2, 3, 4, 5, 6, 7];
    let value = omarec::ids::uuid_v7(0x0123_4567_89ab, random);
    assert_eq!(value, 0x0123_4567_89ab_7bcd_bf01_0203_0405_0607);
    assert_eq!(SessionId::from_u128(value).to_string(), "01234567-89ab-7bcd-bf01-020304050607");
    let late = omarec::ids::uuid_v7(u64::MAX, [0; 10]);
    assert_eq!(late, 0xffff_ffff_ffff_7000_8000_0000_0000_0000);
    let now = SessionId::new(random).as_u128();
    assert_eq!(now & 0xffff_ffff_ffff_ffff, 0xbf01_0203_0405_0607);
    assert!(now >> 80 > 0);
}

#[test]
fn session_id_from_str_reads_the_same_text() {
    let id: SessionId = "00000000-0000-0000-0000-000000000001".parse().unwrap();
    assert_eq!(id, SessionId::from_u128(1));
    assert!("nope".parse::<SessionId>().is_err());
}
