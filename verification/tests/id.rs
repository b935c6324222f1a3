use agent::id::Uuid;

#[test]
fn parse_str_reads_the_value() {
    let id = Uuid::parse_str("14bc4472-21f5-11ec-a6ef-13ef7ae4bd77").unwrap();
    assert_eq!(id.as_u128(), 0x14bc4472_21f5_11ec_a6ef_13ef7ae4bd77);
    assert_eq!(id, Uuid::from_u128(0x14bc4472_21f5_11ec_a6ef_13ef7ae4bd77));
    assert_eq!(
        Uuid::parse_str("00000000-0000-0000-0000-000000000000"),
        Some(Uuid::from_u128(0))
    );
    assert_eq!(
        Uuid::parse_str("ffffffff-ffff-ffff-ffff-ffffffffffff"),
        Some(Uuid::from_u128(u128::MAX))
    );
}

#[test]
fn parse_str_reads_every_form() {
    let id = Some(Uuid::from_u128(0xa1a2a3a4_b1b2_c1c2_d1d2_d3d4d5d6d7d8));
    assert_eq!(Uuid::parse_str("a1a2a3a4-b1b2-c1c2-d1d2-d3d4d5d6d7d8"), id);
    assert_eq!(Uuid::parse_str("a1a2a3a4b1b2c1c2d1d2d3d4d5d6d7d8"), id);
    assert_eq!(Uuid::parse_str("urn:uuid:a1a2a3a4-b1b2-c1c2-d1d2-d3d4d5d6d7d8"), id);
    assert_eq!(Uuid::parse_str("{a1a2a3a4-b1b2-c1c2-d1d2-d3d4d5d6d7d8}"), id);
    assert_eq!(Uuid::parse_str("A1A2A3A4-B1B2-C1C2-D1D2-D3D4D5D6D7D8"), id);
}

#[test]
fn parse_str_rejects_what_is_no_identifier() {
    for text in [
        "",
        "a1a2a3a4",
        "a1a2a3a4-b1b2-c1c2-d1d2-d3d4d5d6d7d",
        "a1a2a3a4-b1b2-c1c2-d1d2-d3d4d5d6d7d8a",
        "a1a2a3a4-b1b2-c1c2-d1d2-d3d4d5d6d7dx",
        "a1a2a3a4+b1b2-c1c2-d1d2-d3d4d5d6d7d8",
        "{a1a2a3a4b1b2c1c2d1d2d3d4d5d6d7d8}",
    ] {
        assert_eq!(Uuid::parse_str(text), None, "{}", text);
    }
}

#[test]
fn to_string_writes_the_hyphenated_form() {
    assert_eq!(
        Uuid::from_u128(0xa1a2a3a4_b1b2_c1c2_d1d2_d3d4d5d6d7d8).to_string(),
        "a1a2a3a4-b1b2-c1c2-d1d2-d3d4d5d6d7d8"
    );
    assert_eq!(Uuid::from_u128(0).to_string(), "00000000-0000-0000-0000-000000000000");
    assert_eq!(Uuid::from_u128(10).to_string(), "00000000-0000-0000-0000-00000000000a");
    assert_eq!(Uuid::from_u128(u128::MAX).to_string(), "ffffffff-ffff-ffff-ffff-ffffffffffff");
    assert_eq!(
        Uuid::from_u128(0x0123456789abcdef_0123456789abcdef).to_string(),
        "01234567-89ab-cdef-0123-456789abcdef"
    );
}

#[test]
fn parse_str_undoes_to_string() {
    for value in [0u128, 1, 0xdead_beef, 1 << 127, u128::MAX, 0x14bc4472_21f5_11ec_a6ef_13ef7ae4bd77] {
        let id = Uuid::from_u128(value);
        assert_eq!(Uuid::parse_str(&id.to_string()), Some(id));
    }
}

#[test]
fn identifiers_agree_with_the_uuid_crate() {
    let theirs = uuid::Uuid::parse_str("14bc4472-21f5-11ec-a6ef-13ef7ae4bd77").unwrap();
    let ours = Uuid::parse_str("14bc4472-21f5-11ec-a6ef-13ef7ae4bd77").unwrap();
    assert_eq!(ours.as_u128(), theirs.as_u128());
    assert_eq!(ours.to_string(), theirs.to_string());
}
