use anychain_bitcoin::{
    AddressError, AddressFormat, Bitcoin, BitcoinNetwork, NetworkError, Prefix,
};

const FORMATS: [AddressFormat; 5] = [
    AddressFormat::P2PKH,
    AddressFormat::P2WSH,
    AddressFormat::P2SH_P2WPKH,
    AddressFormat::Bech32,
    AddressFormat::CashAddr,
];

#[test]
fn name_is_bitcoin() {
    assert_eq!(Bitcoin::name(), "bitcoin");
}

#[test]
fn legacy_and_script_hash_formats_use_version_zero() {
    assert_eq!(
        Bitcoin::to_address_prefix(AddressFormat::P2PKH),
        Ok(Prefix::VersionByte(0x00))
    );
    assert_eq!(
        Bitcoin::to_address_prefix(AddressFormat::P2WSH),
        Ok(Prefix::VersionByte(0x00))
    );
}

#[test]
fn wrapped_segwit_uses_version_five() {
    assert_eq!(
        Bitcoin::to_address_prefix(AddressFormat::P2SH_P2WPKH),
        Ok(Prefix::VersionByte(0x05))
    );
}

#[test]
fn bech32_uses_the_tag_bc() {
    assert_eq!(
        Bitcoin::to_address_prefix(AddressFormat::Bech32),
        Ok(Prefix::HumanReadablePart("bc".to_string()))
    );
}

#[test]
fn unsupported_format_is_an_error() {
    assert_eq!(
        Bitcoin::to_address_prefix(AddressFormat::CashAddr),
        Err(AddressError::UnsupportedFormat(
            AddressFormat::CashAddr,
            "bitcoin"
        ))
    );
}

#[test]
fn every_emitted_prefix_resolves_to_the_network() {
    let mut supported: u32 = 0;
    for format in FORMATS {
        if let Ok(prefix) = Bitcoin::to_address_prefix(format) {
            assert_eq!(Bitcoin::from_address_prefix(prefix), Ok(Bitcoin));
            supported += 1;
        }
    }
    assert_eq!(supported, 4);
}

#[test]
fn forward_mapping_repeats_itself() {
    for format in FORMATS {
        let first = Bitcoin::to_address_prefix(format);
        let second = Bitcoin::to_address_prefix(format);
        let third = Bitcoin::to_address_prefix(format);
        assert_eq!(first, second);
        assert_eq!(second, third);
    }
}

#[test]
fn version_bytes_zero_and_five_are_accepted() {
    assert_eq!(
        Bitcoin::from_address_prefix(Prefix::VersionByte(0x00)),
        Ok(Bitcoin)
    );
    assert_eq!(
        Bitcoin::from_address_prefix(Prefix::VersionByte(0x05)),
        Ok(Bitcoin)
    );
}

#[test]
fn version_byte_of_another_family_is_rejected() {
    assert_eq!(
        Bitcoin::from_address_prefix(Prefix::VersionByte(0x6f)),
        Err(AddressError::InvalidVersionByte(0x6f, "bitcoin"))
    );
}

#[test]
fn accepted_version_bytes_are_exactly_the_emitted_ones() {
    let mut emitted = Vec::new();
    for format in FORMATS {
        if let Ok(Prefix::VersionByte(byte)) = Bitcoin::to_address_prefix(format) {
            emitted.push(byte);
        }
    }
    for byte in 0..=255u8 {
        let resolved = Bitcoin::from_address_prefix(Prefix::VersionByte(byte));
        if emitted.contains(&byte) {
            assert_eq!(resolved, Ok(Bitcoin));
        } else {
            assert_eq!(
                resolved,
                Err(AddressError::InvalidVersionByte(byte, "bitcoin"))
            );
        }
    }
}

#[test]
fn version_bytes_next_to_accepted_ones_are_rejected() {
    for byte in [0x01u8, 0x04, 0x06, 0xff] {
        assert_eq!(
            Bitcoin::from_address_prefix(Prefix::VersionByte(byte)),
            Err(AddressError::InvalidVersionByte(byte, "bitcoin"))
        );
    }
}

#[test]
fn tag_bc_is_accepted() {
    assert_eq!(
        Bitcoin::from_address_prefix(Prefix::HumanReadablePart("bc".to_string())),
        Ok(Bitcoin)
    );
}

#[test]
fn tag_tb_is_rejected() {
    assert_eq!(
        Bitcoin::from_address_prefix(Prefix::HumanReadablePart("tb".to_string())),
        Err(AddressError::InvalidHumanReadablePrefix("bitcoin"))
    );
}

#[test]
fn tag_matching_is_exact_and_case_sensitive() {
    for tag in ["", "b", "bc1", "BC", "Bc", " bc", "bc ", "bitcoin", "b\u{0441}"] {
        assert_eq!(
            Bitcoin::from_address_prefix(Prefix::HumanReadablePart(tag.to_string())),
            Err(AddressError::InvalidHumanReadablePrefix("bitcoin"))
        );
    }
}

#[test]
fn name_parses_to_the_network() {
    assert_eq!(Bitcoin::from_str("bitcoin"), Ok(Bitcoin));
}

#[test]
fn displayed_name_parses_back() {
    let network = Bitcoin;
    let shown = network.to_string();
    assert_eq!(shown, "bitcoin");
    assert_eq!(shown, Bitcoin::name());
    assert_eq!(Bitcoin::from_str(&shown), Ok(network));
}

#[test]
fn unknown_name_is_rejected() {
    assert_eq!(
        Bitcoin::from_str("not-a-real-network"),
        Err(NetworkError::UnknownNetwork(
            "not-a-real-network".to_string()
        ))
    );
}

#[test]
fn name_parsing_is_exact() {
    for text in ["", "Bitcoin", "BITCOIN", "bitcoin ", " bitcoin", "bitcoi", "bitcoin1", "btc"] {
        assert_eq!(
            Bitcoin::from_str(text),
            Err(NetworkError::UnknownNetwork(text.to_string()))
        );
    }
}

#[test]
fn network_is_a_value_to_compare_and_to_key_by() {
    let a = Bitcoin;
    let b = a;
    assert_eq!(a, b);
    assert!(a <= b && a >= b);
    let mut by_hash = std::collections::HashMap::new();
    by_hash.insert(a, 1);
    by_hash.insert(b, 2);
    assert_eq!(by_hash.len(), 1);
    assert_eq!(by_hash[&Bitcoin], 2);
    let mut by_order = std::collections::BTreeSet::new();
    by_order.insert(a);
    by_order.insert(b);
    assert_eq!(by_order.len(), 1);
    assert_eq!(format!("{:?}", a), "Bitcoin");
}

#[test]
fn name_and_tag_are_written_in_lower_case() {
    let name = Bitcoin::name();
    assert_eq!(name, name.to_lowercase());
    match Bitcoin::to_address_prefix(AddressFormat::Bech32) {
        Ok(Prefix::HumanReadablePart(tag)) => assert_eq!(tag, tag.to_lowercase()),
        other => panic!("no tag for Bech32: {:?}", other),
    }
}
