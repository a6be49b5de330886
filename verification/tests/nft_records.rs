#![allow(non_snake_case)]

use alphabill::txsystem::token::nft::{CreateType, Mint, TokenData, Transfer, TypeData, Update};

#[test]
fn TokenData_from_1() {
    let data = vec![
        0x1, 0x1, 0x3, 0x0, 0x0, 0x0, 0x1, 0x5, 0x0, 0x5, 0x2, 0x5a, 0x0, 0x0, 0x0, 0x0, 0x0, 0x0,
        0x0, 0x6, 0x2, 0x0, 0x0, 0x0, 0x0, 0x0, 0x0, 0x0, 0x0,
    ];
    assert_eq!(
        TokenData::from(data).unwrap(),
        TokenData {
            type_id: Some(vec![0x1, 0x5, 0x0]),
            name: None,
            uri: None,
            data: None,
            counter: Some(90),
            locked: Some(0),
        }
    );

    let data = vec![
        0x1, 0x1, 0x1, 0x0, 0x0, 0x0, 0x1, 0x2, 0x4, 0x9, 0x0, 0x0, 0x0, 0x68, 0x6f, 0x74, 0x20,
        0x73, 0x74, 0x75, 0x66, 0x66, 0x3, 0x4, 0x7, 0x0, 0x0, 0x0, 0x66, 0x6f, 0x6f, 0x2f, 0x62,
        0x61, 0x72, 0x4, 0x1, 0x3, 0x0, 0x0, 0x0, 0x9, 0x1, 0x1, 0x5, 0x2, 0x5a, 0x0, 0x0, 0x0,
        0x0, 0x0, 0x0, 0x0, 0x6, 0x2, 0x1, 0x0, 0x0, 0x0, 0x0, 0x0, 0x0, 0x0,
    ];
    assert_eq!(
        TokenData::from(data).unwrap(),
        TokenData {
            type_id: Some(vec![0x1]),
            name: Some("hot stuff".to_string()),
            uri: Some("foo/bar".to_string()),
            data: Some(vec![0x9, 0x1, 0x1]),
            counter: Some(90),
            locked: Some(1),
        }
    );
}

#[test]
fn TypeData_from_1() {
    let data = vec![
        0x2, 0x4, 0x1, 0x0, 0x0, 0x0, 0x41, 0x3, 0x4, 0x5, 0x0, 0x0, 0x0, 0x61, 0x62, 0x63, 0x64,
        0x65,
    ];
    assert_eq!(
        TypeData::from(data).unwrap(),
        TypeData {
            parent_id: None,
            symbol: Some("A".to_string()),
            name: Some("abcde".to_string()),
        }
    );

    let data = vec![
        0x1, 0x1, 0x4, 0x0, 0x0, 0x0, 0xff, 0x0, 0x7f, 0x80, 0x2, 0x4, 0x3, 0x0, 0x0, 0x0, 0x6f,
        0x68, 0x21, 0x3, 0x4, 0x6, 0x0, 0x0, 0x0, 0x71, 0x77, 0x65, 0x72, 0x74, 0x79,
    ];
    assert_eq!(
        TypeData::from(data).unwrap(),
        TypeData {
            parent_id: Some(vec![0xff, 0x0, 0x7f, 0x80]),
            symbol: Some("oh!".to_string()),
            name: Some("qwerty".to_string()),
        }
    );
}

#[test]
fn CreateType_from_1() {
    let data = vec![
        0x1, 0x4, 0x2, 0x0, 0x0, 0x0, 0x41, 0x42, 0x2, 0x4, 0xa, 0x0, 0x0, 0x0, 0x74, 0x65, 0x73,
        0x74, 0x20, 0x74, 0x6f, 0x6b, 0x65, 0x6e,
    ];
    assert_eq!(
        CreateType::from(data).unwrap(),
        CreateType {
            name: Some("test token".to_string()),
            symbol: Some("AB".to_string()),
            type_id: None,
        }
    );
    let data = vec![
        0x1, 0x4, 0x6, 0x0, 0x0, 0x0, 0x41, 0x42, 0x2d, 0x4e, 0x46, 0x54, 0x2, 0x4, 0xb, 0x0, 0x0,
        0x0, 0x66, 0x75, 0x6e, 0x6b, 0x79, 0x20, 0x74, 0x6f, 0x6b, 0x65, 0x6e, 0x3, 0x1, 0x6, 0x0,
        0x0, 0x0, 0x1, 0x2, 0x3, 0x8, 0x9, 0x0,
    ];
    assert_eq!(
        CreateType::from(data).unwrap(),
        CreateType {
            name: Some("funky token".to_string()),
            symbol: Some("AB-NFT".to_string()),
            type_id: Some(vec![0x1, 0x2, 0x3, 0x8, 0x9, 0x0]),
        }
    );
}

#[test]
fn Mint_from_1() {
    let data = vec![
        0x1, 0x4, 0xa, 0x0, 0x0, 0x0, 0x74, 0x65, 0x73, 0x74, 0x20, 0x74, 0x6f, 0x6b, 0x65, 0x6e,
        0x4, 0x2, 0x1, 0x0, 0x0, 0x0, 0x0, 0x0, 0x0, 0x0, 0x5, 0x1, 0x4, 0x0, 0x0, 0x0, 0x8, 0x7,
        0x6, 0x5,
    ];
    assert_eq!(
        Mint::from(data).unwrap(),
        Mint {
            name: Some("test token".to_string()),
            uri: None,
            data: None,
            nonce: Some(1),
            type_id: Some(vec![0x8, 0x7, 0x6, 0x5]),
        }
    );
    let data = vec![
        0x1, 0x4, 0xa, 0x0, 0x0, 0x0, 0x74, 0x65, 0x73, 0x74, 0x20, 0x74, 0x6f, 0x6b, 0x65, 0x6e,
        0x2, 0x4, 0xe, 0x0, 0x0, 0x0, 0x61, 0x62, 0x3a, 0x2f, 0x2f, 0x6e, 0x66, 0x74, 0x2f, 0x74,
        0x6f, 0x6b, 0x65, 0x6e, 0x3, 0x1, 0x5, 0x0, 0x0, 0x0, 0x64, 0x61, 0x74, 0x61, 0x21, 0x4,
        0x2, 0xe8, 0x3, 0x0, 0x0, 0x0, 0x0, 0x0, 0x0, 0x5, 0x1, 0x3, 0x0, 0x0, 0x0, 0xff, 0xff,
        0xff,
    ];
    assert_eq!(
        Mint::from(data).unwrap(),
        Mint {
            name: Some("test token".to_string()),
            uri: Some("ab://nft/token".to_string()),
            data: Some(vec![0x64, 0x61, 0x74, 0x61, 0x21]),
            nonce: Some(1000),
            type_id: Some(vec![0xff, 0xff, 0xff]),
        }
    );
}

#[test]
fn Transfer_from_1() {
    let data = vec![
        0x1, 0x1, 0x4, 0x0, 0x0, 0x0, 0x8, 0x7, 0x6, 0x5, 0x2, 0x2, 0x7, 0x0, 0x0, 0x0, 0x0, 0x0,
        0x0, 0x0,
    ];
    assert_eq!(
        Transfer::from(data).unwrap(),
        Transfer {
            counter: Some(7),
            type_id: Some(vec![0x8, 0x7, 0x6, 0x5]),
        }
    );
    let data = vec![
        0x1, 0x1, 0x4, 0x0, 0x0, 0x0, 0x8, 0x7, 0x6, 0x5, 0x2, 0x2, 0x7, 0x0, 0x0, 0x0, 0x0, 0x0,
        0x0, 0x0,
    ];
    assert_eq!(
        Transfer::from(data).unwrap(),
        Transfer {
            counter: Some(7),
            type_id: Some(vec![0x8, 0x7, 0x6, 0x5]),
        }
    );
}

#[test]
fn Update_from_1() {
    let data = vec![
        0x1, 0x1, 0x0, 0x0, 0x0, 0x0, 0x2, 0x2, 0x6, 0x0, 0x0, 0x0, 0x0, 0x0, 0x0, 0x0,
    ];
    assert_eq!(
        Update::from(data).unwrap(),
        Update {
            counter: Some(6),
            data: Some(Vec::new()),
        }
    );
    let data = vec![
        0x1, 0x1, 0xd, 0x0, 0x0, 0x0, 0x6e, 0x65, 0x77, 0x20, 0x64, 0x61, 0x74, 0x61, 0x20, 0x68,
        0x65, 0x72, 0x65, 0x2, 0x2, 0x7, 0x0, 0x0, 0x0, 0x0, 0x0, 0x0, 0x0,
    ];
    assert_eq!(
        Update::from(data).unwrap(),
        Update {
            counter: Some(7),
            data: Some(vec![
                0x6e, 0x65, 0x77, 0x20, 0x64, 0x61, 0x74, 0x61, 0x20, 0x68, 0x65, 0x72, 0x65
            ]),
        }
    );
}

#[test]
fn unknown_tags_are_ignored() {
    // The same update record, with an unrecognised field (tag 9, a u32)
    // interleaved before, between and after the recognised ones.
    let plain = vec![
        0x1, 0x1, 0x2, 0x0, 0x0, 0x0, 0xaa, 0xbb, 0x2, 0x2, 0x6, 0x0, 0x0, 0x0, 0x0, 0x0, 0x0,
        0x0,
    ];
    let noisy = vec![
        0x9, 0x3, 0x1, 0x0, 0x0, 0x0, // unknown field, tag 9
        0x1, 0x1, 0x2, 0x0, 0x0, 0x0, 0xaa, 0xbb, // data
        0x9, 0x3, 0x2, 0x0, 0x0, 0x0, // unknown field again
        0x2, 0x2, 0x6, 0x0, 0x0, 0x0, 0x0, 0x0, 0x0, 0x0, // counter
        0x9, 0x3, 0x3, 0x0, 0x0, 0x0, // and once more
    ];
    assert_eq!(Update::from(plain).unwrap(), Update::from(noisy).unwrap());
}

#[test]
fn record_with_only_some_fields() {
    // A record is produced even when most fields are absent, and even
    // when only unknown fields are present.
    let only_counter = vec![0x2, 0x2, 0x6, 0x0, 0x0, 0x0, 0x0, 0x0, 0x0, 0x0];
    assert_eq!(
        Update::from(only_counter).unwrap(),
        Update {
            data: None,
            counter: Some(6),
        }
    );
    let only_unknown = vec![0x9, 0x3, 0x1, 0x0, 0x0, 0x0];
    assert_eq!(
        Update::from(only_unknown).unwrap(),
        Update {
            data: None,
            counter: None,
        }
    );
}

#[test]
fn mismatched_field_chains_its_tag() {
    // The counter field (tag 2) holding bytes instead of an integer:
    // the coercion error 1 gets 1 chained for the optional read and the
    // tag 2 on top.
    let data = vec![0x2, 0x1, 0x1, 0x0, 0x0, 0x0, 0xaa];
    let err = Update::from(data).unwrap_err();
    assert_eq!(0x010102, err.code());
}
