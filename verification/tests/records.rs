use alphabill::evaluation_ctx::{tx_order, HANDLE_TX_ORDER};
use alphabill::memory::{pack_pointer, unpack_pointer};
use alphabill::txsystem::token::{ft, nft};
use alphabill::txsystem::{money, TxOrder};

#[test]
fn pack_unpack_roundtrip() {
    assert_eq!((0, 0), unpack_pointer(pack_pointer(0, 0)));
    assert_eq!((0x1000, 17), unpack_pointer(pack_pointer(0x1000, 17)));
    assert_eq!(
        (u32::MAX, 0xffff_ffff),
        unpack_pointer(pack_pointer(u32::MAX, 0xffff_ffff))
    );
    // The packed word is (length << 32) | address.
    assert_eq!(0x0000_0011_0000_1000, pack_pointer(0x1000, 17));
    // A length of 2^32 or more loses its high bits.
    assert_eq!((0x1000, 1), unpack_pointer(pack_pointer(0x1000, 0x1_0000_0001)));
}

fn tx_order_bytes() -> Vec<u8> {
    vec![
        0x01, 0x03, 0x02, 0x00, 0x00, 0x00, // tag 1: partition u32 2
        0x02, 0x01, 0x03, 0x00, 0x00, 0x00, 0x0a, 0x0b, 0x0c, // tag 2: unit id
        0x03, 0x03, 0x06, 0x00, 0x00, 0x00, // tag 3: type u32 6
        0x04, 0x01, 0x02, 0x00, 0x00, 0x00, 0xee, 0xff, // tag 4: reference number
    ]
}

#[test]
fn tx_order_from() {
    let txo = TxOrder::from(&tx_order_bytes()).unwrap();
    assert_eq!(2, txo.partition);
    assert_eq!(6, txo.typ);
    assert_eq!(vec![0x0a, 0x0b, 0x0c], txo.unit_id);
    assert_eq!(Some(vec![0xee, 0xff]), txo.ref_number);
    assert_eq!(0, txo.handle);
}

#[test]
fn tx_order_from_handle_sets_handle() {
    let txo = TxOrder::from_handle(9, &tx_order_bytes()).unwrap();
    assert_eq!(9, txo.handle);

    let txo = tx_order(&tx_order_bytes()).unwrap();
    assert_eq!(HANDLE_TX_ORDER, txo.handle);
}

#[test]
fn tx_order_decode_failure_chains_context() {
    // Tag 3 (the type) holding bytes instead of a u32: coercion error 1,
    // the tag 3 chained on it, and from_handle's context code 12 on top.
    let bad = vec![0x03, 0x01, 0x01, 0x00, 0x00, 0x00, 0xaa];
    assert_eq!(0x0103, TxOrder::from(&bad).unwrap_err().code());
    assert_eq!(0x01030c, TxOrder::from_handle(1, &bad).unwrap_err().code());
}

fn txo_with_type(typ: u32) -> TxOrder {
    TxOrder {
        partition: 1,
        typ,
        unit_id: vec![0x01],
        ref_number: None,
        handle: 1,
    }
}

#[test]
fn money_records() {
    // value 5, counter 9
    let data = vec![
        0x01, 0x02, 0x05, 0x00, 0x00, 0x00, 0x00, 0x00, 0x00, 0x00, //
        0x02, 0x02, 0x09, 0x00, 0x00, 0x00, 0x00, 0x00, 0x00, 0x00,
    ];
    assert_eq!(
        money::Transfer { value: 5, counter: 9 },
        money::Transfer::from(data.clone()).unwrap()
    );
    assert_eq!(
        money::Split { remaining_value: 5, counter: 9 },
        money::Split::from(data.clone()).unwrap()
    );

    assert_eq!(
        money::TxKind::Transfer(money::Transfer { value: 5, counter: 9 }),
        money::tx_attributes(&txo_with_type(1), data.clone()).unwrap()
    );
    assert_eq!(
        money::TxKind::Split(money::Split { remaining_value: 5, counter: 9 }),
        money::tx_attributes(&txo_with_type(2), data.clone()).unwrap()
    );
    // An unrecognised payload type is a decode error, not a fallback.
    assert_eq!(
        1,
        money::tx_attributes(&txo_with_type(3), data).unwrap_err().code()
    );
}

#[test]
fn ft_records_decode_positionally() {
    // symbol "AB", name "tok", type id [1, 2], decimals 8
    let create = vec![
        0x02, 0x00, 0x00, 0x00, 0x41, 0x42, // "AB"
        0x03, 0x00, 0x00, 0x00, 0x74, 0x6f, 0x6b, // "tok"
        0x02, 0x00, 0x00, 0x00, 0x01, 0x02, // [1, 2]
        0x08, 0x00, 0x00, 0x00, // 8
    ];
    assert_eq!(
        ft::CreateType {
            symbol: "AB".to_string(),
            name: "tok".to_string(),
            type_id: vec![0x01, 0x02],
            decimals: 8,
        },
        ft::CreateType::from(create.clone()).unwrap()
    );

    // type id [7], value 1000, nonce [9, 9]
    let mint = vec![
        0x01, 0x00, 0x00, 0x00, 0x07, //
        0xe8, 0x03, 0x00, 0x00, 0x00, 0x00, 0x00, 0x00, //
        0x02, 0x00, 0x00, 0x00, 0x09, 0x09,
    ];
    assert_eq!(
        ft::Mint {
            type_id: vec![0x07],
            value: 1000,
            nonce: vec![0x09, 0x09],
        },
        ft::Mint::from(mint.clone()).unwrap()
    );

    // value 3, type id [7], counter 4
    let transfer = vec![
        0x03, 0x00, 0x00, 0x00, 0x00, 0x00, 0x00, 0x00, //
        0x01, 0x00, 0x00, 0x00, 0x07, //
        0x04, 0x00, 0x00, 0x00, 0x00, 0x00, 0x00, 0x00,
    ];
    assert_eq!(
        ft::Transfer {
            value: 3,
            type_id: vec![0x07],
            counter: 4,
        },
        ft::Transfer::from(transfer.clone()).unwrap()
    );

    // Dispatch by payload type, with error on an unknown one.
    assert!(matches!(
        ft::tx_attributes(&txo_with_type(1), create).unwrap(),
        ft::TxKind::CreateType(_)
    ));
    assert!(matches!(
        ft::tx_attributes(&txo_with_type(3), mint).unwrap(),
        ft::TxKind::Mint(_)
    ));
    assert!(matches!(
        ft::tx_attributes(&txo_with_type(5), transfer.clone()).unwrap(),
        ft::TxKind::Transfer(_)
    ));
    assert_eq!(
        1,
        ft::tx_attributes(&txo_with_type(2), transfer).unwrap_err().code()
    );
}

#[test]
fn ft_truncated_record_is_an_error() {
    // The mint record's value field is cut short.
    let mint = vec![0x01, 0x00, 0x00, 0x00, 0x07, 0xe8, 0x03];
    assert_eq!(2, ft::Mint::from(mint).unwrap_err().code());
}

#[test]
fn nft_tx_attributes_dispatch() {
    let update = vec![
        0x01, 0x01, 0x02, 0x00, 0x00, 0x00, 0xaa, 0xbb, //
        0x02, 0x02, 0x06, 0x00, 0x00, 0x00, 0x00, 0x00, 0x00, 0x00,
    ];
    match nft::tx_attributes(&txo_with_type(12), update.clone()).unwrap() {
        nft::TxKind::Update(u) => {
            assert_eq!(Some(vec![0xaa, 0xbb]), u.data);
            assert_eq!(Some(6), u.counter);
        }
        other => panic!("wrong record kind: {:?}", other),
    }
    // An unrecognised payload type yields the dedicated error code.
    assert_eq!(
        0xff,
        nft::tx_attributes(&txo_with_type(99), update).unwrap_err().code()
    );
}
