use alphabill::api::SignedByResult;
use alphabill::decoder::Value;
use alphabill::predicates::{multi_sig, time_lock};

#[test]
fn signed_by_codes() {
    assert_eq!(0, SignedByResult::True.code());
    assert_eq!(1, SignedByResult::False.code());
    assert_eq!(2, SignedByResult::P2PKHError.code());
    assert_eq!(7, SignedByResult::NilProof.code());
    assert_eq!(SignedByResult::True, SignedByResult::from_code(0));
    assert_eq!(SignedByResult::NilPKH, SignedByResult::from_code(6));
}

#[test]
fn time_lock_scenarios() {
    let cfg = Value::U64(1000);

    // Before the unlock date the predicate is false with the time-lock
    // reason, whatever the signature check would say.
    let r = time_lock(&cfg, 999, &SignedByResult::True);
    assert_eq!(0xff01, r.encode());

    // Past the unlock date with a valid P2PKH proof: true.
    let r = time_lock(&cfg, 1001, &SignedByResult::True);
    assert_eq!(0, r.encode());

    // Past the unlock date with an invalid proof: false, carrying the
    // signature check's own code as the reason.
    let r = time_lock(&cfg, 1001, &SignedByResult::False);
    assert_eq!(0x0101, r.encode());
    let r = time_lock(&cfg, 1001, &SignedByResult::P2PKHError);
    assert_eq!(0x0201, r.encode());

    // The unlock date itself is already unlocked, and a u32 date works.
    let r = time_lock(&Value::U32(1000), 1000, &SignedByResult::True);
    assert_eq!(0, r.encode());

    // A configuration value that is no unsigned integer.
    let r = time_lock(&Value::Bytes(vec![1]), 1001, &SignedByResult::True);
    assert_eq!(0x0c01, r.encode());
}

use SignedByResult::{NilProof, True};

#[test]
fn multi_sig_scenarios() {
    // Threshold 2 of 3, proofs [valid, nil, valid]: true.
    let r = multi_sig(2, &vec![True, NilProof, True]);
    assert_eq!(0, r.encode());

    // Threshold 2 of 3, proofs [nil, nil, valid]: false, and the walk
    // ends at the second nil, when the threshold is already out of
    // reach.
    let r = multi_sig(2, &vec![NilProof, NilProof, True]);
    assert_eq!(1, r.encode());

    // A present but invalid proof vetoes, even though the two remaining
    // valid proofs would reach the threshold.
    let r = multi_sig(2, &vec![SignedByResult::False, True, True]);
    assert_eq!(0x0101, r.encode());
    let r = multi_sig(2, &vec![True, SignedByResult::P2PKHError, True]);
    assert_eq!(0x0201, r.encode());

    // Exactly enough signatures, none missing.
    let r = multi_sig(3, &vec![True, True, True]);
    assert_eq!(0, r.encode());

    // Everything missing.
    let r = multi_sig(1, &vec![NilProof, NilProof]);
    assert_eq!(1, r.encode());
}
