use alphabill::error::Error;
use alphabill::PredicateResult;

fn pr_true() -> u64 {
    PredicateResult::True.encode()
}

fn pr_false() -> u64 {
    PredicateResult::False(None).encode()
}

fn pr_false_literal() -> u64 {
    PredicateResult::False(Some(0x12ff)).encode()
}

fn pr_false_expr(code: u64) -> u64 {
    PredicateResult::False(Some(code)).encode()
}

fn pr_error(err: Error) -> u64 {
    PredicateResult::Error(err).encode()
}

#[test]
fn predicate_result() {
    assert_eq!(0, pr_true());
    assert_eq!(1, pr_false());

    assert_eq!(0x12ff01, pr_false_literal());

    assert_eq!(0x0401, pr_false_expr(4));
    assert_eq!(0x11003301, pr_false_expr(0x110033));

    assert_eq!(0x04, pr_error(Error::new(4)));
    assert_eq!(0x020100, pr_error(Error::new(2).chain(1)));
    assert_eq!(u64::MAX, pr_error(Error::new(0)));
}

#[test]
fn encode_discards_high_reason_bits() {
    // A reason of more than 56 bits loses its high bits in the encoding.
    assert_eq!(
        0xffff_ffff_ffff_ff01,
        PredicateResult::False(Some(u64::MAX)).encode()
    );
}

#[test]
fn encode_outcomes_distinguishable() {
    // Every error encoding is nonzero and never carries a low byte of 1.
    let samples = [0u64, 1, 2, 0x0101, 0xff01, u64::MAX];
    for &c in samples.iter() {
        let mut e = Error::new(0);
        // Build an error whose code is exactly c by chaining bytes.
        for shift in [56u32, 48, 40, 32, 24, 16, 8, 0] {
            e = e.chain(((c >> shift) & 0xff) as u8);
        }
        if e.code() == c {
            let r = PredicateResult::Error(e).encode();
            assert_ne!(0, r);
            assert_ne!(1, r & 0xff);
        }
    }
}
