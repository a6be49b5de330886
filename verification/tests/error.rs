use alphabill::error::{error_code, Error};

#[test]
fn new() {
    let err = Error::new(1);
    assert_eq!(1, err.code())
}

#[test]
fn chain() {
    let err = Error::new(1);
    assert_eq!(0x0102, err.chain(2).code());
    assert_eq!(0x0103, err.chain(3).code());
}

fn return_err(code: u8) -> Error {
    if code == 1 {
        return Error::new(code);
    }
    return_err(code - 1).chain(code)
}

#[test]
fn chained() {
    assert_eq!(0x010203, return_err(3).code());
    assert_eq!(0x0102030405060708, return_err(8).code());
    assert_eq!(0x030405060708090a, return_err(10).code());
}

fn result() -> Result<u32, Error> {
    Err(Error::new(1))
}

fn err(code: u8, x: Result<u32, Error>) -> Result<u32, Error> {
    error_code(code, x)
}

#[test]
fn resulted() {
    let r = error_code(2, result());
    assert_eq!(0x0102, r.expect_err("expected error return value").code());

    let r = err(0, Ok(3)).unwrap();
    assert_eq!(3, r);

    let r = err(1, Err(Error::new(2))).expect_err("must return Err");
    assert_eq!(0x0201, r.code());
    let r = err(1, err(2, Err(Error::new(3)))).expect_err("must return Err");
    assert_eq!(0x030201, r.code())
}

#[test]
fn chain_zero_is_noop() {
    assert_eq!(0, Error::new(0).chain(0).code());
    assert_eq!(0x07, Error::new(7).chain(0).code());
    assert_eq!(0x0102, Error::new(1).chain(2).chain(0).chain(0).code());
}
