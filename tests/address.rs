use std::convert::TryFrom;

use sneslib::address::error::AddressError;
use sneslib::address::error::AddressError::TryFromIntError;
use sneslib::address::{Address16, Address24};

#[test]
fn mod_test() {
    assert_eq!(Address16::from(0xFFu8), Address16::new(0xFF));
    assert_eq!(Address16::from(0xFFFFu16), Address16::new(0xFFFF));
    assert_eq!(Address16::try_from(0xFFFFu32), Ok(Address16::new(0xFFFF)));
    assert_eq!(Address16::try_from(0x10000u32), Err(TryFromIntError));
    assert_eq!(Address16::try_from(0xFFFFi32), Ok(Address16::new(0xFFFF)));
    assert_eq!(Address16::try_from(-0xFFFFi32), Err(TryFromIntError));
    assert_eq!(Into::<usize>::into(Address16::new(0x1234)), 0x1234usize);

    assert_eq!(Address24::from(0xFFu8), Address24::new(0xFF));
    assert_eq!(Address24::from(0xFFFFu16), Address24::new(0xFFFF));
    assert_eq!(Address24::try_from(0xFFFFFFu32), Ok(Address24::new(0xFFFFFF)));
    assert_eq!(Address24::try_from(0x1000000u32), Err(TryFromIntError));
    assert_eq!(Address24::try_from(0xFFFFFFi32), Ok(Address24::new(0xFFFFFF)));
    assert_eq!(Address24::try_from(-0xFFFFFFi32), Err(TryFromIntError));
    assert_eq!(Into::<usize>::into(Address24::new(0x123456)), 0x123456usize);
    assert_eq!(Address24::from(Address16::new(0x1234)), Address24::new(0x1234));
}

#[test]
fn ops() {
    let a = Address16::new(0x1234);
    let b = Address16::new(0x4321);
    assert_eq!(a + b, Address16::new(0x5555));
    assert_eq!(&a + b, Address16::new(0x5555));
    assert_eq!(a + &b, Address16::new(0x5555));
    assert_eq!(&a + &b, Address16::new(0x5555));
    assert_eq!(a - b, Address16::new(0xCF13));
    assert_eq!(&a - b, Address16::new(0xCF13));
    assert_eq!(a - &b, Address16::new(0xCF13));
    assert_eq!(&a - &b, Address16::new(0xCF13));
    assert_eq!(a & 0x5555, Address16::new(0x1014));
    assert_eq!(&a & 0x5555, Address16::new(0x1014));
    assert_eq!(a & &0x5555, Address16::new(0x1014));
    assert_eq!(&a & &0x5555, Address16::new(0x1014));

    let a = Address24::new(0x123456);
    let b = Address24::new(0x654321);
    assert_eq!(a + b, Address24::new(0x777777));
    assert_eq!(&a + b, Address24::new(0x777777));
    assert_eq!(a + &b, Address24::new(0x777777));
    assert_eq!(&a + &b, Address24::new(0x777777));
    assert_eq!(a - b, Address24::new(0xACF135));
    assert_eq!(&a - b, Address24::new(0xACF135));
    assert_eq!(a - &b, Address24::new(0xACF135));
    assert_eq!(&a - &b, Address24::new(0xACF135));
    assert_eq!(a & 0x555555, Address24::new(0x101454));
    assert_eq!(&a & 0x555555, Address24::new(0x101454));
    assert_eq!(a & &0x555555, Address24::new(0x101454));
    assert_eq!(&a & &0x555555, Address24::new(0x101454));

    let a = Address24::new(0x7EFF00);
    let b = Address16::new(0x200);
    assert_eq!(a + b, Address24::new(0x7E0100));
    assert_eq!(&a + b, Address24::new(0x7E0100));
    assert_eq!(a + &b, Address24::new(0x7E0100));
    assert_eq!(&a + &b, Address24::new(0x7E0100));
}

#[test]
fn address_new_truncates_to_24_bits() {
    assert_eq!(Address24::new(0x12345678), Address24::new(0x345678));
}

#[test]
fn address_byte_decomposition() {
    let a16 = Address16::new(0x1234);
    assert_eq!(a16.low(), 0x34);
    assert_eq!(a16.high(), 0x12);
    let a = Address24::new(0x123456);
    assert_eq!(a.low(), 0x56);
    assert_eq!(a.middle(), 0x34);
    assert_eq!(a.high(), 0x12);
    assert_eq!(a.get_lower_address16(), Address16::new(0x3456));
    assert_eq!(a.index(), 0x123456);
}

#[test]
fn address_try_from_wide_and_signed() {
    assert_eq!(Address24::try_from(0xFFFFFFu64), Ok(Address24::new(0xFFFFFF)));
    assert_eq!(Address24::try_from(0x1000000u128), Err(AddressError::TryFromIntError));
    assert_eq!(Address16::try_from(-1i8), Err(AddressError::TryFromIntError));
    assert_eq!(Address16::try_from(0x7Fi8), Ok(Address16::new(0x7F)));
    assert_eq!(Address24::try_from(-1i64), Err(AddressError::TryFromIntError));
    assert_eq!(Address16::try_from(0x10000i128), Err(AddressError::TryFromIntError));
}

#[test]
fn address_wrapping_arithmetic() {
    assert_eq!(Address16::new(0xFFFF) + Address16::new(2), Address16::new(1));
    assert_eq!(Address24::new(0xFFFFFF) + Address24::new(2), Address24::new(1));
    assert_eq!(Address24::new(0) - Address24::new(1), Address24::new(0xFFFFFF));
    assert_eq!(Address24::new(0x12FFFF) + Address16::new(1), Address24::new(0x120000));
}
