use casper_node::types::motes::{FromDecStrErr, Motes};

const LIMIT: &str = "13407807929942597099574024998205846127479365820592393377723561443721764030073546976801874298166903427690031858186486050853753882811946569946433649006084096";
const LARGEST: &str = "13407807929942597099574024998205846127479365820592393377723561443721764030073546976801874298166903427690031858186486050853753882811946569946433649006084095";

#[test]
fn motes_zero_has_no_limb_set() {
    assert_eq!(Motes::zero().limbs(), [0u64; 8]);
    assert_eq!(Motes::zero().as_u64(), Some(0));
}

#[test]
fn motes_from_u64_round_trips() {
    assert_eq!(Motes::from_u64(0), Motes::zero());
    assert_eq!(Motes::from_u64(1_000_000).as_u64(), Some(1_000_000));
    assert_eq!(Motes::from_u64(u64::MAX).as_u64(), Some(u64::MAX));
    assert_eq!(Motes::from_u64(7).limbs(), [7, 0, 0, 0, 0, 0, 0, 0]);
}

#[test]
fn motes_from_limbs_keeps_the_limbs() {
    let limbs = [1, 2, 3, 4, 5, 6, 7, 8];
    assert_eq!(Motes::from_limbs(limbs).limbs(), limbs);
    assert_eq!(Motes::from_limbs(limbs).as_u64(), None);
    assert_eq!(Motes::from_limbs([9, 0, 0, 0, 0, 0, 0, 0]).as_u64(), Some(9));
    assert_eq!(Motes::from_limbs([0, 0, 0, 0, 0, 0, 0, 1]).as_u64(), None);
}

#[test]
fn motes_reads_decimal_text() {
    assert_eq!(Motes::from_dec_str("0"), Ok(Motes::zero()));
    assert_eq!(Motes::from_dec_str("1000000000000"), Ok(Motes::from_u64(1_000_000_000_000)));
    assert_eq!(Motes::from_dec_str("18446744073709551615"), Ok(Motes::from_u64(u64::MAX)));
    assert_eq!(
        Motes::from_dec_str("18446744073709551616"),
        Ok(Motes::from_limbs([0, 1, 0, 0, 0, 0, 0, 0]))
    );
    assert_eq!(
        Motes::from_dec_str("340282366920938463463374607431768211456"),
        Ok(Motes::from_limbs([0, 0, 1, 0, 0, 0, 0, 0]))
    );
}

#[test]
fn motes_empty_text_is_zero() {
    assert_eq!(Motes::from_dec_str(""), Ok(Motes::zero()));
}

#[test]
fn motes_leading_zeros_do_not_count() {
    assert_eq!(Motes::from_dec_str("000042"), Ok(Motes::from_u64(42)));
    let mut padded = "0".repeat(300);
    padded.push_str("17");
    assert_eq!(Motes::from_dec_str(&padded), Ok(Motes::from_u64(17)));
}

#[test]
fn motes_largest_amount_fits() {
    assert_eq!(Motes::from_dec_str(LARGEST), Ok(Motes::from_limbs([u64::MAX; 8])));
}

#[test]
fn motes_limit_is_too_large() {
    assert_eq!(Motes::from_dec_str(LIMIT), Err(FromDecStrErr::InvalidLength));
    let mut longer = LARGEST.to_string();
    longer.push('0');
    assert_eq!(Motes::from_dec_str(&longer), Err(FromDecStrErr::InvalidLength));
}

#[test]
fn motes_refuses_what_is_no_digit() {
    assert_eq!(Motes::from_dec_str("12a4"), Err(FromDecStrErr::InvalidCharacter));
    assert_eq!(Motes::from_dec_str("-1"), Err(FromDecStrErr::InvalidCharacter));
    assert_eq!(Motes::from_dec_str(" 1"), Err(FromDecStrErr::InvalidCharacter));
    assert_eq!(Motes::from_dec_str("1.5"), Err(FromDecStrErr::InvalidCharacter));
    assert_eq!(Motes::from_dec_str("١٢"), Err(FromDecStrErr::InvalidCharacter));
}

#[test]
fn motes_invalid_character_comes_before_length() {
    let mut text = LIMIT.to_string();
    text.push('x');
    assert_eq!(Motes::from_dec_str(&text), Err(FromDecStrErr::InvalidCharacter));
}
