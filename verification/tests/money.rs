use conference::money::Money;
use conference::delegate_registration::quote;

fn m(mantissa: i128, scale: u32) -> Money {
    Money { mantissa, scale }
}

#[test]
fn multiplication_is_exact_when_it_fits() {
    assert_eq!(m(45000, 2).checked_mul(&Money::from_u64(3)), Some(m(135000, 2)));
    assert_eq!(m(-15, 1).checked_mul(&m(3, 2)), Some(m(-45, 3)));
    // a zero factor gives zero at scale 0
    assert_eq!(m(0, 5).checked_mul(&m(12, 2)), Some(m(0, 0)));
}

#[test]
fn multiplication_overflow_is_none() {
    let max = m(79228162514264337593543950335, 0);
    assert_eq!(max.checked_mul(&m(10, 0)), None);
}

#[test]
fn addition_and_subtraction_align_scales() {
    assert_eq!(m(45000, 2).checked_add(&m(5, 0)), Some(m(45500, 2)));
    assert_eq!(m(0, 0).checked_add(&m(5, 1)), Some(m(5, 1)));
    assert_eq!(m(45000, 2).checked_sub(&m(45000, 2)), Some(m(0, 2)));
    assert_eq!(m(0, 0).checked_sub(&m(5, 1)), Some(m(-5, 1)));
    assert_eq!(m(1, 0).checked_sub(&m(25, 1)), Some(m(-15, 1)));
}

#[test]
fn comparison_is_by_value() {
    assert!(m(4500, 1).ge(&m(45000, 2)));
    assert!(m(45000, 2).ge(&m(4500, 1)));
    assert!(!m(44999, 2).ge(&m(450, 0)));
    assert!(m(0, 3).ge(&m(-1, 0)));
    assert!(m(0, 0).is_zero());
    assert!(!m(1, 28).is_zero());
}

#[test]
fn group_quote_with_free_places() {
    // 5 places at 450.00, one of them free: 1800.00 owed, 450.00 off
    let q = quote(m(45000, 2), 5, Some((1, "3FOR2".to_string()))).unwrap();
    assert_eq!(q.discount_amount, m(45000, 2));
    assert_eq!(q.total_cost, m(180000, 2));
    assert_eq!(q.discount_code, Some("3FOR2".to_string()));
}

#[test]
fn group_quote_without_discount() {
    let q = quote(m(12550, 2), 2, None).unwrap();
    assert_eq!(q.discount_amount, m(0, 0));
    assert_eq!(q.total_cost, m(25100, 2));
    assert_eq!(q.discount_code, None);
}

#[test]
fn group_quote_overflow_is_none() {
    assert!(quote(m(79228162514264337593543950335, 0), 2, None).is_none());
}

#[test]
fn group_quote_with_more_free_places_than_delegates() {
    // the discount is not capped: one place at 10 with three free owes -20
    let q = quote(m(1000, 2), 1, Some((3, "FREE3".to_string()))).unwrap();
    assert_eq!(q.discount_amount, m(3000, 2));
    assert_eq!(q.total_cost, m(-2000, 2));
}

#[test]
fn group_quote_of_free_places() {
    let q = quote(m(0, 2), 4, Some((1, "ANY".to_string()))).unwrap();
    assert_eq!(q.discount_amount, m(0, 0));
    assert_eq!(q.total_cost, m(0, 0));
}
