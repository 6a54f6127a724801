use value_types::Complex;

fn c<T>(re: T, im: T) -> Complex<T> {
    Complex { re, im }
}

#[test]
fn add_leaves_operands_unchanged() {
    let c1 = c(12u32, 12u32);
    let c2 = c(32u32, 1u32);
    let sum = c1 + c2;
    assert_eq!((sum.re, sum.im), (44, 13));
    assert_eq!((c1.re, c1.im), (12, 12));
    assert!(sum == c(44, 13));
}

#[test]
fn add_commutes_and_associates() {
    let a = c(3i64, -7i64);
    let b = c(10i64, 4i64);
    let d = c(-5i64, 100i64);
    assert!(a + b == b + a);
    assert!((a + b) + d == a + (b + d));
    let s = (a + b) + d;
    assert_eq!((s.re, s.im), (8, 97));
}

#[test]
fn add_mixed_component_types() {
    let x: u32 = 5;
    let y: u32 = 9;
    let left = c(1u32, 2u32);
    let right = c(&x, &y);
    let sum: Complex<u32> = left + right;
    assert_eq!((sum.re, sum.im), (6, 11));
}

#[test]
fn add_assign_equals_add() {
    let a = c(12u32, 12u32);
    let b = c(32u32, 1u32);
    let mut m = a;
    m.add_assign(b);
    assert!(m == a + b);
    assert_eq!((m.re, m.im), (44, 13));
    assert!(!(m == a));
}

#[test]
fn negate_components() {
    let a = c(3i32, -4i32);
    let n = -a;
    assert_eq!((n.re, n.im), (-3, 4));
    assert!(-(-a) == a);
}

#[test]
fn equality_needs_both_components() {
    assert!(c(1u8, 2u8) == c(1u8, 2u8));
    assert!(!(c(1u8, 2u8) == c(1u8, 3u8)));
    assert!(!(c(0u8, 2u8) == c(1u8, 2u8)));
    assert!(c(1u8, 2u8) != c(2u8, 1u8));
}

#[test]
fn nan_component_is_unequal_to_itself() {
    let a = c(1.0f32, f32::NAN);
    let b = c(1.0f32, f32::NAN);
    assert!(!(a == a));
    assert!(!(a == b));
    assert!(c(1.0f32, 2.0f32) == c(1.0f32, 2.0f32));
}
