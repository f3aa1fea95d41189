use intvec::DivideByZero;
use intvec::Vector2Int;
use intvec::Vector3Int;

#[test]
fn v3_new_sets_components() {
    let v = Vector3Int::new(3, -5, 7);
    assert_eq!(v.x, 3);
    assert_eq!(v.y, -5);
    assert_eq!(v.z, 7);
}

#[test]
fn v3_constants_have_expected_components() {
    assert_eq!(Vector3Int::zero(), Vector3Int::new(0, 0, 0));
    assert_eq!(Vector3Int::one(), Vector3Int::new(1, 1, 1));
    assert_eq!(Vector3Int::up(), Vector3Int::new(0, 1, 0));
    assert_eq!(Vector3Int::down(), Vector3Int::new(0, -1, 0));
    assert_eq!(Vector3Int::left(), Vector3Int::new(-1, 0, 0));
    assert_eq!(Vector3Int::right(), Vector3Int::new(1, 0, 0));
    assert_eq!(Vector3Int::forward(), Vector3Int::new(0, 0, 1));
    assert_eq!(Vector3Int::back(), Vector3Int::new(0, 0, -1));
}

#[test]
fn v3_from_lifts_with_zero_z() {
    let v = Vector3Int::from(Vector2Int::new(3, 4));
    assert_eq!(v.x, 3);
    assert_eq!(v.y, 4);
    assert_eq!(v.z, 0);
}

#[test]
fn v3_add_zero_is_identity() {
    let v = Vector3Int::new(-17, 42, 8);
    assert_eq!(v.add(Vector3Int::zero()), v);
}

#[test]
fn v3_sub_self_is_zero() {
    let v = Vector3Int::new(-17, 42, 8);
    assert_eq!(v.sub(v), Vector3Int::zero());
}

#[test]
fn v3_add_sums_components() {
    let a = Vector3Int::new(1, 2, 3);
    let b = Vector3Int::new(30, -40, 50);
    assert_eq!(a.add(b), Vector3Int::new(31, -38, 53));
}

#[test]
fn v3_add_assign_sums_components() {
    let mut a = Vector3Int::new(1, 2, 3);
    a.add_assign(Vector3Int::new(30, -40, 50));
    assert_eq!(a, Vector3Int::new(31, -38, 53));
}

#[test]
fn v3_sub_takes_differences() {
    let a = Vector3Int::new(1, 2, 3);
    let b = Vector3Int::new(30, -40, 50);
    assert_eq!(a.sub(b), Vector3Int::new(-29, 42, -47));
}

#[test]
fn v3_sub_assign_takes_differences() {
    let mut a = Vector3Int::new(1, 2, 3);
    a.sub_assign(Vector3Int::new(30, -40, 50));
    assert_eq!(a, Vector3Int::new(-29, 42, -47));
}

#[test]
fn v3_mul_multiplies_componentwise() {
    let a = Vector3Int::new(3, -4, 5);
    let b = Vector3Int::new(5, 6, -7);
    assert_eq!(a.mul(b), Vector3Int::new(15, -24, -35));
}

#[test]
fn v3_mul_assign_multiplies_componentwise() {
    let mut a = Vector3Int::new(3, -4, 5);
    a.mul_assign(Vector3Int::new(5, 6, -7));
    assert_eq!(a, Vector3Int::new(15, -24, -35));
}

#[test]
fn v3_mul_scalar_scales_all_components() {
    let v = Vector3Int::new(3, -4, 5);
    assert_eq!(v.mul_scalar(-2), Vector3Int::new(-6, 8, -10));
}

#[test]
fn v3_mul_assign_scalar_scales_all_components() {
    let mut v = Vector3Int::new(3, -4, 5);
    v.mul_assign_scalar(-2);
    assert_eq!(v, Vector3Int::new(-6, 8, -10));
}

#[test]
fn v3_mul_then_div_by_same_scalar_round_trips() {
    let v = Vector3Int::new(-1234, 987, 555);
    let s = 37;
    assert_eq!(v.mul_scalar(s).div_scalar(s), Ok(v));
    let t = -5;
    assert_eq!(v.mul_scalar(t).div_scalar(t), Ok(v));
}

#[test]
fn v3_div_scalar_truncates_toward_zero() {
    let v = Vector3Int::new(-7, 7, 9);
    assert_eq!(v.div_scalar(2), Ok(Vector3Int::new(-3, 3, 4)));
    assert_eq!(v.div_scalar(-2), Ok(Vector3Int::new(3, -3, -4)));
}

#[test]
fn v3_div_scalar_by_zero_fails() {
    let v = Vector3Int::new(4, 4, 4);
    assert_eq!(v.div_scalar(0), Err(DivideByZero));
}

#[test]
fn v3_div_divides_componentwise() {
    let v = Vector3Int::new(9, -10, 20);
    assert_eq!(v.div(Vector3Int::new(2, 3, 5)), Ok(Vector3Int::new(4, -3, 4)));
}

#[test]
fn v3_div_by_vector_with_zero_component_fails() {
    let v = Vector3Int::new(4, 4, 4);
    assert_eq!(v.div(Vector3Int::new(0, 2, 2)), Err(DivideByZero));
    assert_eq!(v.div(Vector3Int::new(2, 0, 2)), Err(DivideByZero));
    assert_eq!(v.div(Vector3Int::new(2, 2, 0)), Err(DivideByZero));
}

#[test]
fn v3_div_assign_divides_componentwise() {
    let mut v = Vector3Int::new(9, -10, 20);
    assert_eq!(v.div_assign(Vector3Int::new(2, 3, 5)), Ok(()));
    assert_eq!(v, Vector3Int::new(4, -3, 4));
}

#[test]
fn v3_div_assign_by_zero_component_leaves_value_unchanged() {
    let mut v = Vector3Int::new(9, -10, 20);
    assert_eq!(v.div_assign(Vector3Int::new(0, 3, 5)), Err(DivideByZero));
    assert_eq!(v, Vector3Int::new(9, -10, 20));
}

#[test]
fn v3_div_assign_scalar_divides_all_components() {
    let mut v = Vector3Int::new(9, -10, 20);
    assert_eq!(v.div_assign_scalar(3), Ok(()));
    assert_eq!(v, Vector3Int::new(3, -3, 6));
}

#[test]
fn v3_div_assign_scalar_by_zero_leaves_value_unchanged() {
    let mut v = Vector3Int::new(9, -10, 20);
    assert_eq!(v.div_assign_scalar(0), Err(DivideByZero));
    assert_eq!(v, Vector3Int::new(9, -10, 20));
}

#[test]
fn v3_squared_length_sums_squares() {
    assert_eq!(Vector3Int::new(1, 2, 2).squared_length(), 9);
    assert_eq!(Vector3Int::new(-1, -2, -2).squared_length(), 9);
    assert_eq!(Vector3Int::zero().squared_length(), 0);
}

#[test]
fn v3_squared_distance_adds_squared_deltas() {
    let a = Vector3Int::new(1, 2, 3);
    let b = Vector3Int::new(4, 6, 3);
    assert_eq!(a.squared_distance_to(b), 25);
    assert_eq!(b.squared_distance_to(a), 25);
}

#[test]
fn v3_squared_length_equals_squared_distance_from_zero() {
    let v = Vector3Int::new(-12, 35, 9);
    assert_eq!(Vector3Int::zero().squared_distance_to(v), v.squared_length());
}

#[test]
fn v3_sign_is_componentwise_signum() {
    assert_eq!(Vector3Int::new(17, -17, 0).sign(), Vector3Int::new(1, -1, 0));
    assert_eq!(Vector3Int::new(i32::MIN, i32::MAX, 1).sign(), Vector3Int::new(-1, 1, 1));
}

#[test]
fn v3_abs_is_componentwise_and_nonnegative() {
    assert_eq!(Vector3Int::new(-8, 9, -1).abs(), Vector3Int::new(8, 9, 1));
    let v = Vector3Int::new(i32::MIN + 1, -i32::MAX, 0).abs();
    assert!(v.x >= 0 && v.y >= 0 && v.z >= 0);
    assert_eq!(v, Vector3Int::new(i32::MAX, i32::MAX, 0));
}

#[test]
fn v3_oposite_negates_all_components() {
    assert_eq!(Vector3Int::new(-8, 9, -1).oposite(), Vector3Int::new(8, -9, 1));
    assert_eq!(Vector3Int::zero().oposite(), Vector3Int::zero());
}
