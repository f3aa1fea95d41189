use intvec::Vector2Int;
use intvec::Vector3Int;

#[test]
fn vector2_add_vector3_keeps_operand_z() {
    let r = Vector2Int::new(1, 2).add_vector3(Vector3Int::new(3, 4, 5));
    assert_eq!(r, Vector3Int::new(4, 6, 5));
}

#[test]
fn vector2_sub_vector3_negates_operand_z() {
    let r = Vector2Int::new(1, 2).sub_vector3(Vector3Int::new(3, 4, 5));
    assert_eq!(r, Vector3Int::new(-2, -2, -5));
}

#[test]
fn vector2_mul_vector3_zeroes_z() {
    let r = Vector2Int::new(2, 3).mul_vector3(Vector3Int::new(4, 5, 6));
    assert_eq!(r, Vector3Int::new(8, 15, 0));
}

#[test]
fn vector3_add_vector2_keeps_own_z() {
    let r = Vector3Int::new(3, 4, 5).add_vector2(Vector2Int::new(1, 2));
    assert_eq!(r, Vector3Int::new(4, 6, 5));
}

#[test]
fn vector3_add_assign_vector2_keeps_own_z() {
    let mut v = Vector3Int::new(3, 4, 5);
    v.add_assign_vector2(Vector2Int::new(1, 2));
    assert_eq!(v, Vector3Int::new(4, 6, 5));
}

#[test]
fn vector3_sub_vector2_keeps_own_z() {
    let r = Vector3Int::new(3, 4, 5).sub_vector2(Vector2Int::new(1, 2));
    assert_eq!(r, Vector3Int::new(2, 2, 5));
}

#[test]
fn vector3_sub_assign_vector2_keeps_own_z() {
    let mut v = Vector3Int::new(3, 4, 5);
    v.sub_assign_vector2(Vector2Int::new(1, 2));
    assert_eq!(v, Vector3Int::new(2, 2, 5));
}

#[test]
fn vector3_mul_vector2_zeroes_z() {
    let r = Vector3Int::new(4, 5, 6).mul_vector2(Vector2Int::new(2, 3));
    assert_eq!(r, Vector3Int::new(8, 15, 0));
}

#[test]
fn vector3_mul_assign_vector2_zeroes_z() {
    let mut v = Vector3Int::new(4, 5, 6);
    v.mul_assign_vector2(Vector2Int::new(2, 3));
    assert_eq!(v, Vector3Int::new(8, 15, 0));
}
