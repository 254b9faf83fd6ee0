use engine::math::matrix::Matrix2x2i;
use engine::math::matrix::Matrix3x3i;
use engine::math::vector::Cross;
use engine::math::vector::CrossAssign;
use engine::math::vector::Dot;
use engine::math::vector::Vector2;
use engine::math::vector::Vector3;
use engine::math::vector::Vector4;

#[test]
fn test_matrix_add() {
    let lhs = Matrix2x2i::new([[1, 2], [3, 4]]);
    let rhs = Matrix2x2i::new([[2, 1], [4, 3]]);
    assert_eq!(Matrix2x2i::new([[3, 3], [7, 7]]), lhs + rhs);
}

#[test]
fn test_matrix_mul() {
    let lhs = Matrix2x2i::new([[1, 2], [3, 4]]);
    let rhs = Matrix2x2i::new([[2, 1], [4, 3]]);
    assert_eq!(Matrix2x2i::new([[10, 7], [22, 15]]), lhs * rhs);
}

#[test]
fn test_vector2_mul() {
    let v1 = Vector2::new(2, 4);
    let v2 = Vector2::new(3, 5);
    assert_eq!(Vector2::new(6, 20), v1 * v2);
}

#[test]
fn test_vector3_dot() {
    let v1 = Vector3::new(1, 0, 0);
    let v2 = Vector3::new(0, 1, 0);
    assert_eq!(0, v1.dot(v2));
}

#[test]
fn test_vector3_cross() {
    let v1 = Vector3::new(1, 0, 0);
    let v2 = Vector3::new(0, 1, 0);
    assert_eq!(Vector3::new(0, 0, 1), v1.cross(v2));
}

#[test]
fn matrix_sub_and_neg() {
    let lhs = Matrix2x2i::new([[1, 2], [3, 4]]);
    let rhs = Matrix2x2i::new([[2, 1], [4, 3]]);
    assert_eq!(Matrix2x2i::new([[-1, 1], [-1, 1]]), lhs - rhs);
    assert_eq!(Matrix2x2i::new([[-1, -2], [-3, -4]]), -lhs);
}

#[test]
fn matrix_identity_is_neutral() {
    let id = Matrix3x3i::identity();
    assert_eq!(Matrix3x3i::new([[1, 0, 0], [0, 1, 0], [0, 0, 1]]), id);
    let m = Matrix3x3i::new([[1, 2, 3], [4, 5, 6], [7, 8, 9]]);
    assert_eq!(m, m * id);
    assert_eq!(m, id * m);
    assert_eq!(Matrix3x3i::new([[0; 3]; 3]), Matrix3x3i::default());
}

#[test]
fn matrix_add_wraps_around() {
    let lhs = Matrix2x2i::new([[isize::MAX, 0], [0, 0]]);
    let rhs = Matrix2x2i::new([[1, 0], [0, 0]]);
    assert_eq!(Matrix2x2i::new([[isize::MIN, 0], [0, 0]]), lhs + rhs);
}

#[test]
fn vector_arithmetic() {
    assert_eq!(Vector2::new(5, 9), Vector2::new(2, 4) + Vector2::new(3, 5));
    assert_eq!(Vector3::new(1, 1, 1), Vector3::new(2, 3, 4) - Vector3::new(1, 2, 3));
    assert_eq!(Vector4::new(-1, 2, -3, 4), -Vector4::new(1, -2, 3, -4));
    assert_eq!(32, Vector3::new(1, 2, 3).dot(Vector3::new(4, 5, 6)));
    assert_eq!(70, Vector4::new(1, 2, 3, 4).dot(Vector4::new(5, 6, 7, 8)));
}

#[test]
fn vector3_cross_assign() {
    let mut v = Vector3::new(0, 1, 0);
    v.cross_assign(Vector3::new(0, 0, 1));
    assert_eq!(Vector3::new(1, 0, 0), v);
    assert_eq!(Vector3::new(-3, 6, -3), Vector3::new(1, 2, 3).cross(Vector3::new(4, 5, 6)));
}
