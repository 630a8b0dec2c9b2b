use rpbrt::types::Normal3;
use rpbrt::types::Vector3;

#[test]
fn normal3_new() {
    let n = Normal3::<i64>::new();
    assert_eq!(*n.vector(), Vector3 { x: 0, y: 0, z: 0 });
}

#[test]
fn normal3_from_vec() {
    let test_v = Vector3 { x: 1_i64, y: 2, z: 3 };
    let n = Normal3::from_vec(&test_v);
    assert_eq!(*n.vector(), test_v);
}

#[test]
fn normal3_from_xyz() {
    let test_v = Vector3 { x: 1_i64, y: 2, z: 3 };
    let n = Normal3::from_xyz(1_i64, 2, 3);
    assert_eq!(*n.vector(), test_v);
}
