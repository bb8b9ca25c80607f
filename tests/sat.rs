use web_game::sat::{calculate_overlap, ShapeType};

fn eq(a: [f32; 2], b: [f32; 2]) {
    assert!((a[0] - b[0]).abs() < 0.000001);
    assert!((a[1] - b[1]).abs() < 0.000001);
}

#[test]
fn test_overlap() {
    eq([1.0, 2.0], calculate_overlap(&[0.0, 2.0], &[1.0, 5.0]).unwrap());
    eq([1.0, 2.0], calculate_overlap(&[1.0, 5.0], &[0.0, 2.0]).unwrap());
    assert_eq!(None, calculate_overlap(&[1.0f32, 2.0], &[3.0, 4.0]));
    assert_eq!(None, calculate_overlap(&[3.0f32, 4.0], &[1.0, 2.0]));
}

#[test]
fn overlap_of_touching_intervals_is_none() {
    assert_eq!(None, calculate_overlap(&[0.0f32, 1.0], &[1.0, 2.0]));
    assert_eq!(None, calculate_overlap(&[1, 2], &[0, 1]));
}

#[test]
fn overlap_of_nested_interval_is_the_inner_one() {
    assert_eq!(Some([2, 3]), calculate_overlap(&[0, 10], &[2, 3]));
    assert_eq!(Some([2, 3]), calculate_overlap(&[2, 3], &[0, 10]));
}

#[test]
fn overlap_on_integers() {
    assert_eq!(Some([-1, 4]), calculate_overlap(&[-3i64, 4], &[-1, 9]));
    assert_eq!(None, calculate_overlap(&[5u32, 6], &[0, 2]));
}

#[test]
fn shape_types_differ() {
    assert_ne!(ShapeType::Convex, ShapeType::Circle);
    assert_eq!(ShapeType::Circle, ShapeType::Circle);
}
