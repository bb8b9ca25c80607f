use web_game::utils::{max, min, split_vec_mut_around};

#[test]
fn test_1() {
    let mut v = vec![1, 2, 3];
    let (_a, b, _c) = split_vec_mut_around(&mut v, 0);
    assert_eq!(*b, 1);
}

#[test]
fn test_2() {
    let mut v = vec![1, 2, 3];
    let (_a, b, _c) = split_vec_mut_around(&mut v, 1);
    assert_eq!(*b, 2);
}

#[test]
fn test_3() {
    let mut v = vec![1, 2, 3];
    let (_a, b, _c) = split_vec_mut_around(&mut v, 2);
    assert_eq!(*b, 3);
}

#[test]
fn split_gives_both_sides_and_writes_through() {
    let mut v = vec![10, 20, 30, 40, 50];
    {
        let (a, b, c) = split_vec_mut_around(&mut v, 2);
        assert_eq!(a, &[10, 20][..]);
        assert_eq!(*b, 30);
        assert_eq!(c, &[40, 50][..]);
        a[0] = 11;
        *b = 33;
        c[1] = 55;
    }
    assert_eq!(v, vec![11, 20, 33, 40, 55]);
}

#[test]
fn split_at_last_index_leaves_empty_tail() {
    let mut v = vec![7];
    let (a, b, c) = split_vec_mut_around(&mut v, 0);
    assert!(a.is_empty());
    assert_eq!(*b, 7);
    assert!(c.is_empty());
}

#[test]
fn min_and_max_pick_values() {
    assert_eq!(min(3, 5), 3);
    assert_eq!(min(5, 3), 3);
    assert_eq!(max(3, 5), 5);
    assert_eq!(max(5, 3), 5);
    assert_eq!(min(0.5f32, 0.25f32), 0.25f32);
    assert_eq!(max(-1.0f32, 2.0f32), 2.0f32);
}

#[test]
fn min_and_max_on_equal_values() {
    assert_eq!(min(4, 4), 4);
    assert_eq!(max(4, 4), 4);
}
