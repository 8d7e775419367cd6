use win32console::structs::small_rect::SmallRect;

#[test]
fn small_rect_mul_test() {
    let a = SmallRect::new(1, 2, 3, 4);
    assert_eq!(SmallRect::new(2, 4, 6, 8), a * 2);
}

#[test]
fn small_rect_div_test() {
    let a = SmallRect::new(2, 4, 6, 8);
    assert_eq!(SmallRect::new(1, 2, 3, 4), a / 2);
}

#[test]
fn small_rect_div_rounds_toward_zero() {
    let a = SmallRect::new(-7, 7, -8, 9);
    assert_eq!(SmallRect::new(-3, 3, -4, 4), a / 2);
    assert_eq!(SmallRect::new(3, -3, 4, -4), a / -2);
}

#[test]
fn small_rect_with_one_side() {
    let a = SmallRect::new(1, 2, 3, 4);
    assert_eq!(SmallRect::new(9, 2, 3, 4), a.with_left(9));
    assert_eq!(SmallRect::new(1, 9, 3, 4), a.with_top(9));
    assert_eq!(SmallRect::new(1, 2, 9, 4), a.with_right(9));
    assert_eq!(SmallRect::new(1, 2, 3, 9), a.with_bottom(9));
}
