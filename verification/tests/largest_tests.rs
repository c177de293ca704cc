use primer::largest::largest;

#[test]
fn largest_of_numbers_is_100() {
    let numbers = vec![34, 50, 25, 100, 65];
    assert_eq!(*largest(&numbers), 100);
}

#[test]
fn largest_of_chars_is_y() {
    let chars = vec!['y', 'm', 'a', 'q'];
    assert_eq!(*largest(&chars), 'y');
}

#[test]
fn largest_of_one_element_is_that_element() {
    assert_eq!(*largest(&[7u8]), 7);
}

#[test]
fn largest_is_found_at_the_front_and_at_the_back() {
    assert_eq!(*largest(&[9, 1, 2]), 9);
    assert_eq!(*largest(&[1, 2, 9]), 9);
    assert_eq!(*largest(&[-5, -2, -9]), -2);
}

#[test]
fn nothing_in_the_list_exceeds_the_largest() {
    let numbers = vec![3u64, 9, 2, 9, 1, 8];
    let top = *largest(&numbers);
    assert_eq!(top, 9);
    for n in &numbers {
        assert!(!(*n > top));
    }
}

#[test]
fn first_of_equal_maxima_is_returned() {
    // The two zeros compare equal and differ only in their sign bit.
    let negative_first = [-1.0f64, -0.0, 0.0, -3.0];
    let top = largest(&negative_first);
    assert_eq!(*top, 0.0);
    assert!(top.is_sign_negative());

    let positive_first = [-1.0f64, 0.0, -0.0, -3.0];
    let top = largest(&positive_first);
    assert_eq!(*top, 0.0);
    assert!(top.is_sign_positive());
}

#[test]
fn first_of_equal_words_is_returned() {
    let words = vec![
        String::from("pear"),
        String::from("plum"),
        String::from("fig"),
        String::from("plum"),
    ];
    let top = largest(&words);
    assert_eq!(top, "plum");
    assert!(std::ptr::eq(top, &words[1]));
    assert!(!std::ptr::eq(top, &words[3]));
}

#[test]
fn unorderable_value_behind_the_head_is_never_returned() {
    assert_eq!(*largest(&[1.0f64, f64::NAN, 3.0]), 3.0);
    assert_eq!(*largest(&[2.0f64, f64::NAN]), 2.0);
    assert_eq!(*largest(&[2.0f64, 5.0, f64::NAN, 4.0]), 5.0);
    assert_eq!(*largest(&[2.0f32, f32::NAN, f32::NAN]), 2.0);
}

#[test]
fn unorderable_head_is_kept() {
    assert!(largest(&[f64::NAN, 1.0, 3.0]).is_nan());
    assert!(largest(&[f64::NAN, f64::NAN]).is_nan());
}

#[test]
fn largest_borrows_from_the_list() {
    let words = vec![String::from("apple"), String::from("pear"), String::from("fig")];
    let top: &String = largest(&words);
    assert_eq!(top, "pear");
    assert_eq!(words.len(), 3);
}
