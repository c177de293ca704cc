use primer::pair::{member_line_text, Pair};

#[test]
fn new_pair_holds_both_members() {
    let pair = Pair::new(3, 5);
    assert_eq!(pair.x, 3);
    assert_eq!(pair.y, 5);
}

#[test]
fn larger_second_member_is_named() {
    assert_eq!(Pair::new(3, 5).cmp_display(), "The largest member is y = 5");
}

#[test]
fn larger_first_member_is_named() {
    assert_eq!(Pair::new(5, 3).cmp_display(), "The largest member is x = 5");
}

#[test]
fn equal_members_name_the_first() {
    assert_eq!(Pair::new(4, 4).cmp_display(), "The largest member is x = 4");
}

#[test]
fn strings_are_compared_as_text() {
    let pair = Pair::new(String::from("hello"), String::from("world"));
    assert_eq!(pair.cmp_display(), "The largest member is y = world");
}

#[test]
fn unordered_members_name_the_second() {
    assert_eq!(Pair::new(f64::NAN, 1.5).cmp_display(), "The largest member is y = 1.5");
    assert_eq!(Pair::new(1.5, f64::NAN).cmp_display(), "The largest member is y = NaN");
}

#[test]
fn member_line_names_the_chosen_member() {
    assert_eq!(member_line_text(true, "5"), "The largest member is x = 5");
    assert_eq!(member_line_text(false, "world"), "The largest member is y = world");
    assert_eq!(member_line_text(false, ""), "The largest member is y = ");
}
