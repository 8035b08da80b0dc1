use key_grinder::{set_favorites, update_favorites, ErrorCode};

#[test]
fn set_stores_both_fields() {
    let f = set_favorites(42, String::from("blue"));
    assert_eq!(f.number, 42);
    assert_eq!(f.color, "blue");
}

#[test]
fn update_with_both_replaces_both() {
    let f = set_favorites(1, String::from("red"));
    let g = update_favorites(&f, Some(2), Some(String::from("green"))).unwrap();
    assert_eq!(g.number, 2);
    assert_eq!(g.color, "green");
}

#[test]
fn update_with_number_only_keeps_the_color() {
    let f = set_favorites(1, String::from("red"));
    let g = update_favorites(&f, Some(2), None).unwrap();
    assert_eq!(g.number, 2);
    assert_eq!(g.color, "red");
}

#[test]
fn update_with_color_only_keeps_the_number() {
    let f = set_favorites(1, String::from("red"));
    let g = update_favorites(&f, None, Some(String::from("green"))).unwrap();
    assert_eq!(g.number, 1);
    assert_eq!(g.color, "green");
}

#[test]
fn update_with_nothing_is_refused() {
    let f = set_favorites(1, String::from("red"));
    let e = update_favorites(&f, None, None).unwrap_err();
    assert_eq!(e, ErrorCode::NothingToUpdate);
}
