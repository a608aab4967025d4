//! The adding machine: exact sums and the wrapping boundary.

#[test]
fn it_works() {
    let result = adding_machine::add(2, 2);
    assert_eq!(result, 4);
}

#[test]
fn add_exact_values() {
    assert_eq!(adding_machine::add(0, 0), 0);
    assert_eq!(adding_machine::add(3, 4), 7);
    assert_eq!(adding_machine::add(usize::MAX, 0), usize::MAX);
}

#[test]
fn add_wraps_at_integer_width() {
    assert_eq!(adding_machine::add(usize::MAX, 1), 0);
    assert_eq!(adding_machine::add(usize::MAX, 5), 4);
    assert_eq!(adding_machine::add(usize::MAX - 1, usize::MAX - 1), usize::MAX - 3);
}
