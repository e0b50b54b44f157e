use cami_helpers::always_equal_ref;

#[test]
fn main() {}

#[test]
fn always_equal_ref_gives_equal_units() {
    let a: Vec<i32> = vec![1, 2, 3];
    let b: String = String::from("other");
    assert_eq!(always_equal_ref(&a), &());
    assert!(always_equal_ref(&a) == always_equal_ref(&b));
    assert_eq!(*always_equal_ref(&5u8), ());
}
