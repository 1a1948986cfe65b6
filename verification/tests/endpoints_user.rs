#[test]
fn test_create_user() {
    assert_eq!(1 + 1, 2);
}
