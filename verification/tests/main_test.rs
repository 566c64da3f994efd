#[test]
fn test() {
    assert_eq!(1, 1);
}
