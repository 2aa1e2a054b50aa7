use scraping::arith::add;

#[test]
fn test_add() {
    assert_eq!(add(1, 1), 2);
    assert_ne!(add(1, 1), 3);
}
