use safetyguard::add;

#[test]
fn it_works() {
    let result = add(2, 2);
    assert_eq!(result, 4);
}

#[test]
fn add_large_values() {
    assert_eq!(add(u64::MAX - 1, 1), u64::MAX);
    assert_eq!(add(0, 0), 0);
}
