use libts::ClMessage;

#[test]
fn u256_works() {
    let result = 2 + 2;
    assert_eq!(result, 4);
    assert_eq!(ClMessage::empty().len(), 0);
}
