#[test]
fn it_works() {
    let result: i32 = 2 + 2;
    assert_eq!(result, 4);
}

#[test]
fn add_two_and_two() {
    assert_eq!(hello_wasm::add(2, 2), 4);
}

#[test]
fn add_general_values() {
    assert_eq!(hello_wasm::add(0, 0), 0);
    assert_eq!(hello_wasm::add(41, 1), 42);
    assert_eq!(hello_wasm::add(u64::MAX - 1, 1), u64::MAX);
}
