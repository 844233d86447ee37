use ros2msg_to_rs::mangle;

#[test]
fn reserved_names_get_an_underscore() {
    assert_eq!(mangle("type"), "type_");
    assert_eq!(mangle("u8"), "u8_");
    assert_eq!(mangle("char"), "char_");
}

#[test]
fn other_names_stay() {
    assert_eq!(mangle("data"), "data");
    assert_eq!(mangle("types"), "types");
    assert_eq!(mangle(""), "");
}
