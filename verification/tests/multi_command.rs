use exiftool_rs_wrapper::CommandId;

#[test]
fn test_command_id_export() {
    let id = CommandId::new(42);
    assert_eq!(id.value(), 42);
}
