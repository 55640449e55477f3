use logicaldecoding::commands::create_slot_command;
use logicaldecoding::commands::slot_name;
use logicaldecoding::commands::start_replication_command;

#[test]
fn slot_name_has_the_prefix() {
    assert_eq!(slot_name("1700000000000"), "slot_1700000000000");
    assert_eq!(slot_name(""), "slot_");
}

#[test]
fn create_slot_names_a_temporary_logical_slot() {
    assert_eq!(
        create_slot_command("slot_1"),
        "CREATE_REPLICATION_SLOT slot_1 TEMPORARY LOGICAL \"decoderbufs\""
    );
}

#[test]
fn start_replication_names_slot_and_position() {
    assert_eq!(
        start_replication_command("slot_1", "0/16B3748"),
        "START_REPLICATION SLOT slot_1 LOGICAL 0/16B3748"
    );
}
