use lib::c61_register_table::RegisterTable;
use lib::ObisCode;

#[test]
fn C61_RegisterTable_test_new() {
    let obj = RegisterTable::new(ObisCode::new(0,0,0,0,0,0));
    assert_eq!(obj.class_id(), 61);
}

#[test]
fn C61_RegisterTable_test_getter() {
    let obj = RegisterTable::new(ObisCode::new(0,0,0,0,0,0));
    let _ = obj.table_cell_values();
}
