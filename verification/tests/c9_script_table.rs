use lib::cosem::logical_name_bytes;
use lib::c9_script_table::{Script, ScriptTable};
use lib::{DlmsData, ObisCode};

#[test]
fn test_script_table_class_id() {
    let st = ScriptTable::new(ObisCode::new(0, 0, 10, 0, 0, 255));
    assert_eq!(st.class_id(), 9);
}

#[test]
fn test_script_table_attribute_count() {
    let st = ScriptTable::new(ObisCode::new(0, 0, 10, 0, 0, 255));
    assert_eq!(st.attribute_count(), 2);
}

#[test]
fn test_script_table_method_count() {
    let st = ScriptTable::new(ObisCode::new(0, 0, 10, 0, 0, 255));
    assert_eq!(st.method_count(), 2);
}

#[test]
fn test_script_table_add_script() {
    let mut st = ScriptTable::new(ObisCode::new(0, 0, 10, 0, 0, 255));
    st.add_script(Script {
        script_id: 1,
        script_selector: 0,
        file_id: 100,
    });
    assert_eq!(st.scripts().len(), 1);
}

#[test]
fn test_script_table_remove_script() {
    let mut st = ScriptTable::new(ObisCode::new(0, 0, 10, 0, 0, 255));
    st.add_script(Script {
        script_id: 1,
        script_selector: 0,
        file_id: 100,
    });
    let removed = st.remove_script(1);
    assert!(removed.is_some());
    assert_eq!(removed.unwrap().script_id, 1);
    assert_eq!(st.scripts().len(), 0);
}

#[test]
fn test_script_table_attr1() {
    let st = ScriptTable::new(ObisCode::new(0, 0, 10, 0, 0, 255));
    let bytes = logical_name_bytes(&st.logical_name());
    assert_eq!(bytes.len(), 8);
}

#[test]
fn test_script_table_attr2() {
    let mut st = ScriptTable::new(ObisCode::new(0, 0, 10, 0, 0, 255));
    st.add_script(Script {
        script_id: 1,
        script_selector: 0,
        file_id: 100,
    });
    let value = st.attribute_data(2).unwrap();
    assert_eq!(
        value,
        DlmsData::Array(vec![DlmsData::Structure(vec![
            DlmsData::Unsigned(1),
            DlmsData::Unsigned(0),
            DlmsData::Long(100),
        ])])
    );
}

#[test]
fn test_script_table_execute_method() {
    let mut st = ScriptTable::new(ObisCode::new(0, 0, 10, 0, 0, 255));
    let result = st.execute_action(1, &[]);
    assert!(result.is_ok());
}

#[test]
fn test_script_table_execute_with_reply_method() {
    let mut st = ScriptTable::new(ObisCode::new(0, 0, 10, 0, 0, 255));
    let result = st.execute_action(2, &[]);
    assert!(result.is_ok());
}

#[test]
fn test_script_table_unsupported_method() {
    let mut st = ScriptTable::new(ObisCode::new(0, 0, 10, 0, 0, 255));
    let result = st.execute_action(99, &[]);
    assert!(result.is_err());
}
