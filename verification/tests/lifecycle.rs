use indexmap::IndexMap;
use tablefmt::{DataValue, TableData};

fn meta2() -> IndexMap<String, u32> {
    IndexMap::from([("a".to_string(), 4u32), ("b".to_string(), 4u32)])
}

#[test]
fn rendering_twice_is_identical() {
    let mut table = TableData::new("t", 2, meta2());
    table.set_value(0, 0, DataValue::I64(5));
    table.set_value(1, 1, DataValue::Bool(true));
    let first = table.render();
    let second = table.render();
    assert_eq!(first, second);
}

#[test]
fn deleting_the_sole_row_leaves_columns_intact() {
    let mut table = TableData::new("t", 1, meta2());
    table.set_value(0, 0, DataValue::I64(9));
    table.delete_row(0);
    assert_eq!(table.len(), 0);
    assert_eq!(table.width(), 2);
    assert_eq!(table.render(), "t\n a  | b  |\n----|----|\n");
}

#[test]
fn append_then_delete_restores_the_grid() {
    let mut table = TableData::new("t", 2, meta2());
    table.set_value(0, 0, DataValue::I64(1));
    table.set_value(1, 0, DataValue::I64(2));
    let before = table.render();
    let rows_before = table.len();
    table.add_row(vec![DataValue::I64(3), DataValue::Bool(false)]);
    assert_eq!(table.len(), rows_before + 1);
    assert_eq!(table.get_value(2, 0), Some(&DataValue::I64(3)));
    table.delete_row(2);
    assert_eq!(table.len(), rows_before);
    assert_eq!(table.get_value(0, 0), Some(&DataValue::I64(1)));
    assert_eq!(table.get_value(1, 0), Some(&DataValue::I64(2)));
    assert_eq!(table.render(), before);
}

#[test]
fn deleting_a_middle_row_keeps_the_order() {
    let mut table = TableData::new("t", 3, meta2());
    table.set_value(0, 0, DataValue::I64(10));
    table.set_value(1, 0, DataValue::I64(11));
    table.set_value(2, 0, DataValue::I64(12));
    table.delete_row(1);
    assert_eq!(table.len(), 2);
    assert_eq!(table.get_value(0, 0), Some(&DataValue::I64(10)));
    assert_eq!(table.get_value(1, 0), Some(&DataValue::I64(12)));
}

#[test]
fn from_pairs_fits_names_to_their_widths() {
    let pairs = vec![
        (" id ".to_string(), 4u32),
        ("strike123456789".to_string(), 6u32),
    ];
    let table = TableData::from_pairs("t", 1, &pairs);
    assert_eq!(table.width(), 2);
    assert_eq!(table.format("id", &DataValue::I64(3)), "   3");
    assert_eq!(table.format("strike", &DataValue::I64(4)), "     4");
    let text = table.render();
    assert_eq!(text, "t\n id |strike|\n----|------|\n   0|     0|\n");
}
