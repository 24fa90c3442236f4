use indexmap::IndexMap;
use tablefmt::{DataValue, Date, DateTime, Time, TableData};

fn meta3() -> IndexMap<String, u32> {
    IndexMap::from([
        ("a".to_string(), 6u32),
        ("b".to_string(), 6u32),
        ("c".to_string(), 6u32),
    ])
}

fn sample_date() -> Date {
    Date { year: 2024, month: 1, day: 19 }
}

fn sample_time() -> Time {
    Time { hour: 9, minute: 30 }
}

fn every_tag() -> Vec<DataValue> {
    vec![
        DataValue::I64(-7),
        DataValue::F64("1,234.56".to_string()),
        DataValue::F32("0.1000".to_string()),
        DataValue::U64(9),
        DataValue::U32(3),
        DataValue::Bool(true),
        DataValue::String("hi".to_string()),
        DataValue::Date(sample_date()),
        DataValue::Time(sample_time()),
        DataValue::DateTime(DateTime { date: sample_date(), time: sample_time() }),
        DataValue::OptionDate(None),
        DataValue::OptionDate(Some(sample_date())),
        DataValue::OptionTime(None),
        DataValue::OptionTime(Some(sample_time())),
        DataValue::OptionDateTime(None),
        DataValue::OptionDateTime(Some(DateTime { date: sample_date(), time: sample_time() })),
        DataValue::OptionF64(None),
        DataValue::OptionF64(Some("2.50".to_string())),
        DataValue::OptionF32(None),
        DataValue::OptionF32(Some("1.2500".to_string())),
        DataValue::OptionI64(None),
        DataValue::OptionI64(Some(-1)),
        DataValue::OptionU64(None),
        DataValue::OptionU64(Some(8)),
        DataValue::OptionU32(None),
        DataValue::OptionU32(Some(4)),
        DataValue::OptionString(None),
        DataValue::OptionString(Some("x".to_string())),
    ]
}

#[test]
fn set_get_round_trip_every_tag() {
    let values = every_tag();
    let mut table = TableData::new("t", values.len(), meta3());
    for (i, v) in values.iter().enumerate() {
        table.set_value(i, 1, v.clone());
    }
    for (i, v) in values.iter().enumerate() {
        assert_eq!(table.get_value(i, 1), Some(v));
    }
}

#[test]
fn fresh_grid_is_zero_filled() {
    let table = TableData::new("t", 2, meta3());
    for row in 0..2 {
        for col in 0..3 {
            assert_eq!(table.get_value(row, col), Some(&DataValue::I64(0)));
        }
    }
}

#[test]
fn conversions_pick_the_right_tag() {
    assert_eq!(DataValue::value(5i64), DataValue::I64(5));
    assert_eq!(DataValue::value(5u64), DataValue::U64(5));
    assert_eq!(DataValue::value(5u32), DataValue::U32(5));
    assert_eq!(DataValue::value(true), DataValue::Bool(true));
    assert_eq!(
        DataValue::value("hi".to_string()),
        DataValue::String("hi".to_string())
    );
    assert_eq!(DataValue::value("hi"), DataValue::String("hi".to_string()));
    assert_eq!(DataValue::value(sample_date()), DataValue::Date(sample_date()));
    assert_eq!(DataValue::value(sample_time()), DataValue::Time(sample_time()));
    assert_eq!(
        DataValue::value(Some(7i64)),
        DataValue::OptionI64(Some(7))
    );
    assert_eq!(DataValue::value(None::<u64>), DataValue::OptionU64(None));
    assert_eq!(
        DataValue::value(Some(sample_date())),
        DataValue::OptionDate(Some(sample_date()))
    );
    assert_eq!(
        DataValue::value(None::<String>),
        DataValue::OptionString(None)
    );
}

#[test]
fn default_cell_is_integer_zero() {
    assert_eq!(DataValue::default(), DataValue::I64(0));
}

#[test]
fn column_reads_one_column_in_row_order() {
    let mut table = TableData::new("t", 3, meta3());
    table.set_value(0, 2, DataValue::U64(10));
    table.set_value(1, 2, DataValue::U64(11));
    table.set_value(2, 2, DataValue::U64(12));
    let col = table.column(2);
    assert_eq!(
        col,
        vec![DataValue::U64(10), DataValue::U64(11), DataValue::U64(12)]
    );
}

#[test]
fn iter_rows_yields_every_row() {
    let mut table = TableData::new("t", 2, meta3());
    table.set_value(0, 0, DataValue::I64(1));
    table.set_value(1, 0, DataValue::I64(2));
    let rows = table.iter_rows();
    assert_eq!(rows.len(), 2);
    assert_eq!(rows[0][0], DataValue::I64(1));
    assert_eq!(rows[1][0], DataValue::I64(2));
    assert_eq!(rows[0][1], DataValue::I64(0));
}

#[test]
fn len_and_width_report_the_shape() {
    let table = TableData::new("t", 5, meta3());
    assert_eq!(table.len(), 5);
    assert_eq!(table.width(), 3);
}
