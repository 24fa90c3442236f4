use indexmap::IndexMap;
use tablefmt::{DataValue, Date, DateTime, Time, TableData};

fn one_col(width: u32) -> TableData {
    TableData::new("t", 1, IndexMap::from([("c".to_string(), width)]))
}

fn d(year: u32, month: u32, day: u32) -> Date {
    Date { year, month, day }
}

fn sample_values() -> Vec<DataValue> {
    vec![
        DataValue::I64(-1234),
        DataValue::F64("12,345.67".to_string()),
        DataValue::F32("3.1416".to_string()),
        DataValue::U64(42),
        DataValue::U32(7),
        DataValue::Bool(false),
        DataValue::String("sometext".to_string()),
        DataValue::Date(d(2024, 1, 19)),
        DataValue::Time(Time { hour: 23, minute: 59 }),
        DataValue::DateTime(DateTime {
            date: d(2024, 1, 19),
            time: Time { hour: 0, minute: 5 },
        }),
        DataValue::OptionDate(None),
        DataValue::OptionI64(Some(17)),
        DataValue::OptionString(None),
        DataValue::OptionU32(Some(9)),
    ]
}

#[test]
fn rendered_width_is_exact_for_every_tag() {
    for width in [1u32, 2, 5, 12, 20] {
        let table = one_col(width);
        for v in sample_values() {
            let out = table.format("c", &v);
            assert_eq!(
                out.chars().count(),
                width as usize,
                "width {width} value {v:?} gave {out:?}"
            );
        }
    }
}

#[test]
fn truncation_ends_in_marker() {
    let table = one_col(4);
    let out = table.format("c", &DataValue::String("abcdefgh".to_string()));
    assert_eq!(out, "abc<");
    assert_eq!(out.chars().last(), Some('<'));
}

#[test]
fn truncation_respects_multibyte_characters() {
    let table = one_col(3);
    let out = table.format("c", &DataValue::String("\u{3b1}\u{3b1}\u{3b2}\u{3b2}".to_string()));
    assert_eq!(out, "\u{3b1}\u{3b1}<");
    assert_eq!(out.chars().count(), 3);
}

#[test]
fn multibyte_text_that_fits_is_not_cut() {
    let table = one_col(4);
    let out = table.format("c", &DataValue::String("\u{3b1}\u{3b2}".to_string()));
    assert_eq!(out, "\u{3b1}\u{3b2}  ");
}

#[test]
fn null_cells_render_as_spaces() {
    let table = one_col(5);
    let nulls = vec![
        DataValue::OptionDate(None),
        DataValue::OptionTime(None),
        DataValue::OptionDateTime(None),
        DataValue::OptionF64(None),
        DataValue::OptionF32(None),
        DataValue::OptionI64(None),
        DataValue::OptionU64(None),
        DataValue::OptionU32(None),
        DataValue::OptionString(None),
    ];
    for v in nulls {
        assert_eq!(table.format("c", &v), "     ", "value {v:?}");
    }
}

#[test]
fn third_friday_gets_the_footnote_star() {
    let table = one_col(12);
    let out = table.format("c", &DataValue::Date(d(2024, 1, 19)));
    assert_eq!(out, "*2024-01-19 ");
    let out = table.format("c", &DataValue::OptionDate(Some(d(2024, 2, 16))));
    assert_eq!(out, "*2024-02-16 ");
}

#[test]
fn footnote_rule_across_months_and_years() {
    let table = one_col(12);
    assert_eq!(
        table.format("c", &DataValue::Date(d(2023, 6, 16))),
        "*2023-06-16 "
    );
    assert_eq!(
        table.format("c", &DataValue::Date(d(1999, 12, 17))),
        "*1999-12-17 "
    );
    assert_eq!(
        table.format("c", &DataValue::Date(d(2024, 1, 17))),
        " 2024-01-17 "
    );
}

#[test]
fn years_and_times_are_zero_padded() {
    let table = one_col(12);
    assert_eq!(
        table.format("c", &DataValue::Date(d(33, 1, 3))),
        " 0033-01-03 "
    );
    let table7 = one_col(7);
    assert_eq!(
        table7.format("c", &DataValue::Time(Time { hour: 5, minute: 7 })),
        " 05:07 "
    );
}

#[test]
fn leap_day_renders() {
    let table = one_col(12);
    assert_eq!(
        table.format("c", &DataValue::Date(d(2024, 2, 29))),
        " 2024-02-29 "
    );
}

#[test]
fn width_one_column_still_fills_its_slot() {
    let table = one_col(1);
    assert_eq!(table.format("c", &DataValue::I64(5)), "5");
    assert_eq!(table.format("c", &DataValue::I64(42)), "<");
    assert_eq!(table.format("c", &DataValue::OptionU64(None)), " ");
}

#[test]
fn second_friday_gets_a_plain_space() {
    let table = one_col(12);
    let out = table.format("c", &DataValue::Date(d(2024, 1, 12)));
    assert_eq!(out, " 2024-01-12 ");
}

#[test]
fn narrow_date_column_is_clipped() {
    let table = one_col(6);
    let out = table.format("c", &DataValue::Date(d(2024, 1, 19)));
    assert_eq!(out, "*2024<");
}

#[test]
fn integers_are_right_aligned() {
    let table = one_col(6);
    assert_eq!(table.format("c", &DataValue::I64(-42)), "   -42");
    assert_eq!(table.format("c", &DataValue::U64(7)), "     7");
    assert_eq!(table.format("c", &DataValue::OptionI64(Some(5))), "     5");
}

#[test]
fn numeric_text_is_right_aligned() {
    let table = one_col(10);
    assert_eq!(
        table.format("c", &DataValue::F64("1,234.5".to_string())),
        "   1,234.5"
    );
    assert_eq!(
        table.format("c", &DataValue::F32("3.1416".to_string())),
        "    3.1416"
    );
}

#[test]
fn u32_and_bool_are_centered() {
    let table = one_col(6);
    assert_eq!(table.format("c", &DataValue::U32(7)), "  7   ");
    assert_eq!(table.format("c", &DataValue::Bool(true)), " true ");
}

#[test]
fn times_are_centered() {
    let table = one_col(7);
    assert_eq!(
        table.format("c", &DataValue::Time(Time { hour: 13, minute: 5 })),
        " 13:05 "
    );
    let table16 = one_col(16);
    assert_eq!(
        table16.format(
            "c",
            &DataValue::DateTime(DateTime {
                date: d(2024, 1, 19),
                time: Time { hour: 13, minute: 5 },
            })
        ),
        "2024-01-19 13:05"
    );
}

#[test]
fn header_names_are_trimmed_and_truncated() {
    let table = TableData::new(
        "t",
        0,
        IndexMap::from([
            ("  pad  ".to_string(), 5u32),
            ("strike123456789".to_string(), 6u32),
        ]),
    );
    let text = table.render();
    assert_eq!(text, "t\n pad |strike|\n-----|------|\n");
}

#[test]
fn fitted_name_is_the_lookup_key() {
    let table = TableData::new(
        "t",
        1,
        IndexMap::from([("strike123456789".to_string(), 6u32)]),
    );
    assert_eq!(table.format("strike", &DataValue::U64(5)), "     5");
}

#[test]
fn format_row_joins_with_the_report_delimiter() {
    let mut table = TableData::new(
        "t",
        1,
        IndexMap::from([("a".to_string(), 4u32), ("b".to_string(), 4u32)]),
    );
    table.set_value(0, 0, DataValue::I64(1));
    table.set_value(0, 1, DataValue::Bool(true));
    let rows = table.iter_rows();
    let line = table.format_row(&rows[0]);
    assert_eq!(line, "   1|true|");
}

#[test]
fn two_row_table_renders_aligned_report() {
    let mut table = TableData::new(
        "t",
        2,
        IndexMap::from([
            ("id".to_string(), 4u32),
            ("name".to_string(), 8u32),
            ("ok".to_string(), 4u32),
        ]),
    );
    table.set_value(0, 0, DataValue::I64(1));
    table.set_value(0, 1, DataValue::String("Alice".to_string()));
    table.set_value(0, 2, DataValue::Bool(true));
    table.set_value(1, 0, DataValue::I64(2));
    table.set_value(1, 1, DataValue::String("Bob".to_string()));
    table.set_value(1, 2, DataValue::Bool(false));
    let text = table.render();
    assert_eq!(
        text,
        "t\n id |  name  | ok |\n----|--------|----|\n   1|Alice   |true|\n   2|Bob     |fal<|\n"
    );
}
