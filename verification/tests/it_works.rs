use indexmap::IndexMap;
use numfmt::{Formatter, Precision, Scales};
use tablefmt::{DataValue, TableData};

struct TestData {
    strike: f64,
    last_price: f64,
    change: f64,
    percent_change: f64,
    volume: u64,
    open_interest: u64,
    bid: f64,
    ask: f64,
    expiration: u64,
    last_trade_date: u64,
    implied_volatility: f64,
    in_the_money: bool,
}

fn table_meta() -> IndexMap<String, u32> {
    IndexMap::from([
        ("strike123456789".to_string(), 6u32),
        ("last $".to_string(), 6u32),
        ("change".to_string(), 6u32),
        ("last %".to_string(), 6u32),
        ("volume".to_string(), 6u32),
        ("  OI  ".to_string(), 6u32),
        (" bid  ".to_string(), 6u32),
        (" ask  ".to_string(), 6u32),
        ("expiry".to_string(), 6u32),
        ("trdate".to_string(), 6u32),
        ("  IV  ".to_string(), 6u32),
        (" ITM  ".to_string(), 6u32),
    ])
}

fn test_data() -> Vec<TestData> {
    (10..20).map(|x| test_row(x as f64)).collect()
}

fn test_row(strike: f64) -> TestData {
    TestData {
        strike,
        last_price: 15.25,
        change: 2.5,
        percent_change: 0.5,
        volume: 1500,
        open_interest: 1200,
        bid: 12.75,
        ask: 13.25,
        expiration: 1700,
        last_trade_date: 1800,
        implied_volatility: 150.5,
        in_the_money: true,
    }
}

fn double_cell(f: &mut Formatter, v: f64) -> DataValue {
    DataValue::F64(f.fmt2(v).to_string())
}

#[test]
fn it_works() {
    let mut f = Formatter::new()
        .separator(',')
        .unwrap()
        .scales(Scales::short())
        .precision(Precision::Decimals(2));

    let data = test_data();
    println!("rows:{}", data.len());

    let mut table = TableData::new("options", data.len(), table_meta());

    for (row, data) in data.iter().enumerate() {
        table.set_value(row, 0, double_cell(&mut f, data.strike));
        table.set_value(row, 1, double_cell(&mut f, data.last_price));
        table.set_value(row, 2, double_cell(&mut f, data.change));
        table.set_value(row, 3, double_cell(&mut f, data.percent_change));
        table.set_value(row, 4, DataValue::value(data.volume));
        table.set_value(row, 5, DataValue::value(data.open_interest));
        table.set_value(row, 6, double_cell(&mut f, data.bid));
        table.set_value(row, 7, double_cell(&mut f, data.ask));

        table.set_value(row, 8, DataValue::value(data.expiration));
        table.set_value(row, 9, DataValue::value(data.last_trade_date));
        table.set_value(row, 10, double_cell(&mut f, data.implied_volatility));
        table.set_value(row, 11, DataValue::value(data.in_the_money));
    }

    println!("{}", table.render());
}
