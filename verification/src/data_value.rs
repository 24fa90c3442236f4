//! The closed, tagged type of one cell of the table: every supported
//! logical type, and a nullable twin of each beyond booleans and plain
//! text.  Absence of data is always the optional tag's `None` state, never
//! a sentinel.
//!
//! A floating-point magnitude enters the engine as the numeric text that
//! the host's number formatter produced for it; the engine only decides the
//! text's placement, so the text is all it reads of the value.

use vstd::prelude::*;
use vstd::std_specs::convert::IntoSpec;
use crate::date::{Date, DateTime, Time};

verus! {

/// One typed, possibly-null datum for one grid position.
#[derive(Clone, Debug, PartialEq)]
pub enum DataValue {
    I64(i64),
    /// The thousands-separated, magnitude-scaled text of a double-precision
    /// magnitude.
    F64(String),
    /// The fixed four-decimal text of a single-precision magnitude.
    F32(String),
    U64(u64),
    U32(u32),
    Bool(bool),
    String(String),
    Date(Date),
    Time(Time),
    DateTime(DateTime),
    OptionDate(Option<Date>),
    OptionTime(Option<Time>),
    OptionDateTime(Option<DateTime>),
    OptionF64(Option<String>),
    OptionF32(Option<String>),
    OptionI64(Option<i64>),
    OptionU64(Option<u64>),
    OptionU32(Option<u32>),
    OptionString(Option<String>),
}

impl DataValue {
    /// Every calendar value carried by the cell names a day or minute that
    /// exists.
    pub open spec fn valid(self) -> bool {
        match self {
            DataValue::Date(d) => d.valid(),
            DataValue::Time(t) => t.valid(),
            DataValue::DateTime(dt) => dt.valid(),
            DataValue::OptionDate(o) => o matches Some(d) ==> d.valid(),
            DataValue::OptionTime(o) => o matches Some(t) ==> t.valid(),
            DataValue::OptionDateTime(o) => o matches Some(dt) ==> dt.valid(),
            _ => true,
        }
    }

    /// The cell is an optional tag in its `None` state.
    pub open spec fn is_null(self) -> bool {
        match self {
            DataValue::OptionDate(o) => o is None,
            DataValue::OptionTime(o) => o is None,
            DataValue::OptionDateTime(o) => o is None,
            DataValue::OptionF64(o) => o is None,
            DataValue::OptionF32(o) => o is None,
            DataValue::OptionI64(o) => o is None,
            DataValue::OptionU64(o) => o is None,
            DataValue::OptionU32(o) => o is None,
            DataValue::OptionString(o) => o is None,
            _ => false,
        }
    }

    /// Converts any value with a conversion into the cell type.
    pub fn value<T: Into<DataValue>>(v: T) -> (r: DataValue)
        ensures
            <T as vstd::std_specs::convert::IntoSpec<DataValue>>::obeys_into_spec() ==> r
                == v.into_spec(),
    {
        v.into()
    }
}

impl Default for DataValue {
    /// The value a fresh grid is filled with.
    fn default() -> (r: Self)
        ensures
            r == DataValue::I64(0),
    {
        DataValue::I64(0)
    }
}

impl From<i64> for DataValue {
    fn from(v: i64) -> (r: DataValue) {
        DataValue::I64(v)
    }
}

impl vstd::std_specs::convert::FromSpecImpl<i64> for DataValue {
    open spec fn obeys_from_spec() -> bool {
        true
    }

    open spec fn from_spec(v: i64) -> DataValue {
        DataValue::I64(v)
    }
}

impl From<u64> for DataValue {
    fn from(v: u64) -> (r: DataValue) {
        DataValue::U64(v)
    }
}

impl vstd::std_specs::convert::FromSpecImpl<u64> for DataValue {
    open spec fn obeys_from_spec() -> bool {
        true
    }

    open spec fn from_spec(v: u64) -> DataValue {
        DataValue::U64(v)
    }
}

impl From<u32> for DataValue {
    fn from(v: u32) -> (r: DataValue) {
        DataValue::U32(v)
    }
}

impl vstd::std_specs::convert::FromSpecImpl<u32> for DataValue {
    open spec fn obeys_from_spec() -> bool {
        true
    }

    open spec fn from_spec(v: u32) -> DataValue {
        DataValue::U32(v)
    }
}

impl From<bool> for DataValue {
    fn from(v: bool) -> (r: DataValue) {
        DataValue::Bool(v)
    }
}

impl vstd::std_specs::convert::FromSpecImpl<bool> for DataValue {
    open spec fn obeys_from_spec() -> bool {
        true
    }

    open spec fn from_spec(v: bool) -> DataValue {
        DataValue::Bool(v)
    }
}

impl From<&str> for DataValue {
    /// The text becomes a plain text cell holding exactly its characters.
    fn from(v: &str) -> (r: DataValue)
        ensures
            r matches DataValue::String(s) && s@ == v@,
    {
        DataValue::String(v.to_owned())
    }
}

/// The generic `From` spec hook stays switched off for this conversion: a
/// specification cannot build the freshly allocated `String`, so the exact
/// contract lives on the impl's own `ensures` above.
impl vstd::std_specs::convert::FromSpecImpl<&str> for DataValue {
    open spec fn obeys_from_spec() -> bool {
        false
    }

    open spec fn from_spec(v: &str) -> DataValue {
        arbitrary()
    }
}

impl From<String> for DataValue {
    fn from(v: String) -> (r: DataValue) {
        DataValue::String(v)
    }
}

impl vstd::std_specs::convert::FromSpecImpl<String> for DataValue {
    open spec fn obeys_from_spec() -> bool {
        true
    }

    open spec fn from_spec(v: String) -> DataValue {
        DataValue::String(v)
    }
}

impl From<Date> for DataValue {
    fn from(v: Date) -> (r: DataValue) {
        DataValue::Date(v)
    }
}

impl vstd::std_specs::convert::FromSpecImpl<Date> for DataValue {
    open spec fn obeys_from_spec() -> bool {
        true
    }

    open spec fn from_spec(v: Date) -> DataValue {
        DataValue::Date(v)
    }
}

impl From<Time> for DataValue {
    fn from(v: Time) -> (r: DataValue) {
        DataValue::Time(v)
    }
}

impl vstd::std_specs::convert::FromSpecImpl<Time> for DataValue {
    open spec fn obeys_from_spec() -> bool {
        true
    }

    open spec fn from_spec(v: Time) -> DataValue {
        DataValue::Time(v)
    }
}

impl From<DateTime> for DataValue {
    fn from(v: DateTime) -> (r: DataValue) {
        DataValue::DateTime(v)
    }
}

impl vstd::std_specs::convert::FromSpecImpl<DateTime> for DataValue {
    open spec fn obeys_from_spec() -> bool {
        true
    }

    open spec fn from_spec(v: DateTime) -> DataValue {
        DataValue::DateTime(v)
    }
}

impl From<Option<i64>> for DataValue {
    fn from(v: Option<i64>) -> (r: DataValue) {
        DataValue::OptionI64(v)
    }
}

impl vstd::std_specs::convert::FromSpecImpl<Option<i64>> for DataValue {
    open spec fn obeys_from_spec() -> bool {
        true
    }

    open spec fn from_spec(v: Option<i64>) -> DataValue {
        DataValue::OptionI64(v)
    }
}

impl From<Option<u64>> for DataValue {
    fn from(v: Option<u64>) -> (r: DataValue) {
        DataValue::OptionU64(v)
    }
}

impl vstd::std_specs::convert::FromSpecImpl<Option<u64>> for DataValue {
    open spec fn obeys_from_spec() -> bool {
        true
    }

    open spec fn from_spec(v: Option<u64>) -> DataValue {
        DataValue::OptionU64(v)
    }
}

impl From<Option<u32>> for DataValue {
    fn from(v: Option<u32>) -> (r: DataValue) {
        DataValue::OptionU32(v)
    }
}

impl vstd::std_specs::convert::FromSpecImpl<Option<u32>> for DataValue {
    open spec fn obeys_from_spec() -> bool {
        true
    }

    open spec fn from_spec(v: Option<u32>) -> DataValue {
        DataValue::OptionU32(v)
    }
}

impl From<Option<String>> for DataValue {
    fn from(v: Option<String>) -> (r: DataValue) {
        DataValue::OptionString(v)
    }
}

impl vstd::std_specs::convert::FromSpecImpl<Option<String>> for DataValue {
    open spec fn obeys_from_spec() -> bool {
        true
    }

    open spec fn from_spec(v: Option<String>) -> DataValue {
        DataValue::OptionString(v)
    }
}

impl From<Option<Date>> for DataValue {
    fn from(v: Option<Date>) -> (r: DataValue) {
        DataValue::OptionDate(v)
    }
}

impl vstd::std_specs::convert::FromSpecImpl<Option<Date>> for DataValue {
    open spec fn obeys_from_spec() -> bool {
        true
    }

    open spec fn from_spec(v: Option<Date>) -> DataValue {
        DataValue::OptionDate(v)
    }
}

impl From<Option<Time>> for DataValue {
    fn from(v: Option<Time>) -> (r: DataValue) {
        DataValue::OptionTime(v)
    }
}

impl vstd::std_specs::convert::FromSpecImpl<Option<Time>> for DataValue {
    open spec fn obeys_from_spec() -> bool {
        true
    }

    open spec fn from_spec(v: Option<Time>) -> DataValue {
        DataValue::OptionTime(v)
    }
}

impl From<Option<DateTime>> for DataValue {
    fn from(v: Option<DateTime>) -> (r: DataValue) {
        DataValue::OptionDateTime(v)
    }
}

impl vstd::std_specs::convert::FromSpecImpl<Option<DateTime>> for DataValue {
    open spec fn obeys_from_spec() -> bool {
        true
    }

    open spec fn from_spec(v: Option<DateTime>) -> DataValue {
        DataValue::OptionDateTime(v)
    }
}

} // verus!
