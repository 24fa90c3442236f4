//! Fixed-width, column-aligned text rendering of tabular data.
//!
//! The crate models every cell of a table as a tagged value, keeps the cells
//! in a row-major grid with ordered per-column name and width metadata, and
//! renders the whole table as aligned monospace text: numbers right-aligned,
//! text left-aligned, booleans and date-like values centered, overlong
//! content clipped at a character boundary with a continuation marker, and
//! monthly options-expiration dates (third Friday of their month) flagged
//! with a footnote star.

pub mod cell;
pub mod columns;
pub mod data_table;
pub mod data_value;
pub mod date;
pub mod grid;
pub mod laws;
pub mod text;

pub use data_table::TableData;
pub use data_value::DataValue;
pub use date::Date;
pub use date::DateTime;
pub use date::Time;
