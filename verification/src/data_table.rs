//! The table: a row-major grid of cell values together with ordered
//! (name, width) column metadata, and the renderer that turns the whole
//! table into aligned monospace text.

use vstd::prelude::*;
use crate::cell::{cell_chars, rendered_cell, str_chars};
use crate::columns::{
    col_entries,
    key_index,
    lookup_width,
    unique_names,
    lemma_key_index,
    lemma_key_index_absent,
    map_new,
    map_insert,
    map_len,
    map_get_index,
    map_get,
};
use crate::data_value::DataValue;
use crate::grid::{
    Grid,
    grid_seq,
    grid_cols,
    grid_new,
    grid_nrows,
    grid_ncols,
    grid_get,
    grid_set,
    grid_row,
    grid_column,
    grid_push_row,
};
use crate::text::{
    center,
    clip,
    dashes,
    trim_spec,
    trim,
    clip_vec,
    center_vec,
    push_repeat,
    push_all,
    push_str_chars,
    chars_to_string,
};

verus! {

/// A column name trimmed of surrounding whitespace and, where still wider
/// than the column, cut to exactly the column's width in characters.
pub open spec fn fitted_name(k: Seq<char>, w: u32) -> Seq<char> {
    if trim_spec(k).len() <= w {
        trim_spec(k)
    } else {
        trim_spec(k).take(w as int)
    }
}

/// Every entry with its name fitted to its width.
pub open spec fn fitted_entries(es: Seq<(Seq<char>, u32)>) -> Seq<(Seq<char>, u32)> {
    Seq::new(es.len(), |i: int| (fitted_name(es[i].0, es[i].1), es[i].1))
}

/// A sequence of (name, width) pairs as column entries, names as character
/// sequences.
pub open spec fn pair_entries(ps: Seq<(String, u32)>) -> Seq<(Seq<char>, u32)> {
    Seq::new(ps.len(), |i: int| (ps[i].0@, ps[i].1))
}

/// The one delimiter character of the report: it follows every header
/// cell, every run of dashes in the separator line and every data cell.
pub open spec fn delimiter() -> char {
    '|'
}

/// The first `k` cells of a data row, each rendered at its column's width
/// and followed by the delimiter.
pub open spec fn row_cells(es: Seq<(Seq<char>, u32)>, row: Seq<DataValue>, k: int) -> Seq<char>
    decreases k,
{
    if k <= 0 {
        Seq::empty()
    } else {
        row_cells(es, row, k - 1) + rendered_cell(row[k - 1], es[k - 1].1 as nat) + seq![
            delimiter(),
        ]
    }
}

/// One data row: every cell rendered in column order, each followed by the
/// delimiter.
pub open spec fn row_line(es: Seq<(Seq<char>, u32)>, row: Seq<DataValue>) -> Seq<char> {
    row_cells(es, row, es.len() as int)
}

/// The first `k` header cells: each column name trimmed, centered in its
/// width, clipped to it, and followed by the delimiter.
pub open spec fn header_cells(es: Seq<(Seq<char>, u32)>, k: int) -> Seq<char>
    decreases k,
{
    if k <= 0 {
        Seq::empty()
    } else {
        header_cells(es, k - 1) + clip(
            center(trim_spec(es[k - 1].0), es[k - 1].1 as nat),
            es[k - 1].1 as nat,
        ) + seq![delimiter()]
    }
}

/// The header line.
pub open spec fn header_line(es: Seq<(Seq<char>, u32)>) -> Seq<char> {
    header_cells(es, es.len() as int)
}

/// The first `k` cells of the separator line: one run of dashes per column
/// width, each followed by the delimiter.
pub open spec fn sep_cells(es: Seq<(Seq<char>, u32)>, k: int) -> Seq<char>
    decreases k,
{
    if k <= 0 {
        Seq::empty()
    } else {
        sep_cells(es, k - 1) + dashes(es[k - 1].1 as nat) + seq![delimiter()]
    }
}

/// The separator line.
pub open spec fn sep_line(es: Seq<(Seq<char>, u32)>) -> Seq<char> {
    sep_cells(es, es.len() as int)
}

/// The first `k` data rows, one line each.
pub open spec fn body_lines(es: Seq<(Seq<char>, u32)>, rows: Seq<Seq<DataValue>>, k: int) -> Seq<
    char,
>
    decreases k,
{
    if k <= 0 {
        Seq::empty()
    } else {
        body_lines(es, rows, k - 1) + row_line(es, rows[k - 1]) + seq!['\n']
    }
}

/// The whole report: the table name, the header line, the separator line,
/// then one line per data row, each line ended by a newline.
pub open spec fn render_text(
    name: Seq<char>,
    es: Seq<(Seq<char>, u32)>,
    rows: Seq<Seq<DataValue>>,
) -> Seq<char> {
    name + seq!['\n'] + header_line(es) + seq!['\n'] + sep_line(es) + seq!['\n'] + body_lines(
        es,
        rows,
        rows.len() as int,
    )
}

/// A table of cell values with fixed column metadata.
pub struct TableData {
    pub name: String,
    pub rows: Grid,
    pub column_metas: indexmap::IndexMap<String, u32>,
}

impl TableData {
    /// The ordered (name, width) column entries.
    pub open spec fn entries(self) -> Seq<(Seq<char>, u32)> {
        col_entries(self.column_metas)
    }

    /// The rows of cells.
    pub open spec fn grid(self) -> Seq<Seq<DataValue>> {
        grid_seq(self.rows)
    }

    /// The table's name.
    pub open spec fn spec_name(self) -> Seq<char> {
        self.name@
    }

    /// The table's standing shape: column names unique, widths positive,
    /// the grid exactly as wide as the metadata, every row full length and
    /// every cell valid.
    pub open spec fn well_formed(self) -> bool {
        &&& unique_names(self.entries())
        &&& forall|i: int|
            0 <= i < self.entries().len() ==> (#[trigger] self.entries()[i]).1 >= 1
        &&& grid_cols(self.rows) == self.entries().len()
        &&& forall|i: int|
            0 <= i < self.grid().len() ==> (#[trigger] self.grid()[i]).len() == self.entries().len()
        &&& forall|i: int, j: int|
            0 <= i < self.grid().len() && 0 <= j < self.grid()[i].len() ==> (
            #[trigger] self.grid()[i][j]).valid()
    }

    /// Builds a table of `rows` default-filled rows under the given
    /// columns, with each column name trimmed and, where needed, cut to
    /// its width.  The caller keeps the fitted names distinct and the
    /// widths positive.
    pub fn new(name: &str, rows: usize, column_metas: indexmap::IndexMap<String, u32>) -> (r:
        TableData)
        requires
            unique_names(fitted_entries(col_entries(column_metas))),
            forall|i: int|
                0 <= i < col_entries(column_metas).len() ==> (#[trigger] col_entries(
                    column_metas,
                )[i]).1 >= 1,
        ensures
            r.well_formed(),
            r.entries() == fitted_entries(col_entries(column_metas)),
            r.grid() == Seq::new(
                rows as nat,
                |i: int|
                    Seq::new(
                        col_entries(column_metas).len(),
                        |j: int| DataValue::I64(0),
                    ),
            ),
            r.spec_name() == name@,
    {
        let ghost src = col_entries(column_metas);
        let n = map_len(&column_metas);
        let mut meta = map_new();
        proof {
            assert(col_entries(meta) =~= fitted_entries(src).take(0));
        }
        let mut i: usize = 0;
        while i < n
            invariant
                n == src.len(),
                i <= n,
                src == col_entries(column_metas),
                unique_names(fitted_entries(src)),
                col_entries(meta) == fitted_entries(src).take(i as int),
            decreases n - i,
        {
            let (k, w) = map_get_index(&column_metas, i);
            let t = trim(k.as_str());
            let tlen = t.unicode_len();
            let fitted: String = if tlen > w as usize {
                let cut = t.substring_char(0, w as usize);
                cut.to_owned()
            } else {
                t.to_owned()
            };
            proof {
                assert(fitted@ == fitted_name(src[i as int].0, src[i as int].1));
                assert forall|j: int|
                    0 <= j < col_entries(meta).len() implies (#[trigger] col_entries(meta)[j]).0
                    != fitted@ by {
                    assert(col_entries(meta)[j] == fitted_entries(src)[j]);
                    assert(fitted_entries(src)[i as int].0 == fitted@);
                }
                lemma_key_index_absent(col_entries(meta), fitted@);
            }
            let _prev = map_insert(&mut meta, fitted, w);
            i += 1;
            proof {
                assert(col_entries(meta) =~= fitted_entries(src).take(i as int));
            }
        }
        proof {
            assert(fitted_entries(src).take(n as int) =~= fitted_entries(src));
        }
        let cells = grid_new(rows, n);
        let table = TableData { name: name.to_owned(), rows: cells, column_metas: meta };
        proof {
            assert forall|i2: int, j2: int|
                0 <= i2 < table.grid().len() && 0 <= j2 < table.grid()[i2].len() implies (
            #[trigger] table.grid()[i2][j2]).valid() by {
                assert(table.grid()[i2][j2] == DataValue::I64(0));
            }
        }
        table
    }

    /// Builds a table directly from (name, width) pairs, fitting each
    /// name to its width as `new` does.  The caller keeps the fitted
    /// names distinct and the widths positive.
    pub fn from_pairs(name: &str, rows: usize, pairs: &Vec<(String, u32)>) -> (r: TableData)
        requires
            unique_names(fitted_entries(pair_entries(pairs@))),
            forall|i: int| 0 <= i < pairs@.len() ==> (#[trigger] pairs@[i]).1 >= 1,
        ensures
            r.well_formed(),
            r.entries() == fitted_entries(pair_entries(pairs@)),
            r.grid() == Seq::new(
                rows as nat,
                |i: int| Seq::new(pairs@.len(), |j: int| DataValue::I64(0)),
            ),
            r.spec_name() == name@,
    {
        let ghost src = pair_entries(pairs@);
        let n = pairs.len();
        let mut meta = map_new();
        proof {
            assert(col_entries(meta) =~= fitted_entries(src).take(0));
        }
        let mut i: usize = 0;
        while i < n
            invariant
                n == pairs@.len(),
                i <= n,
                src == pair_entries(pairs@),
                unique_names(fitted_entries(src)),
                col_entries(meta) == fitted_entries(src).take(i as int),
            decreases n - i,
        {
            let w = pairs[i].1;
            let t = trim(pairs[i].0.as_str());
            let tlen = t.unicode_len();
            let fitted: String = if tlen > w as usize {
                let cut = t.substring_char(0, w as usize);
                cut.to_owned()
            } else {
                t.to_owned()
            };
            proof {
                assert(fitted@ == fitted_name(src[i as int].0, src[i as int].1));
                assert forall|j: int|
                    0 <= j < col_entries(meta).len() implies (#[trigger] col_entries(meta)[j]).0
                    != fitted@ by {
                    assert(col_entries(meta)[j] == fitted_entries(src)[j]);
                    assert(fitted_entries(src)[i as int].0 == fitted@);
                }
                lemma_key_index_absent(col_entries(meta), fitted@);
            }
            let _prev = map_insert(&mut meta, fitted, w);
            i += 1;
            proof {
                assert(col_entries(meta) =~= fitted_entries(src).take(i as int));
            }
        }
        proof {
            assert(fitted_entries(src).take(n as int) =~= fitted_entries(src));
        }
        let cells = grid_new(rows, n);
        let table = TableData { name: name.to_owned(), rows: cells, column_metas: meta };
        proof {
            assert forall|i2: int, j2: int|
                0 <= i2 < table.grid().len() && 0 <= j2 < table.grid()[i2].len() implies (
            #[trigger] table.grid()[i2][j2]).valid() by {
                assert(table.grid()[i2][j2] == DataValue::I64(0));
            }
        }
        table
    }

    /// The number of data rows.
    pub fn len(&self) -> (r: usize)
        ensures
            r == self.grid().len(),
    {
        grid_nrows(&self.rows)
    }

    /// The number of columns.
    pub fn width(&self) -> (r: usize)
        ensures
            r == grid_cols(self.rows),
            self.well_formed() ==> r == self.entries().len(),
    {
        grid_ncols(&self.rows)
    }

    /// Stores a value at (row, col); nothing else moves.
    pub fn set_value(&mut self, row: usize, col: usize, value: DataValue)
        requires
            old(self).well_formed(),
            row < old(self).grid().len(),
            col < old(self).entries().len(),
            value.valid(),
        ensures
            final(self).well_formed(),
            final(self).grid() == old(self).grid().update(
                row as int,
                old(self).grid()[row as int].update(col as int, value),
            ),
            final(self).entries() == old(self).entries(),
            final(self).spec_name() == old(self).spec_name(),
    {
        grid_set(&mut self.rows, row, col, value);
        proof {
            assert forall|i: int, j: int|
                0 <= i < self.grid().len() && 0 <= j < self.grid()[i].len() implies (
            #[trigger] self.grid()[i][j]).valid() by {
                if i == row as int && j == col as int {
                } else {
                    assert(old(self).grid()[i][j].valid());
                }
            }
        }
    }

    /// Reads the value at (row, col), which is always there for indices in
    /// range.
    pub fn get_value(&self, row: usize, col: usize) -> (r: Option<&DataValue>)
        requires
            self.well_formed(),
            row < self.grid().len(),
            col < self.entries().len(),
        ensures
            match r {
                Some(v) => *v == self.grid()[row as int][col as int],
                None => false,
            },
    {
        Some(grid_get(&self.rows, row, col))
    }

    /// Appends a full-length row of valid cells after the last row.
    pub fn add_row(&mut self, row: Vec<DataValue>)
        requires
            old(self).well_formed(),
            row@.len() == old(self).entries().len(),
            forall|j: int| 0 <= j < row@.len() ==> (#[trigger] row@[j]).valid(),
        ensures
            final(self).well_formed(),
            final(self).grid() == old(self).grid().push(row@),
            final(self).entries() == old(self).entries(),
            final(self).spec_name() == old(self).spec_name(),
    {
        grid_push_row(&mut self.rows, row);
        proof {
            assert forall|i: int|
                0 <= i < self.grid().len() implies (#[trigger] self.grid()[i]).len()
                == self.entries().len() by {
                if i < old(self).grid().len() {
                    assert(old(self).grid()[i].len() == self.entries().len());
                }
            }
            assert forall|i: int, j: int|
                0 <= i < self.grid().len() && 0 <= j < self.grid()[i].len() implies (
            #[trigger] self.grid()[i][j]).valid() by {
                if i < old(self).grid().len() {
                    assert(old(self).grid()[i][j].valid());
                } else {
                    assert(row@[j].valid());
                }
            }
        }
    }

    /// Removes the row at `index`; earlier rows keep their place, later
    /// rows shift up by one, and removing the sole remaining row leaves a
    /// table of zero rows with its column structure intact.
    pub fn delete_row(&mut self, index: usize)
        requires
            old(self).well_formed(),
            index < old(self).grid().len(),
        ensures
            final(self).well_formed(),
            final(self).grid() == old(self).grid().remove(index as int),
            final(self).entries() == old(self).entries(),
            final(self).spec_name() == old(self).spec_name(),
    {
        let n = grid_nrows(&self.rows);
        let c = grid_ncols(&self.rows);
        let mut fresh = grid_new(0, c);
        proof {
            assert(grid_seq(fresh) =~= Seq::<Seq<DataValue>>::empty());
        }
        let mut i: usize = 0;
        while i < n
            invariant
                old(self).well_formed(),
                n == old(self).grid().len(),
                c == grid_cols(old(self).rows),
                index < n,
                i <= n,
                self.rows == old(self).rows,
                self.column_metas == old(self).column_metas,
                self.name == old(self).name,
                grid_cols(fresh) == c,
                i <= index ==> grid_seq(fresh) == old(self).grid().take(i as int),
                i > index ==> grid_seq(fresh) == old(self).grid().take(index as int) + old(
                    self,
                ).grid().subrange(index as int + 1, i as int),
            decreases n - i,
        {
            if i != index {
                let row = grid_row(&self.rows, i);
                grid_push_row(&mut fresh, row);
                proof {
                    if i < index {
                        assert(grid_seq(fresh) =~= old(self).grid().take(i as int + 1));
                    } else {
                        assert(grid_seq(fresh) =~= old(self).grid().take(index as int) + old(
                            self,
                        ).grid().subrange(index as int + 1, i as int + 1));
                    }
                }
            } else {
                proof {
                    assert(grid_seq(fresh) =~= old(self).grid().take(index as int) + old(
                        self,
                    ).grid().subrange(index as int + 1, i as int + 1));
                }
            }
            i += 1;
        }
        self.rows = fresh;
        proof {
            assert(final(self).grid() =~= old(self).grid().remove(index as int));
        }
    }

    /// Every data row, in row order.
    pub fn iter_rows(&self) -> (r: Vec<Vec<DataValue>>)
        ensures
            r@.len() == self.grid().len(),
            forall|i: int| 0 <= i < r@.len() ==> (#[trigger] r@[i])@ == self.grid()[i],
    {
        let n = grid_nrows(&self.rows);
        let mut out: Vec<Vec<DataValue>> = Vec::new();
        let mut i: usize = 0;
        while i < n
            invariant
                n == self.grid().len(),
                i <= n,
                out@.len() == i,
                forall|j: int| 0 <= j < i ==> (#[trigger] out@[j])@ == self.grid()[j],
            decreases n - i,
        {
            let row = grid_row(&self.rows, i);
            out.push(row);
            i += 1;
        }
        out
    }

    /// Renders one cell for the column of the given name, at that
    /// column's width.
    pub fn format(&self, key: &str, val: &DataValue) -> (r: String)
        requires
            self.well_formed(),
            lookup_width(self.entries(), key@) is Some,
            val.valid(),
        ensures
            r@ == rendered_cell(*val, lookup_width(self.entries(), key@).unwrap() as nat),
            r@.len() == lookup_width(self.entries(), key@).unwrap(),
    {
        let w_opt = map_get(&self.column_metas, key);
        proof {
            lemma_key_index(self.entries(), key@);
            assert(self.entries()[key_index(self.entries(), key@).unwrap()].1 >= 1);
        }
        let w = w_opt.unwrap();
        let cells = cell_chars(val, w as usize);
        proof {
            crate::laws::lemma_rendered_width(*val, w as nat);
        }
        chars_to_string(&cells)
    }

    /// The characters of one data line: every cell of the row rendered in
    /// column order, each followed by the delimiter.
    fn row_line_chars(&self, row: &Vec<DataValue>) -> (r: Vec<char>)
        requires
            self.well_formed(),
            row@.len() == self.entries().len(),
            forall|j: int| 0 <= j < row@.len() ==> (#[trigger] row@[j]).valid(),
        ensures
            r@ == row_line(self.entries(), row@),
    {
        let n = map_len(&self.column_metas);
        let mut out: Vec<char> = Vec::new();
        proof {
            assert(out@ =~= row_cells(self.entries(), row@, 0));
        }
        let mut i: usize = 0;
        while i < n
            invariant
                self.well_formed(),
                n == self.entries().len(),
                row@.len() == n,
                forall|j: int| 0 <= j < row@.len() ==> (#[trigger] row@[j]).valid(),
                i <= n,
                out@ == row_cells(self.entries(), row@, i as int),
            decreases n - i,
        {
            let (_k, w) = map_get_index(&self.column_metas, i);
            proof {
                assert(self.entries()[i as int].1 >= 1);
            }
            let cells = cell_chars(&row[i], w as usize);
            push_all(&mut out, &cells);
            out.push('|');
            i += 1;
            proof {
                assert(out@ =~= row_cells(self.entries(), row@, i as int));
            }
        }
        out
    }

    /// Renders one data row, cells joined and terminated by the column
    /// delimiter.
    pub fn format_row(&self, row: &Vec<DataValue>) -> (r: String)
        requires
            self.well_formed(),
            row@.len() == self.entries().len(),
            forall|j: int| 0 <= j < row@.len() ==> (#[trigger] row@[j]).valid(),
        ensures
            r@ == row_line(self.entries(), row@),
    {
        let line = self.row_line_chars(row);
        chars_to_string(&line)
    }

    /// Renders the whole table: its name, the header line, the separator
    /// line, then one line per data row.
    pub fn render(&self) -> (r: String)
        requires
            self.well_formed(),
        ensures
            r@ == render_text(self.spec_name(), self.entries(), self.grid()),
    {
        let ghost es = self.entries();
        let mut out: Vec<char> = Vec::new();
        push_str_chars(&mut out, self.name.as_str());
        out.push('\n');
        let n = map_len(&self.column_metas);
        proof {
            assert(out@ =~= self.spec_name() + seq!['\n'] + header_cells(es, 0));
        }
        let mut i: usize = 0;
        while i < n
            invariant
                self.well_formed(),
                es == self.entries(),
                n == es.len(),
                i <= n,
                out@ == self.spec_name() + seq!['\n'] + header_cells(es, i as int),
            decreases n - i,
        {
            let (k, w) = map_get_index(&self.column_metas, i);
            proof {
                assert(es[i as int].1 >= 1);
            }
            let t = trim(k.as_str());
            let cells = clip_vec(center_vec(str_chars(t), w as usize), w as usize);
            push_all(&mut out, &cells);
            out.push('|');
            i += 1;
            proof {
                assert(out@ =~= self.spec_name() + seq!['\n'] + header_cells(es, i as int));
            }
        }
        out.push('\n');
        let ghost after_header = out@;
        let mut i2: usize = 0;
        while i2 < n
            invariant
                self.well_formed(),
                es == self.entries(),
                n == es.len(),
                i2 <= n,
                after_header == self.spec_name() + seq!['\n'] + header_line(es) + seq!['\n'],
                out@ == after_header + sep_cells(es, i2 as int),
            decreases n - i2,
        {
            let (_k, w) = map_get_index(&self.column_metas, i2);
            push_repeat(&mut out, '-', w as usize);
            out.push('|');
            i2 += 1;
            proof {
                assert(out@ =~= after_header + sep_cells(es, i2 as int));
            }
        }
        out.push('\n');
        let ghost after_sep = out@;
        let nr = grid_nrows(&self.rows);
        let mut r_i: usize = 0;
        while r_i < nr
            invariant
                self.well_formed(),
                es == self.entries(),
                nr == self.grid().len(),
                r_i <= nr,
                after_sep == self.spec_name() + seq!['\n'] + header_line(es) + seq!['\n']
                    + sep_line(es) + seq!['\n'],
                out@ == after_sep + body_lines(es, self.grid(), r_i as int),
            decreases nr - r_i,
        {
            let row = grid_row(&self.rows, r_i);
            let line = self.row_line_chars(&row);
            push_all(&mut out, &line);
            out.push('\n');
            r_i += 1;
            proof {
                assert(out@ =~= after_sep + body_lines(es, self.grid(), r_i as int));
            }
        }
        proof {
            assert(out@ =~= render_text(self.spec_name(), es, self.grid()));
        }
        chars_to_string(&out)
    }

    /// The cells of one column, in row order.
    pub fn column(&self, index: usize) -> (r: Vec<DataValue>)
        requires
            index < grid_cols(self.rows),
        ensures
            r@.len() == self.grid().len(),
            forall|i: int| 0 <= i < r@.len() ==> r@[i] == self.grid()[i][index as int],
    {
        grid_column(&self.rows, index)
    }
}

} // verus!
