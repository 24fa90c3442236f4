//! Table-wide guarantees, stated over the same views the method contracts
//! use: the grid as a sequence of rows and the rendering specification.

use vstd::prelude::*;
use crate::cell::{natural_text, rendered_cell};
use crate::data_table::{render_text, TableData};
use crate::data_value::DataValue;
use crate::text::{clip, marker, spaces};

verus! {

/// Reading a position right after writing it yields the written value, for
/// every cell tag: storing is exact.
pub proof fn lemma_set_then_get(g: Seq<Seq<DataValue>>, row: int, col: int, v: DataValue)
    requires
        0 <= row < g.len(),
        0 <= col < g[row].len(),
    ensures
        g.update(row, g[row].update(col, v))[row][col] == v,
{
}

/// Writing one position leaves every other position of the grid unchanged.
pub proof fn lemma_set_preserves_rest(
    g: Seq<Seq<DataValue>>,
    row: int,
    col: int,
    v: DataValue,
    i: int,
    j: int,
)
    requires
        0 <= row < g.len(),
        0 <= col < g[row].len(),
        0 <= i < g.len(),
        0 <= j < g[i].len(),
        !(i == row && j == col),
    ensures
        g.update(row, g[row].update(col, v))[i][j] == g[i][j],
{
}

/// Every rendered cell of a column of width `w >= 1` shows exactly `w`
/// characters, whatever the value.
pub proof fn lemma_rendered_width(v: DataValue, w: nat)
    requires
        w >= 1,
    ensures
        rendered_cell(v, w).len() == w,
{
    assert(natural_text(v, w).len() >= w);
}

/// Where the natural text of a cell overflows the width, the rendered cell
/// keeps the leading characters it has room for and ends in the
/// continuation marker; nothing else changes, and since the specification
/// works character by character no multi-byte character is ever split.
pub proof fn lemma_truncation(v: DataValue, w: nat)
    requires
        w >= 1,
        natural_text(v, w).len() > w,
    ensures
        rendered_cell(v, w).len() == w,
        rendered_cell(v, w)[w as int - 1] == marker(),
        rendered_cell(v, w).take(w as int - 1) == natural_text(v, w).take(w as int - 1),
{
    assert(rendered_cell(v, w).take(w as int - 1) =~= natural_text(v, w).take(w as int - 1));
}

/// Every optional cell in its `None` state renders as exactly `w` space
/// characters, independent of the underlying type.
pub proof fn lemma_null_blank(v: DataValue, w: nat)
    requires
        v.is_null(),
    ensures
        rendered_cell(v, w) == spaces(w),
{
    assert(natural_text(v, w) == spaces(w));
    assert(clip(spaces(w), w) == spaces(w));
}

/// Rendering is a pure function of the table's name, columns and cells: two
/// tables that agree on those render identically, so rendering one table
/// twice yields identical text.
pub proof fn lemma_render_pure(a: TableData, b: TableData)
    requires
        a.spec_name() == b.spec_name(),
        a.entries() == b.entries(),
        a.grid() == b.grid(),
    ensures
        render_text(a.spec_name(), a.entries(), a.grid()) == render_text(
            b.spec_name(),
            b.entries(),
            b.grid(),
        ),
{
}

/// Deleting the sole remaining row leaves a grid of zero rows.
pub proof fn lemma_delete_sole_row(g: Seq<Seq<DataValue>>)
    requires
        g.len() == 1,
    ensures
        g.remove(0) == Seq::<Seq<DataValue>>::empty(),
{
    assert(g.remove(0) =~= Seq::<Seq<DataValue>>::empty());
}

/// Appending a row and then deleting it returns the grid to its prior
/// state: every surviving row keeps its place and its values.
pub proof fn lemma_append_then_delete(g: Seq<Seq<DataValue>>, row: Seq<DataValue>)
    ensures
        g.push(row).remove(g.len() as int) == g,
{
    assert(g.push(row).remove(g.len() as int) =~= g);
}

} // verus!
