//! Properties that hold across the operations of the dumper, stated over the
//! spec functions that the operations' contracts use.

use vstd::prelude::*;

use crate::constraints::{gate_polynomials, lookup_inputs, lookup_tables, zip, Gate, Lookup};
use crate::dump::{
    cells, fill_rows, has_cell, uniform_table, usable_row_count, with_cell, AssignmentDumper,
    CircuitShape, Error,
};
use vstd::arithmetic::power2::pow2;

verus! {

/// A dumper just made by `new` holds no value: every instance, fixed and
/// advice cell of a usable row is unset and every selector is disabled.
pub proof fn fresh_dumper_is_unset<F>(d: AssignmentDumper<F>, k: u32, meta: CircuitShape, column: int, row: int)
    requires
        d.is_fresh(k, meta),
        0 <= row < usable_row_count(k, meta.blinding_factors),
        0 <= column,
    ensures
        column < meta.num_instance_columns ==> cells(d.instance)[column][row] == None::<F>,
        column < meta.num_fixed_columns ==> cells(d.fixed)[column][row] == None::<F>,
        column < meta.num_advice_columns ==> cells(d.advice)[column][row] == None::<F>,
        column < meta.num_selectors ==> !cells(d.selectors)[column][row],
{
}

/// A dumper just made by `new` accepts an access to every usable row of every
/// column it was made with, and refuses every other row and column.
pub proof fn fresh_dumper_accepts_exactly_its_cells<F>(
    d: AssignmentDumper<F>,
    k: u32,
    meta: CircuitShape,
    column: int,
    row: int,
)
    requires
        d.is_fresh(k, meta),
    ensures
        d.access_outcome(cells(d.fixed), column, row) is Ok <==> (0 <= column < meta.num_fixed_columns
            && 0 <= row < usable_row_count(k, meta.blinding_factors)),
        d.access_outcome(cells(d.advice), column, row) is Ok <==> (0 <= column < meta.num_advice_columns
            && 0 <= row < usable_row_count(k, meta.blinding_factors)),
        d.access_outcome(cells(d.instance), column, row) is Ok <==> (0 <= column < meta.num_instance_columns
            && 0 <= row < usable_row_count(k, meta.blinding_factors)),
{
}

/// The usable rows are exactly the rows of the range `usable_rows`.
pub proof fn usable_rows_are_the_range<F>(d: AssignmentDumper<F>, row: int)
    ensures
        d.is_usable(row) <==> (d.usable_rows.start <= row && row < d.usable_rows.end),
        d.rows_error() == (Error::NotEnoughRowsAvailable { current_k: d.k }),
{
}

/// A row outside the range `usable_rows` is refused, whatever the table and
/// column, with the error that names the circuit's `k`.
pub proof fn unusable_row_is_refused<F, T>(d: AssignmentDumper<F>, table: Seq<Seq<T>>, column: int, row: int)
    requires
        !(d.usable_rows.start <= row && row < d.usable_rows.end),
    ensures
        d.access_outcome(table, column, row) == (Err::<(), Error>(Error::NotEnoughRowsAvailable { current_k: d.k })),
{
}

/// A cell that was written reads back the value written, and every other cell
/// reads what it held before.
pub proof fn read_after_write<T>(table: Seq<Seq<T>>, column: int, row: int, value: T, other_column: int, other_row: int)
    requires
        has_cell(table, column, row),
    ensures
        with_cell(table, column, row, value)[column][row] == value,
        has_cell(table, other_column, other_row) && (other_column != column || other_row != row)
            ==> with_cell(table, column, row, value)[other_column][other_row] == table[other_column][other_row],
{
}

/// A write changes no cell's existence, so whether a later access is accepted
/// does not depend on the writes before it.
pub proof fn write_keeps_outcomes<F, T>(
    d: AssignmentDumper<F>,
    table: Seq<Seq<T>>,
    column: int,
    row: int,
    value: T,
    other_column: int,
    other_row: int,
)
    requires
        has_cell(table, column, row),
    ensures
        d.access_outcome(with_cell(table, column, row, value), other_column, other_row)
            == d.access_outcome(table, other_column, other_row),
{
}

/// Of two writes to the same cell, the later one wins.
pub proof fn last_write_wins<T>(table: Seq<Seq<T>>, column: int, row: int, first: T, second: T)
    requires
        has_cell(table, column, row),
    ensures
        with_cell(with_cell(table, column, row, first), column, row, second) == with_cell(table, column, row, second),
{
    assert(with_cell(with_cell(table, column, row, first), column, row, second) =~~= with_cell(table, column, row, second));
}

/// Writes to two different cells can be made in either order.
pub proof fn distinct_writes_commute<T>(
    table: Seq<Seq<T>>,
    column: int,
    row: int,
    value: T,
    other_column: int,
    other_row: int,
    other_value: T,
)
    requires
        has_cell(table, column, row),
        has_cell(table, other_column, other_row),
        column != other_column || row != other_row,
    ensures
        with_cell(with_cell(table, column, row, value), other_column, other_row, other_value)
            == with_cell(with_cell(table, other_column, other_row, other_value), column, row, value),
{
    assert(with_cell(with_cell(table, column, row, value), other_column, other_row, other_value)
        =~~= with_cell(with_cell(table, other_column, other_row, other_value), column, row, value));
}

/// After a fill, every row of the column from the first filled row to the end
/// reads the filler, the rows before it keep their values, and the column keeps
/// its length.
pub proof fn fill_reads_back<T>(column: Seq<T>, first: int, end: int, value: T, row: int)
    requires
        0 <= row < column.len(),
    ensures
        fill_rows(column, first, end, value).len() == column.len(),
        first <= row < end ==> fill_rows(column, first, end, value)[row] == value,
        !(first <= row < end) ==> fill_rows(column, first, end, value)[row] == column[row],
{
}

/// Filling a range of rows is the same as writing the filler into each of its
/// rows one after the other: filling one more row extends the fill by one write.
pub proof fn fill_extends_by_one_write<T>(table: Seq<Seq<T>>, column: int, first: int, end: int, value: T)
    requires
        0 <= column < table.len(),
        0 <= end < table[column].len(),
    ensures
        table.update(column, fill_rows(table[column], first, end + 1, value)) == with_cell(
            table.update(column, fill_rows(table[column], first, end, value)),
            column,
            end,
            if first <= end { value } else { table[column][end] },
        ),
{
    assert(table.update(column, fill_rows(table[column], first, end + 1, value)) =~~= with_cell(
        table.update(column, fill_rows(table[column], first, end, value)),
        column,
        end,
        if first <= end { value } else { table[column][end] },
    ));
}


/// The usable rows of a circuit of `2^k` rows are all its rows but the
/// blinding rows and one more: whatever the number of blinding rows, the
/// usable rows, the blinding rows and that one row add up to `2^k`.
pub proof fn usable_rows_leave_every_blinding_row(k: u32, blinding_factors: usize)
    ensures
        usable_row_count(k, blinding_factors) + blinding_factors + 1 == pow2(k as nat),
        blinding_factors < pow2(k as nat) ==> usable_row_count(k, blinding_factors) >= 0,
{
}

/// A dumper just made by `new` has one stored column per column of the
/// circuit, each of exactly as many cells as there are usable rows, and its
/// usable rows are `0..2^k - blinding_factors - 1`.
pub proof fn fresh_dumper_shape<F>(d: AssignmentDumper<F>, k: u32, meta: CircuitShape, column: int)
    requires
        d.is_fresh(k, meta),
    ensures
        d.k == k,
        d.usable_rows.start == 0,
        d.usable_rows.end + meta.blinding_factors + 1 == pow2(k as nat),
        d.copy_constraints@.len() == 0,
        d.instance@.len() == meta.num_instance_columns,
        d.fixed@.len() == meta.num_fixed_columns,
        d.advice@.len() == meta.num_advice_columns,
        d.selectors@.len() == meta.num_selectors,
        0 <= column < meta.num_instance_columns ==> d.instance@[column]@.len() == d.usable_rows.end,
        0 <= column < meta.num_fixed_columns ==> d.fixed@[column]@.len() == d.usable_rows.end,
        0 <= column < meta.num_advice_columns ==> d.advice@[column]@.len() == d.usable_rows.end,
        0 <= column < meta.num_selectors ==> d.selectors@[column]@.len() == d.usable_rows.end,
{
    assert(cells(d.instance).len() == d.instance@.len());
    assert(cells(d.fixed).len() == d.fixed@.len());
    assert(cells(d.advice).len() == d.advice@.len());
    assert(cells(d.selectors).len() == d.selectors@.len());
    if 0 <= column < meta.num_instance_columns {
        assert(cells(d.instance)[column] == d.instance@[column]@);
    }
    if 0 <= column < meta.num_fixed_columns {
        assert(cells(d.fixed)[column] == d.fixed@[column]@);
    }
    if 0 <= column < meta.num_advice_columns {
        assert(cells(d.advice)[column] == d.advice@[column]@);
    }
    if 0 <= column < meta.num_selectors {
        assert(cells(d.selectors)[column] == d.selectors@[column]@);
    }
}

/// The contents of a stored table are its columns' contents, column by column.
pub proof fn cells_are_the_columns<T>(table: Vec<Vec<T>>, column: int)
    ensures
        cells(table).len() == table@.len(),
        0 <= column < table@.len() ==> cells(table)[column] == table@[column]@,
{
}

/// A uniform table has the asked number of columns and rows, and every cell
/// holds the value.
pub proof fn uniform_table_holds_value<T>(num_columns: nat, num_rows: nat, value: T, column: int, row: int)
    ensures
        uniform_table(num_columns as int, num_rows as int, value).len() == num_columns,
        0 <= column < num_columns ==> uniform_table(num_columns as int, num_rows as int, value)[column].len() == num_rows,
        0 <= column < num_columns && 0 <= row < num_rows ==> uniform_table(num_columns as int, num_rows as int, value)[column][row] == value,
{
}

/// A write keeps the table's shape: the same columns, each of the same length.
pub proof fn write_keeps_shape<T>(table: Seq<Seq<T>>, column: int, row: int, value: T, other_column: int)
    requires
        has_cell(table, column, row),
    ensures
        with_cell(table, column, row, value).len() == table.len(),
        0 <= other_column < table.len() ==> with_cell(table, column, row, value)[other_column].len() == table[other_column].len(),
{
}

/// An access to a usable row is accepted exactly when the column exists and
/// stores that row, and refused with `BoundsFailure` otherwise.
pub proof fn usable_row_outcome<F, T>(d: AssignmentDumper<F>, table: Seq<Seq<T>>, column: int, row: int)
    requires
        d.usable_rows.start <= row < d.usable_rows.end,
    ensures
        (0 <= column < table.len() && 0 <= row < table[column].len())
            ==> d.access_outcome(table, column, row) == Ok::<(), Error>(()),
        !(0 <= column < table.len() && 0 <= row < table[column].len())
            ==> d.access_outcome(table, column, row) == Err::<(), Error>(Error::BoundsFailure),
{
}

/// Every gate contributes its own polynomials, in gate order: the `i`-th list
/// is the polynomials of the `i`-th gate.
pub proof fn every_gate_in_order<E>(gates: Seq<Gate<E>>, i: int)
    ensures
        gate_polynomials(gates).len() == gates.len(),
        0 <= i < gates.len() ==> gate_polynomials(gates)[i] == gates[i].polynomials@,
{
}

/// Dumping the gates of two lists one after the other gives the dump of the
/// first list followed by the dump of the second.
pub proof fn gates_dump_concatenates<E>(first: Seq<Gate<E>>, second: Seq<Gate<E>>)
    ensures
        gate_polynomials(first + second).flatten() == gate_polynomials(first).flatten() + gate_polynomials(second).flatten(),
{
    assert(gate_polynomials(first + second) =~= gate_polynomials(first) + gate_polynomials(second));
    vstd::seq_lib::lemma_flatten_concat(gate_polynomials(first), gate_polynomials(second));
}

/// A single gate dumps to exactly its polynomials.
pub proof fn gates_dump_single<E>(gate: Gate<E>)
    ensures
        gate_polynomials(seq![gate]).flatten() == gate.polynomials@,
{
    assert(gate_polynomials(seq![gate]) =~= seq![gate.polynomials@]);
    seq![gate.polynomials@].lemma_flatten_singleton();
}

/// Every lookup contributes its own input and table expressions, in lookup
/// order: the `i`-th lists are those of the `i`-th lookup.
pub proof fn every_lookup_in_order<E>(lookups: Seq<Lookup<E>>, i: int)
    ensures
        lookup_inputs(lookups).len() == lookups.len(),
        lookup_tables(lookups).len() == lookups.len(),
        0 <= i < lookups.len() ==> lookup_inputs(lookups)[i] == lookups[i].input_expressions@,
        0 <= i < lookups.len() ==> lookup_tables(lookups)[i] == lookups[i].table_expressions@,
{
}

/// The input and table expressions of two lists of lookups, taken one list
/// after the other, are those of the first list followed by those of the second.
pub proof fn lookups_concatenate<E>(first: Seq<Lookup<E>>, second: Seq<Lookup<E>>)
    ensures
        lookup_inputs(first + second).flatten() == lookup_inputs(first).flatten() + lookup_inputs(second).flatten(),
        lookup_tables(first + second).flatten() == lookup_tables(first).flatten() + lookup_tables(second).flatten(),
{
    assert(lookup_inputs(first + second) =~= lookup_inputs(first) + lookup_inputs(second));
    assert(lookup_tables(first + second) =~= lookup_tables(first) + lookup_tables(second));
    vstd::seq_lib::lemma_flatten_concat(lookup_inputs(first), lookup_inputs(second));
    vstd::seq_lib::lemma_flatten_concat(lookup_tables(first), lookup_tables(second));
}

/// A single lookup contributes exactly its input and table expressions.
pub proof fn lookup_single<E>(lookup: Lookup<E>)
    ensures
        lookup_inputs(seq![lookup]).flatten() == lookup.input_expressions@,
        lookup_tables(seq![lookup]).flatten() == lookup.table_expressions@,
{
    assert(lookup_inputs(seq![lookup]) =~= seq![lookup.input_expressions@]);
    assert(lookup_tables(seq![lookup]) =~= seq![lookup.table_expressions@]);
    seq![lookup.input_expressions@].lemma_flatten_singleton();
    seq![lookup.table_expressions@].lemma_flatten_singleton();
}

/// The `j`-th pair holds the `j`-th input and the `j`-th table expression, and
/// there are as many pairs as the shorter of the two lists has elements.
pub proof fn zip_pairs_by_position<A, B>(a: Seq<A>, b: Seq<B>, j: int)
    ensures
        zip(a, b).len() <= a.len(),
        zip(a, b).len() <= b.len(),
        zip(a, b).len() == a.len() || zip(a, b).len() == b.len(),
        0 <= j < zip(a, b).len() ==> zip(a, b)[j] == (a[j], b[j]),
{
}

} // verus!
