use std::ops::Range;
use vstd::prelude::*;

verus! {

/// The kind of a column of the circuit.
#[derive(Debug, Clone, Copy, PartialEq, Eq, Structural)]
pub enum Any {
    /// A column whose cells the prover fills in.
    Advice,
    /// A column whose cells are fixed when the circuit is built.
    Fixed,
    /// A column of public inputs.
    Instance,
}

/// A column of the circuit: its kind and its index among the columns of that kind.
#[derive(Debug, Clone, Copy, PartialEq, Eq, Structural)]
pub struct Column {
    pub index: usize,
    pub column_type: Any,
}

/// A selector of the circuit, named by its index.
#[derive(Debug, Clone, Copy, PartialEq, Eq, Structural)]
pub struct Selector(pub usize);

/// An equality constraint between two cells, as recorded by
/// [`AssignmentDumper::copy`].
#[derive(Debug, Clone, Copy, PartialEq, Eq, Structural)]
pub struct CopyConstraint {
    pub from_column_type: Any,
    pub from_column_index: usize,
    pub from_row_index: usize,
    pub to_column_type: Any,
    pub to_column_index: usize,
    pub to_row_index: usize,
}

/// Why an operation on the dumper was refused.
#[derive(Debug, Clone, Copy, PartialEq, Eq, Structural)]
pub enum Error {
    /// The row lies outside the usable rows of a circuit of `2^current_k` rows.
    NotEnoughRowsAvailable { current_k: u32 },
    /// The column, or the row within the column's storage, does not exist.
    BoundsFailure,
}

/// What the dumper needs to know of a configured constraint system:
/// the number of rows reserved for blinding, and the number of columns
/// and selectors of each kind.
#[derive(Debug, Clone, Copy, PartialEq, Eq, Structural)]
pub struct CircuitShape {
    pub blinding_factors: usize,
    pub num_instance_columns: usize,
    pub num_fixed_columns: usize,
    pub num_advice_columns: usize,
    pub num_selectors: usize,
}

/// The number of usable rows of a circuit of `2^k` rows of which
/// `blinding_factors` rows, and one more row, are reserved.
pub open spec fn usable_row_count(k: u32, blinding_factors: usize) -> int {
    vstd::arithmetic::power2::pow2(k as nat) - blinding_factors - 1
}

/// The contents of a table stored column by column.
pub open spec fn cells<T>(table: Vec<Vec<T>>) -> Seq<Seq<T>> {
    table@.map_values(|column: Vec<T>| column@)
}

/// Whether `(column, row)` names a stored cell of `table`.
pub open spec fn has_cell<T>(table: Seq<Seq<T>>, column: int, row: int) -> bool {
    &&& 0 <= column < table.len()
    &&& 0 <= row < table[column].len()
}

/// `table` with the cell `(column, row)` replaced by `value`.
pub open spec fn with_cell<T>(table: Seq<Seq<T>>, column: int, row: int, value: T) -> Seq<Seq<T>> {
    table.update(column, table[column].update(row, value))
}

/// A table of `num_columns` columns of `num_rows` cells, each holding `value`.
pub open spec fn uniform_table<T>(num_columns: int, num_rows: int, value: T) -> Seq<Seq<T>> {
    Seq::new(num_columns as nat, |c: int| Seq::new(num_rows as nat, |r: int| value))
}

/// `column` with every cell whose row lies in `first..end` replaced by `value`.
pub open spec fn fill_rows<T>(column: Seq<T>, first: int, end: int, value: T) -> Seq<T> {
    Seq::new(column.len(), |r: int| if first <= r < end { value } else { column[r] })
}

/// Builds a column of `n` copies of `value`.
fn filled_column<T: Copy>(value: T, n: usize) -> (column: Vec<T>)
    ensures
        column@ == Seq::new(n as nat, |r: int| value),
{
    let mut column: Vec<T> = Vec::new();
    let mut i: usize = 0;
    while i < n
        invariant
            i <= n,
            column@ == Seq::new(i as nat, |r: int| value),
        decreases n - i,
    {
        column.push(value);
        i = i + 1;
        assert(column@ =~= Seq::new(i as nat, |r: int| value));
    }
    column
}

/// Builds `num_columns` columns of `num_rows` copies of `value`.
fn filled_table<T: Copy>(value: T, num_columns: usize, num_rows: usize) -> (table: Vec<Vec<T>>)
    ensures
        cells(table) == uniform_table(num_columns as int, num_rows as int, value),
{
    let mut table: Vec<Vec<T>> = Vec::new();
    let mut i: usize = 0;
    while i < num_columns
        invariant
            i <= num_columns,
            cells(table) == uniform_table(i as int, num_rows as int, value),
        decreases num_columns - i,
    {
        let ghost before = cells(table);
        let column = filled_column(value, num_rows);
        table.push(column);
        i = i + 1;
        assert(cells(table) =~= before.push(Seq::new(num_rows as nat, |r: int| value)));
        assert(cells(table) =~~= uniform_table(i as int, num_rows as int, value));
    }
    table
}

/// Visits a circuit and keeps track of the cells it assigns and the copy
/// constraints it asks for.
///
/// Each table is stored column by column: `instance[column][row]` is the value
/// of a public input cell (`None` while unknown), `fixed[column][row]` and
/// `advice[column][row]` are the values assigned to those cells (`None` when
/// nothing or an unknown value was assigned), and `selectors[selector][row]`
/// tells whether the selector is enabled on that row.
pub struct AssignmentDumper<F> {
    pub k: u32,
    pub copy_constraints: Vec<CopyConstraint>,
    pub instance: Vec<Vec<Option<F>>>,
    pub fixed: Vec<Vec<Option<F>>>,
    pub selectors: Vec<Vec<bool>>,
    pub advice: Vec<Vec<Option<F>>>,
    /// The rows available for assignments and copies.
    pub usable_rows: Range<usize>,
}

impl<F> AssignmentDumper<F> {
    /// Whether `row` lies in the usable rows.
    pub open spec fn is_usable(&self, row: int) -> bool {
        self.usable_rows.start <= row < self.usable_rows.end
    }

    /// The error that refuses a row outside the usable rows.
    pub open spec fn rows_error(&self) -> Error {
        Error::NotEnoughRowsAvailable { current_k: self.k }
    }

    /// What an access to the cell `(column, row)` of `table` comes to:
    /// refused when the row is not usable, refused when the cell is not
    /// stored, accepted otherwise.
    pub open spec fn access_outcome<T>(&self, table: Seq<Seq<T>>, column: int, row: int) -> Result<(), Error> {
        if !self.is_usable(row) {
            Err(self.rows_error())
        } else if !has_cell(table, column, row) {
            Err(Error::BoundsFailure)
        } else {
            Ok(())
        }
    }

    /// The state of a dumper that `new(k, meta)` returns.
    pub open spec fn is_fresh(&self, k: u32, meta: CircuitShape) -> bool {
        let n = usable_row_count(k, meta.blinding_factors);
        &&& self.k == k
        &&& self.usable_rows.start == 0
        &&& self.usable_rows.end == n
        &&& self.copy_constraints@ == Seq::<CopyConstraint>::empty()
        &&& cells(self.instance) == uniform_table(meta.num_instance_columns as int, n, None::<F>)
        &&& cells(self.fixed) == uniform_table(meta.num_fixed_columns as int, n, None::<F>)
        &&& cells(self.advice) == uniform_table(meta.num_advice_columns as int, n, None::<F>)
        &&& cells(self.selectors) == uniform_table(meta.num_selectors as int, n, false)
    }
}

impl<F: Copy> AssignmentDumper<F> {
    /// Creates a dumper for a circuit of `2^k` rows whose shape is `meta`:
    /// every column holds one unset cell per usable row, every selector is
    /// disabled and no copy constraint is recorded.
    pub fn new(k: u32, meta: &CircuitShape) -> (dumper: Self)
        requires
            k < usize::BITS,
            usable_row_count(k, meta.blinding_factors) >= 0,
        ensures
            dumper.is_fresh(k, *meta),
            dumper.usable_rows.start == 0,
            dumper.usable_rows.end + meta.blinding_factors + 1 == vstd::arithmetic::power2::pow2(k as nat),
    {
        let shift: usize = k as usize;
        proof {
            vstd::bits::lemma_usize_pow2_no_overflow(shift as nat);
            vstd::bits::lemma_usize_shl_is_mul(1, shift);
        }
        let usable_rows: usize = (1usize << shift) - meta.blinding_factors - 1;
        AssignmentDumper {
            k,
            instance: filled_table(None, meta.num_instance_columns, usable_rows),
            fixed: filled_table(None, meta.num_fixed_columns, usable_rows),
            advice: filled_table(None, meta.num_advice_columns, usable_rows),
            selectors: filled_table(false, meta.num_selectors, usable_rows),
            copy_constraints: Vec::new(),
            usable_rows: 0..usable_rows,
        }
    }

    /// Assigns `to` to the fixed cell `(column, row)`.
    ///
    /// Refused with `NotEnoughRowsAvailable` when the row is not usable and with
    /// `BoundsFailure` when the cell is not stored; a refused call changes nothing.
    pub fn assign_fixed(&mut self, column: usize, row: usize, to: Option<F>) -> (result: Result<(), Error>)
        ensures
            result == old(self).access_outcome(cells(old(self).fixed), column as int, row as int),
            result is Ok ==> cells(final(self).fixed) == with_cell(cells(old(self).fixed), column as int, row as int, to),
            result is Ok ==> *final(self) == (AssignmentDumper { fixed: final(self).fixed, ..*old(self) }),
            result is Err ==> *final(self) == *old(self),
    {
        if !(self.usable_rows.start <= row && row < self.usable_rows.end) {
            return Err(Error::NotEnoughRowsAvailable { current_k: self.k });
        }
        if column >= self.fixed.len() || row >= self.fixed[column].len() {
            return Err(Error::BoundsFailure);
        }
        let ghost before = cells(self.fixed);
        self.fixed[column][row] = to;
        assert(cells(self.fixed) =~~= with_cell(before, column as int, row as int, to));
        Ok(())
    }

    /// Assigns `to` to the advice cell `(column, row)`.
    ///
    /// Refused with `NotEnoughRowsAvailable` when the row is not usable and with
    /// `BoundsFailure` when the cell is not stored; a refused call changes nothing.
    pub fn assign_advice(&mut self, column: usize, row: usize, to: Option<F>) -> (result: Result<(), Error>)
        ensures
            result == old(self).access_outcome(cells(old(self).advice), column as int, row as int),
            result is Ok ==> cells(final(self).advice) == with_cell(cells(old(self).advice), column as int, row as int, to),
            result is Ok ==> *final(self) == (AssignmentDumper { advice: final(self).advice, ..*old(self) }),
            result is Err ==> *final(self) == *old(self),
    {
        if !(self.usable_rows.start <= row && row < self.usable_rows.end) {
            return Err(Error::NotEnoughRowsAvailable { current_k: self.k });
        }
        if column >= self.advice.len() || row >= self.advice[column].len() {
            return Err(Error::BoundsFailure);
        }
        let ghost before = cells(self.advice);
        self.advice[column][row] = to;
        assert(cells(self.advice) =~~= with_cell(before, column as int, row as int, to));
        Ok(())
    }

    /// Enables `selector` on `row`.
    ///
    /// Refused with `NotEnoughRowsAvailable`, changing nothing, when the row is
    /// not usable. The selector's cell on a usable row must be stored.
    pub fn enable_selector(&mut self, selector: &Selector, row: usize) -> (result: Result<(), Error>)
        requires
            old(self).is_usable(row as int) ==> has_cell(cells(old(self).selectors), selector.0 as int, row as int),
        ensures
            result == (if old(self).is_usable(row as int) { Ok(()) } else { Err(old(self).rows_error()) }),
            result is Ok ==> cells(final(self).selectors) == with_cell(cells(old(self).selectors), selector.0 as int, row as int, true),
            result is Ok ==> *final(self) == (AssignmentDumper { selectors: final(self).selectors, ..*old(self) }),
            result is Err ==> *final(self) == *old(self),
    {
        if !(self.usable_rows.start <= row && row < self.usable_rows.end) {
            return Err(Error::NotEnoughRowsAvailable { current_k: self.k });
        }
        let ghost before = cells(self.selectors);
        self.selectors[selector.0][row] = true;
        assert(cells(self.selectors) =~~= with_cell(before, selector.0 as int, row as int, true));
        Ok(())
    }

    /// Reads the instance cell `(column, row)`: `Ok(None)` while its value is unknown.
    ///
    /// Refused with `NotEnoughRowsAvailable` when the row is not usable and with
    /// `BoundsFailure` when the cell is not stored.
    pub fn query_instance(&self, column: usize, row: usize) -> (result: Result<Option<F>, Error>)
        ensures
            (match self.access_outcome(cells(self.instance), column as int, row as int) {
                Ok(_) => result == Ok::<Option<F>, Error>(cells(self.instance)[column as int][row as int]),
                Err(e) => result == Err::<Option<F>, Error>(e),
            }),
    {
        if !(self.usable_rows.start <= row && row < self.usable_rows.end) {
            return Err(Error::NotEnoughRowsAvailable { current_k: self.k });
        }
        if column >= self.instance.len() || row >= self.instance[column].len() {
            return Err(Error::BoundsFailure);
        }
        Ok(self.instance[column][row])
    }

    /// Records that the cell `(left_column, left_row)` must equal the cell
    /// `(right_column, right_row)`.
    ///
    /// Refused with `NotEnoughRowsAvailable`, changing nothing, unless both rows
    /// are usable; otherwise the constraint is appended to `copy_constraints`.
    pub fn copy(
        &mut self,
        left_column: Column,
        left_row: usize,
        right_column: Column,
        right_row: usize,
    ) -> (result: Result<(), Error>)
        ensures
            result == (if old(self).is_usable(left_row as int) && old(self).is_usable(right_row as int) {
                Ok(())
            } else {
                Err(old(self).rows_error())
            }),
            result is Ok ==> final(self).copy_constraints@ == old(self).copy_constraints@.push(
                CopyConstraint {
                    from_column_type: left_column.column_type,
                    from_column_index: left_column.index,
                    from_row_index: left_row,
                    to_column_type: right_column.column_type,
                    to_column_index: right_column.index,
                    to_row_index: right_row,
                },
            ),
            result is Ok ==> *final(self) == (AssignmentDumper { copy_constraints: final(self).copy_constraints, ..*old(self) }),
            result is Err ==> *final(self) == *old(self),
    {
        if !(self.usable_rows.start <= left_row && left_row < self.usable_rows.end)
            || !(self.usable_rows.start <= right_row && right_row < self.usable_rows.end) {
            return Err(Error::NotEnoughRowsAvailable { current_k: self.k });
        }
        let copy_constraint = CopyConstraint {
            from_column_type: left_column.column_type,
            from_column_index: left_column.index,
            from_row_index: left_row,
            to_column_type: right_column.column_type,
            to_column_index: right_column.index,
            to_row_index: right_row,
        };
        self.copy_constraints.push(copy_constraint);
        Ok(())
    }

    /// Assigns `to` to every cell of the fixed column `column` from the
    /// `from_row`-th usable row to the last usable row.
    ///
    /// Refused with `NotEnoughRowsAvailable` when `from_row` is not usable and
    /// with `BoundsFailure` when the column does not exist; a refused call changes
    /// nothing. The column must store every row that the call fills.
    pub fn fill_from_row(&mut self, column: usize, from_row: usize, to: Option<F>) -> (result: Result<(), Error>)
        requires
            old(self).is_usable(from_row as int) && column < old(self).fixed.len()
                && old(self).usable_rows.start + from_row < old(self).usable_rows.end
                ==> old(self).usable_rows.end <= old(self).fixed@[column as int].len(),
        ensures
            result == (if !old(self).is_usable(from_row as int) {
                Err(old(self).rows_error())
            } else if column >= old(self).fixed.len() {
                Err(Error::BoundsFailure)
            } else {
                Ok(())
            }),
            result is Ok ==> cells(final(self).fixed) == cells(old(self).fixed).update(
                column as int,
                fill_rows(
                    cells(old(self).fixed)[column as int],
                    old(self).usable_rows.start + from_row,
                    old(self).usable_rows.end as int,
                    to,
                ),
            ),
            result is Ok ==> *final(self) == (AssignmentDumper { fixed: final(self).fixed, ..*old(self) }),
            result is Err ==> *final(self) == *old(self),
    {
        if !(self.usable_rows.start <= from_row && from_row < self.usable_rows.end) {
            return Err(Error::NotEnoughRowsAvailable { current_k: self.k });
        }
        if column >= self.fixed.len() {
            return Err(Error::BoundsFailure);
        }
        let ghost orig = *self;
        let ghost first: int = self.usable_rows.start + from_row;
        let start = self.usable_rows.start;
        let end = self.usable_rows.end;
        if from_row < end - start {
            let mut row: usize = start + from_row;
            assert(cells(orig.fixed).update(
                column as int,
                fill_rows(cells(orig.fixed)[column as int], first, row as int, to),
            ) =~~= cells(orig.fixed));
            while row < end
                invariant
                    first <= row <= end,
                    first < end,
                    start == orig.usable_rows.start,
                    end == orig.usable_rows.end,
                    column < orig.fixed.len(),
                    end <= orig.fixed@[column as int].len(),
                    self.fixed@.len() == orig.fixed@.len(),
                    cells(self.fixed) == cells(orig.fixed).update(
                        column as int,
                        fill_rows(cells(orig.fixed)[column as int], first, row as int, to),
                    ),
                    *self == (AssignmentDumper { fixed: self.fixed, ..orig }),
                decreases end - row,
            {
                let ghost before = cells(self.fixed);
                assert(before[column as int].len() == self.fixed@[column as int]@.len());
                self.fixed[column][row] = to;
                assert(cells(self.fixed) =~~= with_cell(before, column as int, row as int, to));
                row = row + 1;
                assert(cells(self.fixed) =~~= cells(orig.fixed).update(
                    column as int,
                    fill_rows(cells(orig.fixed)[column as int], first, row as int, to),
                ));
            }
        } else {
            assert(cells(self.fixed) =~~= cells(orig.fixed).update(
                column as int,
                fill_rows(cells(orig.fixed)[column as int], first, end as int, to),
            ));
        }
        Ok(())
    }

    /// Enters a region of the circuit; the dumper keeps no record of regions.
    pub fn enter_region(&mut self, _name: String)
        ensures
            *final(self) == *old(self),
    {
    }

    /// Leaves the current region; the dumper keeps no record of regions.
    pub fn exit_region(&mut self)
        ensures
            *final(self) == *old(self),
    {
    }

    /// Enters a namespace; the dumper keeps no record of namespaces.
    pub fn push_namespace(&mut self, _name: String)
        ensures
            *final(self) == *old(self),
    {
    }

    /// Leaves a namespace; the dumper keeps no record of namespaces.
    pub fn pop_namespace(&mut self, _name: Option<String>)
        ensures
            *final(self) == *old(self),
    {
    }
}

} // verus!
