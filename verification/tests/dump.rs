use ff::Field;
use halo2_dump::dump::{Any, AssignmentDumper, CircuitShape, Column, CopyConstraint, Error, Selector};
use pasta_curves::Fp;

fn shape() -> CircuitShape {
    CircuitShape {
        blinding_factors: 5,
        num_instance_columns: 1,
        num_fixed_columns: 1,
        num_advice_columns: 1,
        num_selectors: 1,
    }
}

fn advice(index: usize) -> Column {
    Column { index, column_type: Any::Advice }
}

fn fixed(index: usize) -> Column {
    Column { index, column_type: Any::Fixed }
}

fn instance(index: usize) -> Column {
    Column { index, column_type: Any::Instance }
}

#[test]
fn dump_cells() -> Result<(), Error> {
    let k = 5;
    let meta = shape();

    let mut cell_dumper: AssignmentDumper<Fp> = AssignmentDumper::new(k, &meta);
    cell_dumper.instance[0][0] = Some(Fp::from(777));

    // The assignments that synthesizing the test circuit's single region makes.
    let (a, b, c, s) = (0, 0, 0, Selector(0));
    cell_dumper.enter_region("region".to_string());
    cell_dumper.enable_selector(&s, 0)?;
    cell_dumper.assign_fixed(a, 0, Some(Fp::from(123)))?;
    cell_dumper.assign_advice(b, 0, Some(Fp::from(321)))?;

    cell_dumper.assign_fixed(a, 1, Some(Fp::from(456)))?;
    cell_dumper.assign_advice(b, 1, Some(Fp::from(654)))?;

    cell_dumper.enable_selector(&s, 2)?;
    cell_dumper.assign_fixed(a, 2, Some(Fp::from(789)))?;
    cell_dumper.assign_advice(b, 2, Some(Fp::from(987)))?;

    cell_dumper.assign_advice(b, 3, Some(Fp::from(111)))?;
    cell_dumper.assign_advice(b, 4, Some(Fp::from(111)))?;
    cell_dumper.copy(advice(b), 3, advice(b), 4)?;

    cell_dumper.assign_fixed(a, 3, Some(Fp::from(111)))?;
    cell_dumper.copy(fixed(a), 3, advice(b), 3)?;

    let value = cell_dumper.query_instance(c, 0)?;
    cell_dumper.assign_advice(b, 5, value)?;
    cell_dumper.copy(instance(c), 0, advice(b), 5)?;
    cell_dumper.exit_region();

    assert!(cell_dumper.selectors[0][0]);
    assert_eq!(cell_dumper.fixed[0][0], Some(Fp::from(123)));
    assert_eq!(cell_dumper.advice[0][0], Some(Fp::from(321)));

    assert!(!cell_dumper.selectors[0][1]);
    assert_eq!(cell_dumper.fixed[0][1], Some(Fp::from(456)));
    assert_eq!(cell_dumper.advice[0][1], Some(Fp::from(654)));

    assert!(cell_dumper.selectors[0][2]);
    assert_eq!(cell_dumper.fixed[0][2], Some(Fp::from(789)));
    assert_eq!(cell_dumper.advice[0][2], Some(Fp::from(987)));

    assert_eq!(
        cell_dumper.copy_constraints[0],
        CopyConstraint {
            from_column_type: Any::Advice,
            from_column_index: 0,
            from_row_index: 3,
            to_column_type: Any::Advice,
            to_column_index: 0,
            to_row_index: 4
        }
    );

    assert_eq!(
        cell_dumper.copy_constraints[1],
        CopyConstraint {
            from_column_type: Any::Fixed,
            from_column_index: 0,
            from_row_index: 3,
            to_column_type: Any::Advice,
            to_column_index: 0,
            to_row_index: 3
        }
    );

    assert_eq!(cell_dumper.advice[0][5], Some(Fp::from(777)));

    Ok(())
}

#[test]
fn new_dumper_has_usable_rows_and_empty_cells() {
    let meta = CircuitShape {
        blinding_factors: 2,
        num_instance_columns: 2,
        num_fixed_columns: 3,
        num_advice_columns: 1,
        num_selectors: 4,
    };
    let d: AssignmentDumper<Fp> = AssignmentDumper::new(3, &meta);
    // 2^3 rows, minus 2 blinding rows, minus one more.
    assert_eq!(d.usable_rows, 0..5);
    assert_eq!(d.k, 3);
    assert!(d.copy_constraints.is_empty());
    assert_eq!(d.instance.len(), 2);
    assert_eq!(d.fixed.len(), 3);
    assert_eq!(d.advice.len(), 1);
    assert_eq!(d.selectors.len(), 4);
    for column in d.instance.iter().chain(d.fixed.iter()).chain(d.advice.iter()) {
        assert_eq!(column.len(), 5);
        assert!(column.iter().all(|cell| cell.is_none()));
    }
    for column in d.selectors.iter() {
        assert_eq!(column.len(), 5);
        assert!(column.iter().all(|enabled| !enabled));
    }
}

#[test]
fn new_dumper_with_no_usable_rows() {
    let meta = CircuitShape {
        blinding_factors: 3,
        num_instance_columns: 1,
        num_fixed_columns: 1,
        num_advice_columns: 1,
        num_selectors: 1,
    };
    let mut d: AssignmentDumper<Fp> = AssignmentDumper::new(2, &meta);
    assert_eq!(d.usable_rows, 0..0);
    assert_eq!(
        d.assign_fixed(0, 0, Some(Fp::ONE)),
        Err(Error::NotEnoughRowsAvailable { current_k: 2 })
    );
}

#[test]
fn assignment_outside_usable_rows_is_refused() {
    let mut d: AssignmentDumper<Fp> = AssignmentDumper::new(5, &shape());
    assert_eq!(
        d.assign_fixed(0, 26, Some(Fp::from(1))),
        Err(Error::NotEnoughRowsAvailable { current_k: 5 })
    );
    assert_eq!(
        d.assign_advice(0, 100, Some(Fp::from(1))),
        Err(Error::NotEnoughRowsAvailable { current_k: 5 })
    );
    assert_eq!(
        d.enable_selector(&Selector(0), 26),
        Err(Error::NotEnoughRowsAvailable { current_k: 5 })
    );
    assert_eq!(
        d.query_instance(0, 26),
        Err(Error::NotEnoughRowsAvailable { current_k: 5 })
    );
    assert_eq!(
        d.fill_from_row(0, 26, Some(Fp::from(1))),
        Err(Error::NotEnoughRowsAvailable { current_k: 5 })
    );
    assert_eq!(
        d.copy(advice(0), 0, advice(0), 26),
        Err(Error::NotEnoughRowsAvailable { current_k: 5 })
    );
    assert_eq!(
        d.copy(advice(0), 26, advice(0), 0),
        Err(Error::NotEnoughRowsAvailable { current_k: 5 })
    );
    assert!(d.copy_constraints.is_empty());
    assert!(d.fixed[0].iter().all(|cell| cell.is_none()));
    assert!(d.advice[0].iter().all(|cell| cell.is_none()));
    assert!(d.selectors[0].iter().all(|enabled| !enabled));
}

#[test]
fn missing_column_is_a_bounds_failure() {
    let mut d: AssignmentDumper<Fp> = AssignmentDumper::new(5, &shape());
    assert_eq!(d.assign_fixed(1, 0, Some(Fp::from(1))), Err(Error::BoundsFailure));
    assert_eq!(d.assign_advice(7, 3, Some(Fp::from(1))), Err(Error::BoundsFailure));
    assert_eq!(d.query_instance(1, 0), Err(Error::BoundsFailure));
    assert_eq!(d.fill_from_row(2, 0, Some(Fp::from(1))), Err(Error::BoundsFailure));
    assert!(d.fixed[0].iter().all(|cell| cell.is_none()));
    assert!(d.advice[0].iter().all(|cell| cell.is_none()));
}

#[test]
fn usable_row_beyond_stored_cells_is_a_bounds_failure() {
    let mut d: AssignmentDumper<Fp> = AssignmentDumper::new(5, &shape());
    d.usable_rows = 0..40;
    assert_eq!(d.assign_fixed(0, 30, Some(Fp::from(1))), Err(Error::BoundsFailure));
    assert_eq!(d.assign_advice(0, 26, Some(Fp::from(1))), Err(Error::BoundsFailure));
    assert_eq!(d.query_instance(0, 39), Err(Error::BoundsFailure));
}

#[test]
fn query_instance_reads_stored_value() {
    let mut d: AssignmentDumper<Fp> = AssignmentDumper::new(5, &shape());
    assert_eq!(d.query_instance(0, 7), Ok(None));
    d.instance[0][7] = Some(Fp::from(42));
    assert_eq!(d.query_instance(0, 7), Ok(Some(Fp::from(42))));
    assert_eq!(d.query_instance(0, 8), Ok(None));
}

#[test]
fn later_assignment_overwrites_earlier() {
    let mut d: AssignmentDumper<Fp> = AssignmentDumper::new(5, &shape());
    d.assign_advice(0, 4, Some(Fp::from(10))).unwrap();
    d.assign_advice(0, 4, Some(Fp::from(20))).unwrap();
    assert_eq!(d.advice[0][4], Some(Fp::from(20)));
    d.assign_advice(0, 4, None).unwrap();
    assert_eq!(d.advice[0][4], None);
    d.assign_fixed(0, 9, Some(Fp::from(3))).unwrap();
    d.assign_fixed(0, 9, Some(Fp::from(4))).unwrap();
    assert_eq!(d.fixed[0][9], Some(Fp::from(4)));
}

#[test]
fn assignments_to_distinct_cells_commute() {
    let meta = CircuitShape { num_advice_columns: 2, ..shape() };
    let mut d1: AssignmentDumper<Fp> = AssignmentDumper::new(5, &meta);
    let mut d2: AssignmentDumper<Fp> = AssignmentDumper::new(5, &meta);
    d1.assign_advice(0, 1, Some(Fp::from(5))).unwrap();
    d1.assign_advice(1, 1, Some(Fp::from(6))).unwrap();
    d2.assign_advice(1, 1, Some(Fp::from(6))).unwrap();
    d2.assign_advice(0, 1, Some(Fp::from(5))).unwrap();
    assert_eq!(d1.advice, d2.advice);
    assert_eq!(d1.advice[0][1], Some(Fp::from(5)));
    assert_eq!(d1.advice[1][1], Some(Fp::from(6)));
    assert_eq!(d1.advice[1][0], None);
}

#[test]
fn enable_selector_sets_only_its_cell() {
    let meta = CircuitShape { num_selectors: 2, ..shape() };
    let mut d: AssignmentDumper<Fp> = AssignmentDumper::new(5, &meta);
    d.enable_selector(&Selector(1), 3).unwrap();
    d.enable_selector(&Selector(1), 3).unwrap();
    for sel in 0..2 {
        for row in 0..26 {
            assert_eq!(d.selectors[sel][row], sel == 1 && row == 3);
        }
    }
}

#[test]
fn copies_are_recorded_in_order() {
    let mut d: AssignmentDumper<Fp> = AssignmentDumper::new(5, &shape());
    d.copy(fixed(2), 7, instance(1), 0).unwrap();
    d.copy(advice(0), 25, advice(3), 1).unwrap();
    assert_eq!(
        d.copy_constraints,
        vec![
            CopyConstraint {
                from_column_type: Any::Fixed,
                from_column_index: 2,
                from_row_index: 7,
                to_column_type: Any::Instance,
                to_column_index: 1,
                to_row_index: 0,
            },
            CopyConstraint {
                from_column_type: Any::Advice,
                from_column_index: 0,
                from_row_index: 25,
                to_column_type: Any::Advice,
                to_column_index: 3,
                to_row_index: 1,
            },
        ]
    );
}

#[test]
fn fill_from_row_fills_to_the_last_usable_row() {
    let mut d: AssignmentDumper<Fp> = AssignmentDumper::new(5, &shape());
    d.assign_fixed(0, 1, Some(Fp::from(9))).unwrap();
    d.fill_from_row(0, 3, Some(Fp::ZERO)).unwrap();
    assert_eq!(d.fixed[0][0], None);
    assert_eq!(d.fixed[0][1], Some(Fp::from(9)));
    assert_eq!(d.fixed[0][2], None);
    for row in 3..26 {
        assert_eq!(d.fixed[0][row], Some(Fp::ZERO));
    }
    d.fill_from_row(0, 0, None).unwrap();
    assert!(d.fixed[0].iter().all(|cell| cell.is_none()));
}

#[test]
fn fill_from_row_counts_from_the_first_usable_row() {
    let mut d: AssignmentDumper<Fp> = AssignmentDumper::new(5, &shape());
    d.usable_rows = 2..10;
    d.fill_from_row(0, 3, Some(Fp::ONE)).unwrap();
    for row in 0..26 {
        let expected = if (5..10).contains(&row) { Some(Fp::ONE) } else { None };
        assert_eq!(d.fixed[0][row], expected);
    }
    // Counted from the first usable row, row 8 leaves nothing to fill.
    d.fill_from_row(0, 8, Some(Fp::from(2))).unwrap();
    assert!(d.fixed[0].iter().all(|cell| *cell != Some(Fp::from(2))));
}

#[test]
fn regions_and_namespaces_change_nothing() {
    let mut d: AssignmentDumper<Fp> = AssignmentDumper::new(5, &shape());
    d.assign_advice(0, 0, Some(Fp::from(1))).unwrap();
    d.push_namespace("ns".to_string());
    d.enter_region("r".to_string());
    d.exit_region();
    d.pop_namespace(None);
    assert_eq!(d.advice[0][0], Some(Fp::from(1)));
    assert_eq!(d.usable_rows, 0..26);
    assert!(d.copy_constraints.is_empty());
}
