use halo2_dump::constraints::{dump_gates, dump_lookups, Gate, Lookup};

#[derive(Debug, Clone, PartialEq)]
enum Expression {
    Fixed { index: usize, column_index: usize, rotation: i32 },
    Advice { index: usize, column_index: usize, rotation: i32 },
    Instance { index: usize, column_index: usize, rotation: i32 },
    Product(Box<Expression>, Box<Expression>),
}

fn advice_query(index: usize, column_index: usize) -> Expression {
    Expression::Advice { index, column_index, rotation: 0 }
}

#[test]
fn test_dump_lookups() {
    // One lookup of the current instance cell into a table column.
    let lookups = vec![Lookup {
        input_expressions: vec![Expression::Instance { index: 0, column_index: 0, rotation: 0 }],
        table_expressions: vec![Expression::Fixed { index: 0, column_index: 0, rotation: 0 }],
    }];
    let lookup_constraints = dump_lookups(lookups).unwrap();
    assert_eq!(
        lookup_constraints,
        [(
            Expression::Instance { index: 0, column_index: 0, rotation: 0 },
            Expression::Fixed { index: 0, column_index: 0, rotation: 0 },
        )]
    );
}

#[test]
fn test_dump_gates() {
    // One gate asking that one of two advice cells be zero.
    let gates = vec![Gate {
        polynomials: vec![Expression::Product(
            Box::new(advice_query(0, 0)),
            Box::new(advice_query(1, 1)),
        )],
    }];
    let custom_gates = dump_gates(gates).unwrap();
    assert_eq!(
        custom_gates,
        vec![Expression::Product(
            Box::new(advice_query(0, 0)),
            Box::new(advice_query(1, 1)),
        )]
    );
}

#[test]
fn gates_are_flattened_in_order() {
    let gates = vec![
        Gate { polynomials: vec![1u64, 2] },
        Gate { polynomials: vec![] },
        Gate { polynomials: vec![3] },
    ];
    assert_eq!(dump_gates(gates).unwrap(), vec![1, 2, 3]);
    assert_eq!(dump_gates::<u64>(vec![]).unwrap(), Vec::<u64>::new());
}

#[test]
fn lookups_are_paired_across_arguments() {
    let lookups = vec![
        Lookup { input_expressions: vec![1u64, 2], table_expressions: vec![10u64] },
        Lookup { input_expressions: vec![3], table_expressions: vec![20, 30] },
    ];
    assert_eq!(dump_lookups(lookups).unwrap(), vec![(1, 10), (2, 20), (3, 30)]);
}

#[test]
fn lookups_stop_at_the_shorter_list() {
    let lookups = vec![
        Lookup { input_expressions: vec![1u64, 2, 3], table_expressions: vec![10u64] },
        Lookup { input_expressions: vec![], table_expressions: vec![20] },
    ];
    assert_eq!(dump_lookups(lookups).unwrap(), vec![(1, 10), (2, 20)]);
    let no_tables = vec![Lookup { input_expressions: vec![1u64], table_expressions: vec![] }];
    assert_eq!(dump_lookups(no_tables).unwrap(), Vec::<(u64, u64)>::new());
}
