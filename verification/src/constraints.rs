use vstd::prelude::*;

use crate::dump::Error;

verus! {

/// A gate of a configured constraint system: the polynomial expressions
/// that it constrains to zero.
pub struct Gate<E> {
    pub polynomials: Vec<E>,
}

/// A lookup argument of a configured constraint system: the input expressions
/// and the table expressions that they are looked up in, pairwise.
pub struct Lookup<E> {
    pub input_expressions: Vec<E>,
    pub table_expressions: Vec<E>,
}

/// The polynomials of each gate, gate by gate.
pub open spec fn gate_polynomials<E>(gates: Seq<Gate<E>>) -> Seq<Seq<E>> {
    gates.map_values(|gate: Gate<E>| gate.polynomials@)
}

/// The input expressions of each lookup, lookup by lookup.
pub open spec fn lookup_inputs<E>(lookups: Seq<Lookup<E>>) -> Seq<Seq<E>> {
    lookups.map_values(|lookup: Lookup<E>| lookup.input_expressions@)
}

/// The table expressions of each lookup, lookup by lookup.
pub open spec fn lookup_tables<E>(lookups: Seq<Lookup<E>>) -> Seq<Seq<E>> {
    lookups.map_values(|lookup: Lookup<E>| lookup.table_expressions@)
}

/// The pairs `(a[i], b[i])` for every `i` below both lengths.
pub open spec fn zip<A, B>(a: Seq<A>, b: Seq<B>) -> Seq<(A, B)> {
    Seq::new(
        if a.len() <= b.len() { a.len() } else { b.len() },
        |i: int| (a[i], b[i]),
    )
}

/// Moves the contents of every group, in order, into one vector.
fn concat_groups<E>(groups: Vec<Vec<E>>) -> (flat: Vec<E>)
    ensures
        flat@ == groups@.map_values(|group: Vec<E>| group@).flatten(),
{
    let ghost all = groups@.map_values(|group: Vec<E>| group@);
    let mut rest = groups;
    let mut flat: Vec<E> = Vec::new();
    assert(flat@ + rest@.map_values(|group: Vec<E>| group@).flatten() =~= all.flatten());
    while rest.len() > 0
        invariant
            flat@ + rest@.map_values(|group: Vec<E>| group@).flatten() == all.flatten(),
        decreases rest.len(),
    {
        let ghost before = rest@.map_values(|group: Vec<E>| group@);
        let mut group = rest.remove(0);
        let ghost taken = group@;
        let ghost after = rest@.map_values(|group: Vec<E>| group@);
        assert(before.drop_first() =~= after);
        assert(before.first() == taken);
        let ghost old_flat = flat@;
        flat.append(&mut group);
        assert(old_flat + before.flatten() =~= flat@ + after.flatten());
    }
    assert(rest@.map_values(|group: Vec<E>| group@) =~= Seq::<Seq<E>>::empty());
    assert(flat@ =~= all.flatten());
    flat
}

/// The polynomial constraints of all the gates of a configured constraint
/// system, gate after gate, each gate's polynomials in order.
pub fn dump_gates<E>(gates: Vec<Gate<E>>) -> (result: Result<Vec<E>, Error>)
    ensures
        result matches Ok(polynomials) && polynomials@ == gate_polynomials(gates@).flatten(),
{
    let ghost all = gates@;
    let mut rest = gates;
    let mut groups: Vec<Vec<E>> = Vec::new();
    while rest.len() > 0
        invariant
            groups@.map_values(|group: Vec<E>| group@) + gate_polynomials(rest@) == gate_polynomials(all),
        decreases rest.len(),
    {
        let ghost before = rest@;
        let gate = rest.remove(0);
        let ghost old_groups = groups@;
        groups.push(gate.polynomials);
        assert(gate_polynomials(before) =~= seq![before[0].polynomials@] + gate_polynomials(rest@));
        assert(groups@.map_values(|group: Vec<E>| group@) =~= old_groups.map_values(|group: Vec<E>| group@).push(before[0].polynomials@));
    }
    assert(gate_polynomials(rest@) =~= Seq::<Seq<E>>::empty());
    assert(groups@.map_values(|group: Vec<E>| group@) =~= gate_polynomials(all));
    Ok(concat_groups(groups))
}

/// Moves the elements of `a` and `b` into pairs `(a[i], b[i])`, stopping at
/// the end of the shorter one.
fn zip_vecs<A, B>(a: Vec<A>, b: Vec<B>) -> (pairs: Vec<(A, B)>)
    ensures
        pairs@ == zip(a@, b@),
{
    let ghost sa = a@;
    let ghost sb = b@;
    let mut rest_a = a;
    let mut rest_b = b;
    let mut pairs: Vec<(A, B)> = Vec::new();
    let ghost mut i: int = 0;
    while rest_a.len() > 0 && rest_b.len() > 0
        invariant
            0 <= i,
            rest_a@ == sa.skip(i),
            rest_b@ == sb.skip(i),
            i <= sa.len(),
            i <= sb.len(),
            pairs@ == zip(sa, sb).take(i),
        decreases rest_a.len(),
    {
        let x = rest_a.remove(0);
        let y = rest_b.remove(0);
        pairs.push((x, y));
        assert(sa.skip(i).drop_first() =~= sa.skip(i + 1));
        assert(sb.skip(i).drop_first() =~= sb.skip(i + 1));
        proof {
            i = i + 1;
        }
        assert(pairs@ =~= zip(sa, sb).take(i));
    }
    assert(pairs@ =~= zip(sa, sb));
    pairs
}

/// The lookup constraints of a configured constraint system: the input
/// expressions of all lookups, in order, paired with their table expressions,
/// in order, up to the shorter of the two lists.
pub fn dump_lookups<E>(lookups: Vec<Lookup<E>>) -> (result: Result<Vec<(E, E)>, Error>)
    ensures
        result matches Ok(pairs) && pairs@ == zip(
            lookup_inputs(lookups@).flatten(),
            lookup_tables(lookups@).flatten(),
        ),
{
    let ghost all = lookups@;
    let mut rest = lookups;
    let mut inputs: Vec<Vec<E>> = Vec::new();
    let mut tables: Vec<Vec<E>> = Vec::new();
    while rest.len() > 0
        invariant
            inputs@.map_values(|group: Vec<E>| group@) + lookup_inputs(rest@) == lookup_inputs(all),
            tables@.map_values(|group: Vec<E>| group@) + lookup_tables(rest@) == lookup_tables(all),
        decreases rest.len(),
    {
        let ghost before = rest@;
        let lookup = rest.remove(0);
        let ghost old_inputs = inputs@;
        let ghost old_tables = tables@;
        inputs.push(lookup.input_expressions);
        tables.push(lookup.table_expressions);
        assert(lookup_inputs(before) =~= seq![before[0].input_expressions@] + lookup_inputs(rest@));
        assert(lookup_tables(before) =~= seq![before[0].table_expressions@] + lookup_tables(rest@));
        assert(inputs@.map_values(|group: Vec<E>| group@) =~= old_inputs.map_values(|group: Vec<E>| group@).push(before[0].input_expressions@));
        assert(tables@.map_values(|group: Vec<E>| group@) =~= old_tables.map_values(|group: Vec<E>| group@).push(before[0].table_expressions@));
    }
    assert(lookup_inputs(rest@) =~= Seq::<Seq<E>>::empty());
    assert(lookup_tables(rest@) =~= Seq::<Seq<E>>::empty());
    assert(inputs@.map_values(|group: Vec<E>| group@) =~= lookup_inputs(all));
    assert(tables@.map_values(|group: Vec<E>| group@) =~= lookup_tables(all));
    let input_expressions = concat_groups(inputs);
    let table_expressions = concat_groups(tables);
    Ok(zip_vecs(input_expressions, table_expressions))
}

} // verus!
