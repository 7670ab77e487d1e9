use vstd::prelude::*;

use crate::context::{popped, remaining, Partition};
use crate::data_array::ColumnView;
use crate::data_array_ops::{arithmetic_array_spec, comparison_array_spec, logic_array_spec};
use crate::data_type::{coercion_spec, DataType};
use crate::data_value::{aggregate_spec, comparable, DataValue};
use crate::error::DataError;
use crate::data_block::DataBlock;
use crate::function::{
    accumulate_spec, display_spec, fresh, merge_spec, num_states, with_depth, Function,
};
use crate::operator::{
    DataValueAggregateOperator, DataValueArithmeticOperator, DataValueComparisonOperator,
    DataValueLogicOperator, Operator,
};
use crate::pipeline::{all_finished, logged, MergeState};

verus! {

/// An arithmetic operator on two columns yields the common numeric type of
/// their types; a pair of types with none fails with an error that names the
/// operator and both types.
pub proof fn lemma_arithmetic_result_type(
    op: DataValueArithmeticOperator,
    l: ColumnView,
    r: ColumnView,
)
    ensures
        arithmetic_array_spec(op, l, r) matches Ok((t, _)) ==> coercion_spec(
            l.data_type_spec(),
            r.data_type_spec(),
        ) == Some(t),
        coercion_spec(l.data_type_spec(), r.data_type_spec()) is None ==> arithmetic_array_spec(
            op,
            l,
            r,
        ) == Err::<(DataType, Seq<DataValue>), DataError>(
            DataError::Unsupported {
                op: Operator::Arithmetic(op),
                left: l.data_type_spec(),
                right: r.data_type_spec(),
            },
        ),
{
}

/// A comparison of two columns yields booleans when their types are
/// comparable, and otherwise fails naming the operator and both types.
pub proof fn lemma_comparison_result_type(
    op: DataValueComparisonOperator,
    l: ColumnView,
    r: ColumnView,
)
    ensures
        comparison_array_spec(op, l, r) is Ok ==> comparable(l.data_type_spec(), r.data_type_spec()),
        !comparable(l.data_type_spec(), r.data_type_spec()) ==> comparison_array_spec(op, l, r)
            == Err::<Seq<DataValue>, DataError>(
            DataError::Unsupported {
                op: Operator::Comparison(op),
                left: l.data_type_spec(),
                right: r.data_type_spec(),
            },
        ),
{
}

/// A boolean connective takes two boolean arrays; any other pair fails
/// naming the operator and both types.
pub proof fn lemma_logic_result_type(op: DataValueLogicOperator, l: ColumnView, r: ColumnView)
    ensures
        logic_array_spec(op, l, r) is Ok ==> l is Array && r is Array && l.data_type_spec() is Boolean
            && r.data_type_spec() is Boolean,
        !(l is Array && r is Array && l.data_type_spec() is Boolean
            && r.data_type_spec() is Boolean) ==> logic_array_spec(op, l, r) == Err::<
            Seq<DataValue>,
            DataError,
        >(
            DataError::Unsupported {
                op: Operator::Logic(op),
                left: l.data_type_spec(),
                right: r.data_type_spec(),
            },
        ),
{
}

/// An aggregate operator on two non-null values of different types fails,
/// naming the operator and both types.
pub proof fn lemma_aggregate_type_mismatch(op: DataValueAggregateOperator, l: DataValue, r: DataValue)
    requires
        !(l is Null),
        !(r is Null),
        l.data_type_spec() != r.data_type_spec(),
    ensures
        aggregate_spec(op, l, r) == Err::<DataValue, DataError>(
            DataError::Unsupported {
                op: Operator::Aggregate(op),
                left: l.data_type_spec(),
                right: r.data_type_spec(),
            },
        ),
{
}

/// Strings support min and max only, booleans no aggregate: any other
/// operator on such a pair fails naming the operator and both types.
pub proof fn lemma_aggregate_unsupported_kinds(op: DataValueAggregateOperator, l: DataValue, r: DataValue)
    requires
        (l is String && r is String && (op is Sum || op is Count)) || (l is Boolean && r is Boolean),
    ensures
        aggregate_spec(op, l, r) == Err::<DataValue, DataError>(
            DataError::Unsupported {
                op: Operator::Aggregate(op),
                left: l.data_type_spec(),
                right: r.data_type_spec(),
            },
        ),
{
}

/// Null is the identity of every aggregate operator, on either side.
pub proof fn lemma_null_absorption(op: DataValueAggregateOperator, v: DataValue)
    requires
        !(v is Null),
    ensures
        aggregate_spec(op, DataValue::Null, v) == Ok::<DataValue, DataError>(v),
        aggregate_spec(op, v, DataValue::Null) == Ok::<DataValue, DataError>(v),
{
}

/// A binary expression renders its operands in the order they were given,
/// never reordered, from their own renderings alone.
pub proof fn lemma_display_construction_order(
    op: DataValueArithmeticOperator,
    left: Function,
    right: Function,
    alias: String,
)
    ensures
        display_spec(
            Function::Arithmetic { arith_op: op, left: Box::new(left), right: Box::new(right) },
        ) == op.name_spec() + "("@ + display_spec(left) + ", "@ + display_spec(right) + ")"@,
        display_spec(
            Function::Alias {
                alias,
                arg: Box::new(
                    Function::Arithmetic {
                        arith_op: op,
                        left: Box::new(left),
                        right: Box::new(right),
                    },
                ),
            },
        ) == op.name_spec() + "("@ + display_spec(left) + ", "@ + display_spec(right) + ")"@
            + " as "@ + alias@,
{
    let inner = Function::Arithmetic { arith_op: op, left: Box::new(left), right: Box::new(right) };
    assert(display_spec(inner) == op.name_spec() + "("@ + display_spec(left) + ", "@
        + display_spec(right) + ")"@);
}

proof fn lemma_display_depth(f: Function, d: nat)
    ensures
        display_spec(with_depth(f, d)) == display_spec(f),
    decreases f,
{
    match f {
        Function::Alias { arg, .. } => lemma_display_depth(*arg, d),
        Function::ToTypeName { arg, .. } => lemma_display_depth(*arg, d),
        Function::Aggregate { arg, .. } => lemma_display_depth(*arg, d),
        Function::Average { arg, .. } => lemma_display_depth(*arg, d),
        Function::Arithmetic { left, right, .. } => {
            lemma_display_depth(*left, d);
            lemma_display_depth(*right, d + num_states(*left));
        },
        Function::Comparison { left, right, .. } => {
            lemma_display_depth(*left, d);
            lemma_display_depth(*right, d + num_states(*left));
        },
        Function::Logic { left, right, .. } => {
            lemma_display_depth(*left, d);
            lemma_display_depth(*right, d + num_states(*left));
        },
        _ => {},
    }
}

#[verifier::rlimit(80)]
proof fn lemma_display_accumulate(f: Function, b: DataBlock)
    ensures
        display_spec(accumulate_spec(f, b).0) == display_spec(f),
    decreases f,
{
    match f {
        Function::Alias { arg, .. } => lemma_display_accumulate(*arg, b),
        Function::ToTypeName { arg, .. } => lemma_display_accumulate(*arg, b),
        Function::Aggregate { arg, .. } => lemma_display_accumulate(*arg, b),
        Function::Average { arg, .. } => lemma_display_accumulate(*arg, b),
        Function::Arithmetic { left, right, .. } => {
            lemma_display_accumulate(*left, b);
            lemma_display_accumulate(*right, b);
        },
        Function::Comparison { left, right, .. } => {
            lemma_display_accumulate(*left, b);
            lemma_display_accumulate(*right, b);
        },
        Function::Logic { left, right, .. } => {
            lemma_display_accumulate(*left, b);
            lemma_display_accumulate(*right, b);
        },
        _ => {},
    }
}

proof fn lemma_display_merge(f: Function, states: Seq<DataValue>)
    ensures
        display_spec(merge_spec(f, states).0) == display_spec(f),
    decreases f,
{
    match f {
        Function::Alias { arg, .. } => lemma_display_merge(*arg, states),
        Function::ToTypeName { arg, .. } => lemma_display_merge(*arg, states),
        Function::Aggregate { arg, .. } => lemma_display_merge(*arg, states),
        Function::Average { arg, .. } => lemma_display_merge(*arg, states),
        Function::Arithmetic { left, right, .. } => {
            lemma_display_merge(*left, states);
            lemma_display_merge(*right, states);
        },
        Function::Comparison { left, right, .. } => {
            lemma_display_merge(*left, states);
            lemma_display_merge(*right, states);
        },
        Function::Logic { left, right, .. } => {
            lemma_display_merge(*left, states);
            lemma_display_merge(*right, states);
        },
        _ => {},
    }
}

proof fn lemma_display_fresh(f: Function)
    ensures
        display_spec(fresh(f)) == display_spec(f),
    decreases f,
{
    match f {
        Function::Alias { arg, .. } => lemma_display_fresh(*arg),
        Function::ToTypeName { arg, .. } => lemma_display_fresh(*arg),
        Function::Aggregate { arg, .. } => lemma_display_fresh(*arg),
        Function::Average { arg, .. } => lemma_display_fresh(*arg),
        Function::Arithmetic { left, right, .. } => {
            lemma_display_fresh(*left);
            lemma_display_fresh(*right);
        },
        Function::Comparison { left, right, .. } => {
            lemma_display_fresh(*left);
            lemma_display_fresh(*right);
        },
        Function::Logic { left, right, .. } => {
            lemma_display_fresh(*left);
            lemma_display_fresh(*right);
        },
        _ => {},
    }
}

/// Rendering depends on neither depths nor accumulated state: numbering,
/// folding in a block, merging a peer or taking a fresh copy leave it as it
/// was.
pub proof fn lemma_display_ignores_state(f: Function, b: DataBlock, states: Seq<DataValue>, d: nat)
    ensures
        display_spec(with_depth(f, d)) == display_spec(f),
        display_spec(accumulate_spec(f, b).0) == display_spec(f),
        display_spec(merge_spec(f, states).0) == display_spec(f),
        display_spec(fresh(f)) == display_spec(f),
{
    lemma_display_depth(f, d);
    lemma_display_accumulate(f, b);
    lemma_display_merge(f, states);
    lemma_display_fresh(f);
}

/// Popping `n1` and then `n2` partitions hands out, between the two, exactly
/// what popping `n1 + n2` at once would: each entry of the queue at most
/// once, and never one already handed out.
pub proof fn lemma_partition_pops_disjoint(q: Seq<Partition>, n1: nat, n2: nat)
    ensures
        popped(q, n1) + popped(remaining(q, n1), n2) == popped(q, n1 + n2),
        remaining(remaining(q, n1), n2) == remaining(q, n1 + n2),
        popped(q, n1).len() == (if n1 <= q.len() { n1 } else { q.len() }),
{
    let a = popped(q, n1);
    let rest = remaining(q, n1);
    let b = popped(rest, n2);
    assert(a + b =~= popped(q, n1 + n2));
    assert(remaining(rest, n2) =~= remaining(q, n1 + n2));
}

/// Item `k` of input `i` is in the log at exactly one position.
pub open spec fn logged_once(log: Seq<(int, int)>, i: int, k: int) -> bool {
    exists|j: int|
        0 <= j < log.len() && #[trigger] log[j] == (i, k) && forall|j2: int|
            0 <= j2 < log.len() && #[trigger] log[j2] == (i, k) ==> j2 == j
}

/// Once every input of a merge has ended, each item of each input was
/// passed on exactly once, and nothing else was.
pub proof fn lemma_merge_exactly_once(st: MergeState)
    requires
        st.wf(),
        all_finished(st.finished@),
    ensures
        forall|i: int, k: int|
            0 <= i < st.yielded@.len() && 0 <= k < st.yielded@[i] ==> #[trigger] logged_once(
                st.log@,
                i,
                k,
            ),
        forall|j: int|
            0 <= j < st.log@.len() ==> 0 <= (#[trigger] st.log@[j]).0 < st.yielded@.len() && 0
                <= st.log@[j].1 < st.yielded@[st.log@[j].0],
{
    let log = st.log@;
    assert forall|i: int, k: int|
        0 <= i < st.yielded@.len() && 0 <= k < st.yielded@[i] implies #[trigger] logged_once(
        log,
        i,
        k,
    ) by {
        assert(logged(log, i, k));
        let j = choose|j: int| 0 <= j < log.len() && #[trigger] log[j] == (i, k);
        assert forall|j2: int| 0 <= j2 < log.len() && #[trigger] log[j2] == (i, k) implies j2
            == j by {
            if j2 < j {
                assert(log[j2] != log[j]);
            } else if j2 > j {
                assert(log[j] != log[j2]);
            }
        }
    }
}

} // verus!
