use vstd::prelude::*;

use crate::data_type::DataType;
use crate::data_value::{arithmetic_spec, aggregate_spec, int_value, lemma_int_value, DataValue};
use crate::error::DataError;
use crate::data_array_ops::array_aggregate_spec;
use crate::data_block::DataBlock;
use crate::function::{accumulate_spec, column_rows, combine, eval_spec, merge_spec, Function};
use crate::operator::{DataValueAggregateOperator, DataValueArithmeticOperator};
use crate::function::states_of;

verus! {

/// Folds per-block partial values into an aggregate state starting from
/// null, as an aggregate's `accumulate` folds blocks and its `merge` folds
/// peers' states.
pub open spec fn fold_combine(op: DataValueAggregateOperator, xs: Seq<DataValue>) -> Result<
    DataValue,
    DataError,
>
    decreases xs.len(),
{
    if xs.len() == 0 {
        Ok(DataValue::Null)
    } else {
        match fold_combine(op, xs.drop_last()) {
            Err(e) => Err(e),
            Ok(acc) => combine(op, acc, xs.last()),
        }
    }
}

pub open spec fn null_or(t: DataType, v: DataValue) -> bool {
    v is Null || v.data_type_spec() == t
}

pub open spec fn all_null_or(t: DataType, xs: Seq<DataValue>) -> bool {
    forall|i: int| 0 <= i < xs.len() ==> null_or(t, #[trigger] xs[i])
}

/// The values of every shard, shard after shard.
pub open spec fn flatten(shards: Seq<Seq<DataValue>>) -> Seq<DataValue>
    decreases shards.len(),
{
    if shards.len() == 0 {
        Seq::empty()
    } else {
        flatten(shards.drop_last()) + shards.last()
    }
}

/// The state each shard's partial stage ends with.
pub open spec fn partial_results(op: DataValueAggregateOperator, shards: Seq<Seq<DataValue>>) -> Seq<
    DataValue,
> {
    Seq::new(shards.len(), |j: int| fold_combine(op, shards[j])->Ok_0)
}

proof fn lemma_value_in_range(v: DataValue)
    requires
        v.is_integer(),
    ensures
        v.data_type_spec().in_range(v.int_spec()),
{
}

proof fn lemma_int_eq(a: DataValue, b: DataValue)
    requires
        a.is_integer(),
        a.data_type_spec() == b.data_type_spec(),
        a.int_spec() == b.int_spec(),
    ensures
        a == b,
{
}

proof fn lemma_combine_typed(op: DataValueAggregateOperator, t: DataType, a: DataValue, b: DataValue)
    requires
        t.is_integer_spec(),
        null_or(t, a),
        null_or(t, b),
        combine(op, a, b) is Ok,
    ensures
        null_or(t, combine(op, a, b)->Ok_0),
{
    if !(a is Null) && !(b is Null) && (op is Count || op is Sum) {
        lemma_int_value(t, a.int_spec() + b.int_spec());
    }
}

proof fn lemma_combine_assoc(
    op: DataValueAggregateOperator,
    t: DataType,
    a: DataValue,
    b: DataValue,
    c: DataValue,
    ab: DataValue,
    v: DataValue,
    w: DataValue,
)
    requires
        t.is_integer_spec(),
        null_or(t, a),
        null_or(t, b),
        null_or(t, c),
        combine(op, a, b) == Ok::<DataValue, DataError>(ab),
        combine(op, ab, c) == Ok::<DataValue, DataError>(v),
        combine(op, b, c) == Ok::<DataValue, DataError>(w),
    ensures
        combine(op, a, w) == Ok::<DataValue, DataError>(v),
{
    if a is Null || b is Null || c is Null {
        return;
    }
    lemma_value_in_range(a);
    lemma_value_in_range(b);
    lemma_value_in_range(c);
    let x = a.int_spec();
    let y = b.int_spec();
    let z = c.int_spec();
    if op is Count || op is Sum {
        lemma_int_value(t, x + y);
        lemma_int_value(t, y + z);
        assert(ab == int_value(t, x + y));
        assert(w == int_value(t, y + z));
        assert(v == int_value(t, x + y + z));
        assert(x + (y + z) == x + y + z);
    } else {
        if x == y {
            lemma_int_eq(a, b);
        }
        if y == z {
            lemma_int_eq(b, c);
        }
        if x == z {
            lemma_int_eq(a, c);
        }
    }
}

proof fn lemma_fold_typed(op: DataValueAggregateOperator, t: DataType, xs: Seq<DataValue>)
    requires
        t.is_integer_spec(),
        all_null_or(t, xs),
        fold_combine(op, xs) is Ok,
    ensures
        null_or(t, fold_combine(op, xs)->Ok_0),
    decreases xs.len(),
{
    if xs.len() > 0 {
        let pre = xs.drop_last();
        assert(all_null_or(t, pre)) by {
            assert forall|i: int| 0 <= i < pre.len() implies null_or(t, #[trigger] pre[i]) by {
                assert(pre[i] == xs[i]);
            }
        }
        lemma_fold_typed(op, t, pre);
        assert(null_or(t, xs[xs.len() - 1]));
        lemma_combine_typed(op, t, fold_combine(op, pre)->Ok_0, xs.last());
    }
}

proof fn lemma_fold_prefix_ok(op: DataValueAggregateOperator, xs: Seq<DataValue>, k: int)
    requires
        0 <= k <= xs.len(),
        fold_combine(op, xs) is Ok,
    ensures
        fold_combine(op, xs.take(k)) is Ok,
    decreases xs.len() - k,
{
    if k < xs.len() {
        lemma_fold_prefix_ok(op, xs, k + 1);
        assert(xs.take(k + 1).drop_last() =~= xs.take(k));
    } else {
        assert(xs.take(k) =~= xs);
    }
}

proof fn lemma_all_null_or_concat(t: DataType, a: Seq<DataValue>, b: Seq<DataValue>)
    requires
        all_null_or(t, a + b),
    ensures
        all_null_or(t, a),
        all_null_or(t, b),
{
    assert forall|i: int| 0 <= i < a.len() implies null_or(t, #[trigger] a[i]) by {
        assert((a + b)[i] == a[i]);
    }
    assert forall|i: int| 0 <= i < b.len() implies null_or(t, #[trigger] b[i]) by {
        assert((a + b)[a.len() + i] == b[i]);
    }
}

/// Folding two runs of values one after the other gives what folding the
/// first, folding the second, and combining the two results gives.
pub proof fn lemma_fold_split(
    op: DataValueAggregateOperator,
    t: DataType,
    a: Seq<DataValue>,
    b: Seq<DataValue>,
)
    requires
        t.is_integer_spec(),
        all_null_or(t, a + b),
        fold_combine(op, a + b) is Ok,
        fold_combine(op, a) is Ok,
        fold_combine(op, b) is Ok,
    ensures
        fold_combine(op, a + b) == combine(
            op,
            fold_combine(op, a)->Ok_0,
            fold_combine(op, b)->Ok_0,
        ),
    decreases b.len(),
{
    lemma_all_null_or_concat(t, a, b);
    let fa = fold_combine(op, a)->Ok_0;
    if b.len() == 0 {
        assert(a + b =~= a);
    } else {
        let b1 = b.drop_last();
        let y = b.last();
        assert((a + b).drop_last() =~= a + b1);
        assert((a + b).last() == y);
        assert(a + b1 =~= (a + b).take((a + b1).len() as int));
        lemma_fold_prefix_ok(op, a + b, (a + b1).len() as int);
        assert(b1 =~= b.take(b1.len() as int));
        lemma_fold_prefix_ok(op, b, b1.len() as int);
        assert(all_null_or(t, a + b1)) by {
            assert forall|i: int| 0 <= i < (a + b1).len() implies null_or(t, #[trigger] (a + b1)[i]) by {
                assert((a + b1)[i] == (a + b)[i]);
            }
        }
        lemma_fold_split(op, t, a, b1);
        lemma_all_null_or_concat(t, a, b1);
        lemma_fold_typed(op, t, a);
        lemma_fold_typed(op, t, b1);
        assert(null_or(t, b[b.len() - 1]));
        let fb1 = fold_combine(op, b1)->Ok_0;
        lemma_combine_assoc(
            op,
            t,
            fa,
            fb1,
            y,
            fold_combine(op, a + b1)->Ok_0,
            fold_combine(op, a + b)->Ok_0,
            fold_combine(op, b)->Ok_0,
        );
    }
}

/// The partial value of one block for an aggregate over `arg`.
pub open spec fn block_partial(op: DataValueAggregateOperator, arg: Function, b: DataBlock) -> Result<
    DataValue,
    DataError,
> {
    match eval_spec(arg, b) {
        Ok(c) => array_aggregate_spec(op, column_rows(c, b.num_rows_spec())),
        Err(e) => Err(e),
    }
}

/// Each step an aggregate node takes is one step of `fold_combine`: folding
/// a block combines the state with the block's partial value, and merging a
/// peer combines it with the peer's state at the node's depth.
pub proof fn lemma_aggregate_step(
    agg_op: DataValueAggregateOperator,
    arg: Function,
    depth: usize,
    xs: Seq<DataValue>,
    b: DataBlock,
    states: Seq<DataValue>,
)
    requires
        fold_combine(agg_op, xs) is Ok,
    ensures
        ({
            let f = Function::Aggregate {
                agg_op,
                arg: Box::new(arg),
                depth,
                state: fold_combine(agg_op, xs)->Ok_0,
            };
            &&& (accumulate_spec(f, b).1 is Ok ==> block_partial(agg_op, arg, b) is Ok
                && fold_combine(agg_op, xs.push(block_partial(agg_op, arg, b)->Ok_0)) is Ok
                && accumulate_spec(f, b).0 == Function::Aggregate {
                agg_op,
                arg: Box::new(arg),
                depth,
                state: fold_combine(
                    agg_op,
                    xs.push(block_partial(agg_op, arg, b)->Ok_0),
                )->Ok_0,
            })
            &&& (merge_spec(f, states).1 is Ok ==> depth < states.len() && fold_combine(
                agg_op,
                xs.push(states[depth as int]),
            ) is Ok && merge_spec(f, states).0 == Function::Aggregate {
                agg_op,
                arg: Box::new(arg),
                depth,
                state: fold_combine(agg_op, xs.push(states[depth as int]))->Ok_0,
            })
        }),
{
    let s = fold_combine(agg_op, xs)->Ok_0;
    assert forall|p: DataValue| #[trigger] fold_combine(agg_op, xs.push(p)) == combine(agg_op, s, p) by {
        assert(xs.push(p).drop_last() =~= xs);
    }
}

/// Partial and final aggregation agree with one aggregation over all the
/// data: when the values are split into shards, each shard folded by its
/// own partial stage and the partial states folded by the final stage, the
/// result is the fold of every value in order, for count, sum, min and max
/// over one integer type. It holds wherever no stage overflows: the whole
/// fold and each shard's fold succeed.
pub proof fn lemma_two_phase_aggregation(
    op: DataValueAggregateOperator,
    t: DataType,
    shards: Seq<Seq<DataValue>>,
)
    requires
        t.is_integer_spec(),
        all_null_or(t, flatten(shards)),
        fold_combine(op, flatten(shards)) is Ok,
        forall|j: int| 0 <= j < shards.len() ==> (#[trigger] fold_combine(op, shards[j])) is Ok,
    ensures
        fold_combine(op, partial_results(op, shards)) == fold_combine(op, flatten(shards)),
    decreases shards.len(),
{
    if shards.len() > 0 {
        let pre = shards.drop_last();
        let last = shards.last();
        let ps = partial_results(op, shards);
        assert(flatten(shards) == flatten(pre) + last);
        lemma_all_null_or_concat(t, flatten(pre), last);
        assert(flatten(pre) =~= flatten(shards).take(flatten(pre).len() as int));
        lemma_fold_prefix_ok(op, flatten(shards), flatten(pre).len() as int);
        assert forall|j: int| 0 <= j < pre.len() implies (#[trigger] fold_combine(op, pre[j])) is Ok by {
            assert(pre[j] == shards[j]);
        }
        lemma_two_phase_aggregation(op, t, pre);
        assert(ps.drop_last() =~= partial_results(op, pre));
        assert(fold_combine(op, shards[shards.len() - 1]) is Ok);
        lemma_fold_split(op, t, flatten(pre), last);
    }
}

} // verus!

verus! {

/// An aggregate node after folding in each block of `bs` in order; the first
/// failure stops there.
pub open spec fn accumulate_blocks(f: Function, bs: Seq<DataBlock>) -> (Function, Result<(), DataError>)
    decreases bs.len(),
{
    if bs.len() == 0 {
        (f, Ok(()))
    } else {
        let (g, r) = accumulate_blocks(f, bs.drop_last());
        if r is Err {
            (g, r)
        } else {
            accumulate_spec(g, bs.last())
        }
    }
}

/// An aggregate node after merging each peer's state vector in order; the
/// first failure stops there.
pub open spec fn merge_peers(f: Function, peers: Seq<Seq<DataValue>>) -> (Function, Result<(), DataError>)
    decreases peers.len(),
{
    if peers.len() == 0 {
        (f, Ok(()))
    } else {
        let (g, r) = merge_peers(f, peers.drop_last());
        if r is Err {
            (g, r)
        } else {
            merge_spec(g, peers.last())
        }
    }
}

/// The blocks of every shard, shard after shard.
pub open spec fn flatten_blocks(shards: Seq<Seq<DataBlock>>) -> Seq<DataBlock>
    decreases shards.len(),
{
    if shards.len() == 0 {
        Seq::empty()
    } else {
        flatten_blocks(shards.drop_last()) + shards.last()
    }
}

/// The partial value of each block.
pub open spec fn block_partials(
    op: DataValueAggregateOperator,
    arg: Function,
    bs: Seq<DataBlock>,
) -> Seq<DataValue> {
    Seq::new(bs.len(), |i: int| block_partial(op, arg, bs[i])->Ok_0)
}

pub open spec fn fresh_aggregate(op: DataValueAggregateOperator, arg: Function) -> Function {
    Function::Aggregate { agg_op: op, arg: Box::new(arg), depth: 0, state: DataValue::Null }
}

pub open spec fn state_of(f: Function) -> DataValue {
    match f {
        Function::Aggregate { state, .. } => state,
        _ => DataValue::Null,
    }
}

proof fn lemma_accumulate_blocks(op: DataValueAggregateOperator, arg: Function, bs: Seq<DataBlock>)
    requires
        accumulate_blocks(fresh_aggregate(op, arg), bs).1 is Ok,
    ensures
        fold_combine(op, block_partials(op, arg, bs)) is Ok,
        accumulate_blocks(fresh_aggregate(op, arg), bs).0 == (Function::Aggregate {
            agg_op: op,
            arg: Box::new(arg),
            depth: 0,
            state: fold_combine(op, block_partials(op, arg, bs))->Ok_0,
        }),
    decreases bs.len(),
{
    if bs.len() > 0 {
        let pre = bs.drop_last();
        lemma_accumulate_blocks(op, arg, pre);
        let xs = block_partials(op, arg, pre);
        assert(block_partials(op, arg, bs) =~= xs.push(block_partial(op, arg, bs.last())->Ok_0));
        lemma_aggregate_step(op, arg, 0, xs, bs.last(), Seq::empty());
    } else {
        assert(block_partials(op, arg, bs) =~= Seq::<DataValue>::empty());
    }
}

proof fn lemma_merge_peers(op: DataValueAggregateOperator, arg: Function, peers: Seq<Seq<DataValue>>)
    requires
        merge_peers(fresh_aggregate(op, arg), peers).1 is Ok,
    ensures
        fold_combine(op, Seq::new(peers.len(), |j: int| peers[j][0])) is Ok,
        merge_peers(fresh_aggregate(op, arg), peers).0 == (Function::Aggregate {
            agg_op: op,
            arg: Box::new(arg),
            depth: 0,
            state: fold_combine(op, Seq::new(peers.len(), |j: int| peers[j][0]))->Ok_0,
        }),
    decreases peers.len(),
{
    let firsts = Seq::new(peers.len(), |j: int| peers[j][0]);
    if peers.len() > 0 {
        let pre = peers.drop_last();
        lemma_merge_peers(op, arg, pre);
        let xs = Seq::new(pre.len(), |j: int| pre[j][0]);
        assert(firsts =~= xs.push(peers.last()[0]));
        lemma_aggregate_step(op, arg, 0, xs, arbitrary(), peers.last());
    } else {
        assert(firsts =~= Seq::<DataValue>::empty());
    }
}

proof fn lemma_flatten_partials(op: DataValueAggregateOperator, arg: Function, shards: Seq<Seq<DataBlock>>)
    ensures
        block_partials(op, arg, flatten_blocks(shards)) == flatten(
            Seq::new(shards.len(), |j: int| block_partials(op, arg, shards[j])),
        ),
    decreases shards.len(),
{
    let ps = Seq::new(shards.len(), |j: int| block_partials(op, arg, shards[j]));
    if shards.len() > 0 {
        let pre = shards.drop_last();
        lemma_flatten_partials(op, arg, pre);
        assert(ps.drop_last() =~= Seq::new(pre.len(), |j: int| block_partials(op, arg, pre[j])));
        assert(block_partials(op, arg, flatten_blocks(shards)) =~= block_partials(
            op,
            arg,
            flatten_blocks(pre),
        ) + block_partials(op, arg, shards.last()));
    } else {
        assert(block_partials(op, arg, flatten_blocks(shards)) =~= Seq::<DataValue>::empty());
    }
}

/// Partial and final aggregation through the aggregate node itself: each
/// shard's blocks folded into a fresh node by `accumulate`, the shards'
/// state vectors merged into another fresh node by `merge`, give the state
/// that one fresh node reaches by folding in every block of every shard.
/// It holds for count, sum, min and max whose block values are of one
/// integer type, wherever no stage fails.
pub proof fn lemma_two_phase_transforms(
    op: DataValueAggregateOperator,
    arg: Function,
    t: DataType,
    shards: Seq<Seq<DataBlock>>,
)
    requires
        t.is_integer_spec(),
        all_null_or(t, block_partials(op, arg, flatten_blocks(shards))),
        accumulate_blocks(fresh_aggregate(op, arg), flatten_blocks(shards)).1 is Ok,
        forall|j: int|
            0 <= j < shards.len() ==> (#[trigger] accumulate_blocks(
                fresh_aggregate(op, arg),
                shards[j],
            )).1 is Ok,
        merge_peers(
            fresh_aggregate(op, arg),
            Seq::new(
                shards.len(),
                |j: int| states_of(accumulate_blocks(fresh_aggregate(op, arg), shards[j]).0),
            ),
        ).1 is Ok,
    ensures
        state_of(
            merge_peers(
                fresh_aggregate(op, arg),
                Seq::new(
                    shards.len(),
                    |j: int| states_of(accumulate_blocks(fresh_aggregate(op, arg), shards[j]).0),
                ),
            ).0,
        ) == state_of(accumulate_blocks(fresh_aggregate(op, arg), flatten_blocks(shards)).0),
{
    let f0 = fresh_aggregate(op, arg);
    let peers = Seq::new(shards.len(), |j: int| states_of(accumulate_blocks(f0, shards[j]).0));
    let vals = Seq::new(shards.len(), |j: int| block_partials(op, arg, shards[j]));
    lemma_accumulate_blocks(op, arg, flatten_blocks(shards));
    lemma_merge_peers(op, arg, peers);
    lemma_flatten_partials(op, arg, shards);
    assert forall|j: int| 0 <= j < vals.len() implies (#[trigger] fold_combine(op, vals[j])) is Ok by {
        assert(accumulate_blocks(f0, shards[j]).1 is Ok);
        lemma_accumulate_blocks(op, arg, shards[j]);
    }
    assert(Seq::new(peers.len(), |j: int| peers[j][0]) =~= partial_results(op, vals)) by {
        assert forall|j: int| 0 <= j < peers.len() implies #[trigger] peers[j][0] == partial_results(
            op,
            vals,
        )[j] by {
            assert(accumulate_blocks(f0, shards[j]).1 is Ok);
            lemma_accumulate_blocks(op, arg, shards[j]);
        }
    }
    lemma_two_phase_aggregation(op, t, vals);
}

} // verus!
