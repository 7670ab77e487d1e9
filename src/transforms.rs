use vstd::prelude::*;

use crate::data_array::{ColumnView, DataArray, typed_values};
use crate::data_block::{block_wf, DataBlock, DataField, DataSchema};
use crate::data_type::DataType;
use crate::data_value::DataValue;
use crate::error::DataError;
use crate::function::{
    accumulate_spec, column_rows, eval_spec, fresh, merge_result_spec, merge_spec,
    num_states, states_of, with_depth, Function,
};
use crate::data_block::unique_names;
use crate::strings::{digits, format_decimal, lemma_digits_injective};

verus! {

/// The number of state slots a list of expressions fills.
pub open spec fn total_states(fs: Seq<Function>) -> nat
    decreases fs.len(),
{
    if fs.len() == 0 {
        0
    } else {
        total_states(fs.drop_last()) + num_states(fs.last())
    }
}

/// Fresh copies of the expressions, their aggregates numbered left to right
/// across the whole list.
pub open spec fn numbered(fs: Seq<Function>) -> Seq<Function>
    decreases fs.len(),
{
    if fs.len() == 0 {
        Seq::empty()
    } else {
        numbered(fs.drop_last()).push(with_depth(fresh(fs.last()), total_states(fs.drop_last())))
    }
}

/// The states of a list of expressions, flattened in order.
pub open spec fn all_states(fs: Seq<Function>) -> Seq<DataValue>
    decreases fs.len(),
{
    if fs.len() == 0 {
        Seq::empty()
    } else {
        all_states(fs.drop_last()) + states_of(fs.last())
    }
}

/// Folds a block into each expression in turn, stopping at the first failure.
pub open spec fn accumulate_all(fs: Seq<Function>, b: DataBlock) -> (Seq<Function>, Result<(), DataError>)
    decreases fs.len(),
{
    if fs.len() == 0 {
        (fs, Ok(()))
    } else {
        let (pre, r) = accumulate_all(fs.drop_last(), b);
        if r is Err {
            (pre.push(fs.last()), r)
        } else {
            let (g, r2) = accumulate_spec(fs.last(), b);
            (pre.push(g), r2)
        }
    }
}

/// Merges one state vector into each expression in turn, stopping at the
/// first failure.
pub open spec fn merge_all(fs: Seq<Function>, states: Seq<DataValue>) -> (Seq<Function>, Result<(), DataError>)
    decreases fs.len(),
{
    if fs.len() == 0 {
        (fs, Ok(()))
    } else {
        let (pre, r) = merge_all(fs.drop_last(), states);
        if r is Err {
            (pre.push(fs.last()), r)
        } else {
            let (g, r2) = merge_spec(fs.last(), states);
            (pre.push(g), r2)
        }
    }
}

/// Row `r` of a block, one value per column.
pub open spec fn row_of(b: DataBlock, r: int) -> Seq<DataValue> {
    Seq::new(b.columns@.len(), |j: int| b.columns@[j].values@[r])
}

/// Merges the rows of a block, first to last, each as one peer's state vector.
pub open spec fn merge_rows(fs: Seq<Function>, b: DataBlock, n: nat) -> (Seq<Function>, Result<(), DataError>)
    decreases n,
{
    if n == 0 {
        (fs, Ok(()))
    } else {
        let (pre, r) = merge_rows(fs, b, (n - 1) as nat);
        if r is Err {
            (pre, r)
        } else {
            merge_all(pre, row_of(b, n - 1))
        }
    }
}

/// Fresh, consecutively numbered copies of the expressions; `None` when the
/// slots do not fit in `usize`.
pub fn number_expressions(exprs: &Vec<Function>) -> (r: Option<Vec<Function>>)
    ensures
        match r {
            Some(v) => v@ == numbered(exprs@) && total_states(exprs@) <= usize::MAX,
            None => total_states(exprs@) > usize::MAX,
        },
{
    let ghost s = exprs@;
    let mut out: Vec<Function> = Vec::new();
    let mut offset: usize = 0;
    let mut i: usize = 0;
    assert(s.take(0) =~= Seq::<Function>::empty());
    while i < exprs.len()
        invariant
            i <= s.len(),
            s == exprs@,
            out@ == numbered(s.take(i as int)),
            offset == total_states(s.take(i as int)),
        decreases s.len() - i,
    {
        assert(s.take(i + 1).drop_last() =~= s.take(i as int));
        let mut f = exprs[i].instantiate();
        proof {
            lemma_fresh_states(s[i as int]);
        }
        let n = match f.state_count_checked() {
            Some(n) => n,
            None => {
                proof {
                    lemma_total_states_monotone(s, i + 1);
                }
                return None;
            },
        };
        let next = match offset.checked_add(n) {
            Some(x) => x,
            None => {
                proof {
                    lemma_total_states_monotone(s, i + 1);
                }
                return None;
            },
        };
        f.set_depth(offset);
        out.push(f);
        offset = next;
        i = i + 1;
    }
    assert(s.take(s.len() as int) =~= s);
    Some(out)
}

proof fn lemma_numbered_len(fs: Seq<Function>)
    ensures
        numbered(fs).len() == fs.len(),
    decreases fs.len(),
{
    if fs.len() > 0 {
        lemma_numbered_len(fs.drop_last());
    }
}

pub proof fn lemma_fresh_states(f: Function)
    ensures
        num_states(fresh(f)) == num_states(f),
        states_of(fresh(f)).len() == states_of(f).len(),
    decreases f,
{
    match f {
        Function::Alias { arg, .. } => lemma_fresh_states(*arg),
        Function::ToTypeName { arg, .. } => lemma_fresh_states(*arg),
        Function::Average { arg, .. } => lemma_fresh_states(*arg),
        Function::Arithmetic { left, right, .. } => {
            lemma_fresh_states(*left);
            lemma_fresh_states(*right);
        },
        Function::Comparison { left, right, .. } => {
            lemma_fresh_states(*left);
            lemma_fresh_states(*right);
        },
        Function::Logic { left, right, .. } => {
            lemma_fresh_states(*left);
            lemma_fresh_states(*right);
        },
        _ => {},
    }
}

proof fn lemma_total_states_monotone(s: Seq<Function>, k: int)
    requires
        0 <= k <= s.len(),
    ensures
        total_states(s.take(k)) <= total_states(s),
    decreases s.len() - k,
{
    if k < s.len() {
        assert(s.take(k + 1).drop_last() =~= s.take(k));
        lemma_total_states_monotone(s, k + 1);
    } else {
        assert(s.take(k) =~= s);
    }
}

/// The field name of state slot `k`.
fn state_field_name(k: usize) -> (r: String)
    ensures
        r@ == "state_"@ + digits(k as nat),
{
    let d = format_decimal(k as i128);
    String::from_str("state_").concat(d.as_str())
}

/// A one-row array holding `v`, typed as `v` is.
fn single(v: DataValue) -> (r: DataArray)
    ensures
        r.data_type == v.data_type_spec(),
        r.values@ == seq![v],
        r.wf(),
{
    let t = v.data_type();
    let mut values: Vec<DataValue> = Vec::new();
    values.push(v);
    assert(values@ =~= seq![v]);
    DataArray { data_type: t, values }
}

/// A one-row block with one column per value, each typed as its value is.
pub fn state_block(states: Vec<DataValue>) -> (r: DataBlock)
    ensures
        r.wf(),
        r.num_rows_spec() == (if states@.len() == 0 { 0nat } else { 1nat }),
        r.columns@.len() == states@.len(),
        forall|j: int| 0 <= j < states@.len() ==> (#[trigger] r.columns@[j]).values@ == seq![states@[j]],
{
    let mut fields: Vec<DataField> = Vec::new();
    let mut columns: Vec<DataArray> = Vec::new();
    let mut k: usize = 0;
    while k < states.len()
        invariant
            k <= states@.len(),
            fields@.len() == k,
            columns@.len() == k,
            forall|j: int|
                0 <= j < k ==> (#[trigger] columns@[j]).values@ == seq![states@[j]] && columns@[j].wf()
                    && columns@[j].data_type == fields@[j].data_type,
            forall|j: int| 0 <= j < k ==> (#[trigger] fields@[j]).name@ == "state_"@ + digits(j as nat),
            unique_names(fields@),
        decreases states@.len() - k,
    {
        let v = states[k].clone();
        let t = v.data_type();
        let ghost before = fields@;
        fields.push(DataField { name: state_field_name(k), data_type: t, nullable: true });
        proof {
            let fs = fields@;
            assert forall|a: int, b: int| 0 <= a < b < fs.len() implies (#[trigger] fs[a]).name@
                != (#[trigger] fs[b]).name@ by {
                assert(fs[a] == before[a]);
                if b < k {
                    assert(fs[b] == before[b]);
                } else {
                    if fs[a].name@ == fs[b].name@ {
                        let p = "state_"@;
                        assert((p + digits(a as nat)).subrange(p.len() as int, (p + digits(a as nat)).len() as int) =~= digits(a as nat));
                        assert((p + digits(b as nat)).subrange(p.len() as int, (p + digits(b as nat)).len() as int) =~= digits(b as nat));
                        lemma_digits_injective(a as nat, b as nat);
                    }
                }
            }
        }
        columns.push(single(v));
        k = k + 1;
    }
    let schema = DataSchema { fields };
    assert(block_wf(schema, columns@));
    DataBlock { schema, columns }
}

/// An evaluation that succeeded with these rows.
pub open spec fn evaluates_to(r: Result<ColumnView, DataError>, vals: Seq<DataValue>, n: nat) -> bool {
    match r {
        Ok(c) => vals == column_rows(c, n),
        Err(_) => false,
    }
}

/// Expression `i` evaluates over `b` to a column of field `i`'s type with
/// the block's row count.
pub open spec fn projects_at(fs: Seq<Function>, schema: DataSchema, b: DataBlock, i: int) -> bool {
    match eval_spec(fs[i], b) {
        Ok(c) => c.data_type_spec() == schema.fields@[i].data_type && column_rows(
            c,
            b.num_rows_spec(),
        ).len() == b.num_rows_spec(),
        Err(_) => false,
    }
}

/// Evaluates one expression per field of a schema over each block.
#[derive(Debug)]
pub struct ExpressionTransform {
    pub schema: DataSchema,
    pub exprs: Vec<Function>,
}

/// The block that evaluating `fs` over `b` gives, as columns of `schema`:
/// each expression must evaluate, reach the block's row count and have its
/// field's type.
pub open spec fn projection_ok(fs: Seq<Function>, schema: DataSchema, b: DataBlock, out: DataBlock) -> bool {
    &&& out.schema.fields@ == schema.fields@
    &&& out.columns@.len() == fs.len()
    &&& forall|i: int|
        0 <= i < fs.len() ==> evaluates_to(#[trigger] eval_spec(fs[i], b), out.columns@[i].values@,
            b.num_rows_spec())
}

impl ExpressionTransform {
    /// A transform with fresh copies of the expressions; one per field.
    pub fn try_create(schema: DataSchema, exprs: &Vec<Function>) -> (r: Result<ExpressionTransform, DataError>)
        ensures
            match r {
                Ok(t) => t.schema == schema && schema.wf() && t.exprs@.len() == exprs@.len()
                    && forall|i: int|
                    0 <= i < exprs@.len() ==> t.exprs@[i] == fresh(#[trigger] exprs@[i]),
                Err(e) => if !schema.wf() {
                    e == DataError::DuplicateField
                } else {
                    schema.fields@.len() != exprs@.len() && e == DataError::LengthMismatch {
                        left_len: schema.fields@.len() as usize,
                        right_len: exprs@.len() as usize,
                    }
                },
            },
    {
        if !schema.has_unique_names() {
            return Err(DataError::DuplicateField);
        }
        if schema.fields.len() != exprs.len() {
            return Err(
                DataError::LengthMismatch { left_len: schema.fields.len(), right_len: exprs.len() },
            );
        }
        let mut copies: Vec<Function> = Vec::new();
        let mut i: usize = 0;
        while i < exprs.len()
            invariant
                i <= exprs@.len(),
                copies@.len() == i,
                forall|j: int| 0 <= j < i ==> copies@[j] == fresh(#[trigger] exprs@[j]),
            decreases exprs@.len() - i,
        {
            copies.push(exprs[i].instantiate());
            i = i + 1;
        }
        Ok(ExpressionTransform { schema, exprs: copies })
    }

    /// Maps one block to the block of the expressions' values.
    pub fn transform(&self, block: &DataBlock) -> (r: Result<DataBlock, DataError>)
        requires
            block.wf(),
            self.schema.wf(),
            self.schema.fields@.len() == self.exprs@.len(),
        ensures
            r matches Ok(out) ==> out.wf() && projection_ok(self.exprs@, self.schema, *block, out),
            (r is Ok <==> forall|i: int|
                0 <= i < self.exprs@.len() ==> #[trigger] projects_at(
                    self.exprs@,
                    self.schema,
                    *block,
                    i,
                )),
    {
        let rows = block.num_rows();
        let mut columns: Vec<DataArray> = Vec::new();
        let mut i: usize = 0;
        while i < self.exprs.len()
            invariant
                i <= self.exprs@.len(),
                self.schema.fields@.len() == self.exprs@.len(),
                block.wf(),
                rows == block.num_rows_spec(),
                columns@.len() == i,
                forall|j: int|
                    0 <= j < i ==> (#[trigger] columns@[j]).wf() && columns@[j].data_type
                        == self.schema.fields@[j].data_type && columns@[j].values@.len() == rows,
                forall|j: int|
                    0 <= j < i ==> evaluates_to(
                        #[trigger] eval_spec(self.exprs@[j], *block),
                        columns@[j].values@,
                        rows as nat,
                    ),
                forall|j: int|
                    0 <= j < i ==> #[trigger] projects_at(self.exprs@, self.schema, *block, j),
            decreases self.exprs@.len() - i,
        {
            let c = match self.exprs[i].eval(block) {
                Ok(c) => c,
                Err(e) => {
                    assert(!projects_at(self.exprs@, self.schema, *block, i as int));
                    return Err(e);
                },
            };
            let a = match c.to_array(rows) {
                Ok(a) => a,
                Err(e) => {
                    return Err(e);
                },
            };
            if a.data_type != self.schema.fields[i].data_type {
                assert(!projects_at(self.exprs@, self.schema, *block, i as int));
                return Err(DataError::SchemaMismatch { index: i });
            }
            if a.len() != rows {
                assert(!projects_at(self.exprs@, self.schema, *block, i as int));
                return Err(DataError::LengthMismatch { left_len: a.len(), right_len: rows });
            }
            columns.push(a);
            i = i + 1;
        }
        let schema = self.schema.clone();
        proof {
            if columns@.len() > 0 {
                assert(columns@[0].values@.len() == rows);
            }
        }
        assert(block_wf(schema, columns@));
        Ok(DataBlock { schema, columns })
    }
}

} // verus!

verus! {

/// Folds each block of one shard into its aggregate expressions and emits
/// their flattened states as one block when the shard is done.
#[derive(Debug)]
pub struct AggregatorPartialTransform {
    pub schema: DataSchema,
    pub exprs: Vec<Function>,
}

fn accumulate_each(exprs: &mut Vec<Function>, block: &DataBlock) -> (r: Result<(), DataError>)
    requires
        block.wf(),
    ensures
        (final(exprs)@, r) == accumulate_all(old(exprs)@, *block),
{
    let ghost s = exprs@;
    let mut i: usize = 0;
    assert(s.take(0) =~= Seq::<Function>::empty());
    while i < exprs.len()
        invariant
            i <= s.len(),
            s == old(exprs)@,
            exprs@.len() == s.len(),
            block.wf(),
            accumulate_all(s.take(i as int), *block) == (
                exprs@.take(i as int),
                Ok::<(), DataError>(()),
            ),
            forall|j: int| i <= j < s.len() ==> exprs@[j] == s[j],
        decreases s.len() - i,
    {
        assert(s.take(i + 1).drop_last() =~= s.take(i as int));
        assert(s.take(i + 1).last() == s[i as int]);
        let ghost prev = exprs@;
        let mut f = Function::Example;
        std::mem::swap(&mut f, &mut exprs[i]);
        let ghost f_old = f;
        assert(f_old == s[i as int]);
        let r = f.accumulate(block);
        exprs.set(i, f);
        assert(exprs@.take(i + 1) =~= prev.take(i as int).push(f));
        assert(exprs@ =~= prev.update(i as int, f));
        assert((f, r) == accumulate_spec(s[i as int], *block));
        assert(accumulate_all(s.take(i + 1), *block) == (prev.take(i as int).push(f), r));
        if r.is_err() {
            proof {
                lemma_accumulate_all_err(s, *block, i + 1);
                assert(exprs@ =~= prev.take(i as int).push(f) + s.subrange(i + 1, s.len() as int));
            }
            return r;
        }
        proof {
            lemma_unit_ok(r);
        }
        i = i + 1;
    }
    assert(s.take(s.len() as int) =~= s);
    assert(exprs@.take(s.len() as int) =~= exprs@);
    Ok(())
}

proof fn lemma_unit_ok(r: Result<(), DataError>)
    requires
        r is Ok,
    ensures
        r == Ok::<(), DataError>(()),
{
    let u: () = r->Ok_0;
    assert(u == ());
}

proof fn lemma_accumulate_all_err(s: Seq<Function>, b: DataBlock, k: int)
    requires
        0 <= k <= s.len(),
        accumulate_all(s.take(k), b).1 is Err,
    ensures
        accumulate_all(s, b).1 == accumulate_all(s.take(k), b).1,
        accumulate_all(s, b).0 == accumulate_all(s.take(k), b).0 + s.subrange(k, s.len() as int),
    decreases s.len() - k,
{
    if k < s.len() {
        assert(s.take(k + 1).drop_last() =~= s.take(k));
        lemma_accumulate_all_err(s, b, k + 1);
        assert(accumulate_all(s.take(k + 1), b).0 =~= accumulate_all(s.take(k), b).0.push(s[k]));
        assert(accumulate_all(s.take(k), b).0 + s.subrange(k, s.len() as int)
            =~= accumulate_all(s.take(k + 1), b).0 + s.subrange(k + 1, s.len() as int));
    } else {
        assert(s.take(k) =~= s);
        assert(accumulate_all(s.take(k), b).0 + s.subrange(k, s.len() as int)
            =~= accumulate_all(s.take(k), b).0);
    }
}

fn merge_each(exprs: &mut Vec<Function>, states: &[DataValue]) -> (r: Result<(), DataError>)
    ensures
        (final(exprs)@, r) == merge_all(old(exprs)@, states@),
{
    let ghost s = exprs@;
    let mut i: usize = 0;
    assert(s.take(0) =~= Seq::<Function>::empty());
    while i < exprs.len()
        invariant
            i <= s.len(),
            s == old(exprs)@,
            exprs@.len() == s.len(),
            merge_all(s.take(i as int), states@) == (
                exprs@.take(i as int),
                Ok::<(), DataError>(()),
            ),
            forall|j: int| i <= j < s.len() ==> exprs@[j] == s[j],
        decreases s.len() - i,
    {
        assert(s.take(i + 1).drop_last() =~= s.take(i as int));
        assert(s.take(i + 1).last() == s[i as int]);
        let ghost prev = exprs@;
        let mut f = Function::Example;
        std::mem::swap(&mut f, &mut exprs[i]);
        let ghost f_old = f;
        assert(f_old == s[i as int]);
        let r = f.merge(states);
        exprs.set(i, f);
        assert(exprs@.take(i + 1) =~= prev.take(i as int).push(f));
        assert(exprs@ =~= prev.update(i as int, f));
        assert(merge_all(s.take(i + 1), states@) == (prev.take(i as int).push(f), r));
        if r.is_err() {
            proof {
                lemma_merge_all_err(s, states@, i + 1);
                assert(exprs@ =~= prev.take(i as int).push(f) + s.subrange(i + 1, s.len() as int));
            }
            return r;
        }
        proof {
            lemma_unit_ok(r);
        }
        i = i + 1;
    }
    assert(s.take(s.len() as int) =~= s);
    assert(exprs@.take(s.len() as int) =~= exprs@);
    Ok(())
}

proof fn lemma_merge_all_err(s: Seq<Function>, states: Seq<DataValue>, k: int)
    requires
        0 <= k <= s.len(),
        merge_all(s.take(k), states).1 is Err,
    ensures
        merge_all(s, states).1 == merge_all(s.take(k), states).1,
        merge_all(s, states).0 == merge_all(s.take(k), states).0 + s.subrange(k, s.len() as int),
    decreases s.len() - k,
{
    if k < s.len() {
        assert(s.take(k + 1).drop_last() =~= s.take(k));
        lemma_merge_all_err(s, states, k + 1);
        assert(merge_all(s.take(k + 1), states).0 =~= merge_all(s.take(k), states).0.push(s[k]));
        assert(merge_all(s.take(k), states).0 + s.subrange(k, s.len() as int)
            =~= merge_all(s.take(k + 1), states).0 + s.subrange(k + 1, s.len() as int));
    } else {
        assert(s.take(k) =~= s);
        assert(merge_all(s.take(k), states).0 + s.subrange(k, s.len() as int)
            =~= merge_all(s.take(k), states).0);
    }
}

proof fn lemma_merge_rows_err(s: Seq<Function>, b: DataBlock, k: nat, n: nat)
    requires
        k <= n,
        merge_rows(s, b, k).1 is Err,
    ensures
        merge_rows(s, b, n) == merge_rows(s, b, k),
    decreases n - k,
{
    if k < n {
        lemma_merge_rows_err(s, b, k, (n - 1) as nat);
    }
}

fn collect_states(exprs: &Vec<Function>) -> (r: Vec<DataValue>)
    ensures
        r@ == all_states(exprs@),
{
    let ghost s = exprs@;
    let mut out: Vec<DataValue> = Vec::new();
    let mut i: usize = 0;
    assert(s.take(0) =~= Seq::<Function>::empty());
    while i < exprs.len()
        invariant
            i <= s.len(),
            s == exprs@,
            out@ == all_states(s.take(i as int)),
        decreases s.len() - i,
    {
        assert(s.take(i + 1).drop_last() =~= s.take(i as int));
        let mut v = match exprs[i].accumulate_result() {
            Ok(v) => v,
            Err(_) => Vec::new(),
        };
        out.append(&mut v);
        i = i + 1;
    }
    assert(s.take(s.len() as int) =~= s);
    out
}

impl AggregatorPartialTransform {
    /// A partial stage over fresh, consecutively numbered copies of the
    /// aggregate expressions.
    pub fn try_create(schema: DataSchema, exprs: &Vec<Function>) -> (r: Result<
        AggregatorPartialTransform,
        DataError,
    >)
        ensures
            match r {
                Ok(t) => t.schema == schema && t.exprs@ == numbered(exprs@),
                Err(e) => total_states(exprs@) > usize::MAX && e == DataError::NotAggregate,
            },
    {
        match number_expressions(exprs) {
            Some(v) => Ok(AggregatorPartialTransform { schema, exprs: v }),
            None => Err(DataError::NotAggregate),
        }
    }

    /// Folds one block into every aggregate expression.
    pub fn accumulate(&mut self, block: &DataBlock) -> (r: Result<(), DataError>)
        requires
            block.wf(),
        ensures
            final(self).schema == old(self).schema,
            (final(self).exprs@, r) == accumulate_all(
                old(self).exprs@,
                *block,
            ),
    {
        accumulate_each(&mut self.exprs, block)
    }

    /// The one-row block of the flattened states, emitted once the shard's
    /// blocks are all folded in.
    pub fn finish(&self) -> (r: Result<DataBlock, DataError>)
        ensures
            r is Ok,
            r->Ok_0.wf(),
            r->Ok_0.columns@.len() == all_states(self.exprs@).len(),
            all_states(self.exprs@).len() > 0 ==> row_of(r->Ok_0, 0) == all_states(self.exprs@),
    {
        let states = collect_states(&self.exprs);
        let b = state_block(states);
        proof {
            if all_states(self.exprs@).len() > 0 {
                assert(row_of(b, 0) =~= all_states(self.exprs@));
            }
        }
        Ok(b)
    }
}

/// A final value that succeeded and is the one row of `vals`.
pub open spec fn results_in(r: Result<DataValue, DataError>, vals: Seq<DataValue>) -> bool {
    match r {
        Ok(v) => vals == seq![v],
        Err(_) => false,
    }
}

/// Expression `i` has a final value that fits field `i`: null, or of the
/// field's type.
pub open spec fn finishes_at(fs: Seq<Function>, schema: DataSchema, i: int) -> bool {
    match merge_result_spec(fs[i]) {
        Ok(v) => v is Null || v.data_type_spec() == schema.fields@[i].data_type,
        Err(_) => false,
    }
}

/// Merges the partial-state blocks of every shard and emits one block of
/// the final values.
#[derive(Debug)]
pub struct AggregatorFinalTransform {
    pub schema: DataSchema,
    pub exprs: Vec<Function>,
}

impl AggregatorFinalTransform {
    /// A final stage over fresh copies of the aggregate expressions, numbered
    /// as the partial stage numbers them.
    pub fn try_create(schema: DataSchema, exprs: &Vec<Function>) -> (r: Result<
        AggregatorFinalTransform,
        DataError,
    >)
        ensures
            match r {
                Ok(t) => t.schema == schema && t.exprs@ == numbered(exprs@) && schema.wf()
                    && schema.fields@.len() == exprs@.len() && t.exprs@.len() == exprs@.len(),
                Err(e) => if !schema.wf() {
                    e == DataError::DuplicateField
                } else if schema.fields@.len() != exprs@.len() {
                    e == DataError::LengthMismatch {
                        left_len: schema.fields@.len() as usize,
                        right_len: exprs@.len() as usize,
                    }
                } else {
                    total_states(exprs@) > usize::MAX && e == DataError::NotAggregate
                },
            },
    {
        if !schema.has_unique_names() {
            return Err(DataError::DuplicateField);
        }
        if schema.fields.len() != exprs.len() {
            return Err(
                DataError::LengthMismatch { left_len: schema.fields.len(), right_len: exprs.len() },
            );
        }
        match number_expressions(exprs) {
            Some(v) => {
                proof {
                    lemma_numbered_len(exprs@);
                }
                Ok(AggregatorFinalTransform { schema, exprs: v })
            },
            None => Err(DataError::NotAggregate),
        }
    }

    /// Merges every row of a partial-state block, each row being one peer's
    /// state vector.
    pub fn merge_block(&mut self, block: &DataBlock) -> (r: Result<(), DataError>)
        requires
            block.wf(),
        ensures
            final(self).schema == old(self).schema,
            (final(self).exprs@, r) == merge_rows(old(self).exprs@, *block, block.num_rows_spec()),
    {
        let rows = block.num_rows();
        let ghost s = self.exprs@;
        let mut k: usize = 0;
        while k < rows
            invariant
                k <= rows,
                rows == block.num_rows_spec(),
                block.wf(),
                self.schema == old(self).schema,
                s == old(self).exprs@,
                merge_rows(s, *block, k as nat) == (self.exprs@, Ok::<(), DataError>(())),
            decreases rows - k,
        {
            let mut row: Vec<DataValue> = Vec::new();
            let mut j: usize = 0;
            while j < block.columns.len()
                invariant
                    j <= block.columns@.len(),
                    k < rows,
                    rows == block.num_rows_spec(),
                    block.wf(),
                    row@ == row_of(*block, k as int).take(j as int),
                decreases block.columns@.len() - j,
            {
                assert(block.columns@[j as int].values@.len() == block.columns@[0].values@.len());
                row.push(block.columns[j].values[k].clone());
                j = j + 1;
                assert(row@ =~= row_of(*block, k as int).take(j as int));
            }
            assert(row@ =~= row_of(*block, k as int));
            let ghost prev = self.exprs@;
            let r = merge_each(&mut self.exprs, row.as_slice());
            assert(merge_rows(s, *block, (k + 1) as nat) == merge_all(prev, row_of(*block, k as int)));
            if r.is_err() {
                proof {
                    lemma_merge_rows_err(s, *block, (k + 1) as nat, rows as nat);
                }
                return r;
            }
            proof {
            lemma_unit_ok(r);
        }
            k = k + 1;
        }
        Ok(())
    }

    /// The one-row block of the final values, in the transform's schema.
    pub fn finish(&self) -> (r: Result<DataBlock, DataError>)
        requires
            self.schema.wf(),
            self.schema.fields@.len() == self.exprs@.len(),
        ensures
            r matches Ok(b) ==> b.wf() && b.schema.fields@ == self.schema.fields@ && forall|i: int|
                0 <= i < self.exprs@.len() ==> results_in(
                    #[trigger] merge_result_spec(self.exprs@[i]),
                    b.columns@[i].values@,
                ),
            r is Ok <==> forall|i: int|
                0 <= i < self.exprs@.len() ==> #[trigger] finishes_at(self.exprs@, self.schema, i),
    {
        let mut columns: Vec<DataArray> = Vec::new();
        let mut i: usize = 0;
        while i < self.exprs.len()
            invariant
                i <= self.exprs@.len(),
                self.schema.fields@.len() == self.exprs@.len(),
                columns@.len() == i,
                forall|j: int|
                    0 <= j < i ==> (#[trigger] columns@[j]).wf() && columns@[j].data_type
                        == self.schema.fields@[j].data_type && columns@[j].values@.len() == 1,
                forall|j: int|
                    0 <= j < i ==> results_in(
                        #[trigger] merge_result_spec(self.exprs@[j]),
                        columns@[j].values@,
                    ),
                forall|j: int| 0 <= j < i ==> #[trigger] finishes_at(self.exprs@, self.schema, j),
            decreases self.exprs@.len() - i,
        {
            let v = match self.exprs[i].merge_result() {
                Ok(v) => v,
                Err(e) => {
                    assert(!finishes_at(self.exprs@, self.schema, i as int));
                    return Err(e);
                },
            };
            let t = self.schema.fields[i].data_type;
            if !v.is_null() && v.data_type() != t {
                assert(!finishes_at(self.exprs@, self.schema, i as int));
                return Err(DataError::SchemaMismatch { index: i });
            }
            let mut values: Vec<DataValue> = Vec::new();
            values.push(v);
            proof {
                assert(values@ =~= seq![merge_result_spec(self.exprs@[i as int])->Ok_0]);
            }
            columns.push(DataArray { data_type: t, values });
            i = i + 1;
        }
        let schema = self.schema.clone();
        assert(block_wf(schema, columns@));
        Ok(DataBlock { schema, columns })
    }
}

} // verus!
