use vstd::prelude::*;

use crate::data_array::{ColumnView, DataArray, DataColumnarValue, typed_values};
use crate::data_type::{coercion_spec, numerical_coercion, DataType};
use crate::data_value::{
    aggregate_spec, arithmetic_spec, comparable, compare_holds, compare_values,
    data_value_aggregate_op, data_value_arithmetic_op, is_comparable, lemma_int_value, value_eq,
    value_lt, DataValue,
};
use crate::error::DataError;
use crate::operator::{
    DataValueAggregateOperator, DataValueArithmeticOperator, DataValueComparisonOperator,
    DataValueLogicOperator, Operator,
};

verus! {

/// The values of a sequence of results, or the first error among them.
pub open spec fn collect(s: Seq<Result<DataValue, DataError>>) -> Result<Seq<DataValue>, DataError>
    decreases s.len(),
{
    if s.len() == 0 {
        Ok(Seq::empty())
    } else {
        match collect(s.drop_last()) {
            Err(e) => Err(e),
            Ok(p) => match s.last() {
                Ok(v) => Ok(p.push(v)),
                Err(e) => Err(e),
            },
        }
    }
}

proof fn lemma_collect_err_extends(s: Seq<Result<DataValue, DataError>>, k: int)
    requires
        0 <= k <= s.len(),
        collect(s.take(k)) is Err,
    ensures
        collect(s) == collect(s.take(k)),
    decreases s.len() - k,
{
    if k < s.len() {
        assert(s.take(k + 1).drop_last() =~= s.take(k));
        lemma_collect_err_extends(s, k + 1);
    } else {
        assert(s.take(k) =~= s);
    }
}

/// The number of rows two operands combine to: equal array lengths, the
/// array's length beside a scalar, one row for two scalars.
pub open spec fn shape(l: ColumnView, r: ColumnView) -> Result<nat, DataError> {
    match (l, r) {
        (ColumnView::Array(_, a), ColumnView::Array(_, b)) => if a.len() == b.len() {
            Ok(a.len())
        } else {
            Err(DataError::LengthMismatch { left_len: a.len() as usize, right_len: b.len() as usize })
        },
        (ColumnView::Array(_, a), ColumnView::Scalar(_)) => Ok(a.len()),
        (ColumnView::Scalar(_), ColumnView::Array(_, b)) => Ok(b.len()),
        (ColumnView::Scalar(_), ColumnView::Scalar(_)) => Ok(1),
    }
}

fn rows_of(l: &DataColumnarValue, r: &DataColumnarValue) -> (res: Result<usize, DataError>)
    ensures
        match (res, shape(l@, r@)) {
            (Ok(n), Ok(m)) => n == m,
            (Err(e1), Err(e2)) => e1 == e2,
            _ => false,
        },
{
    match (l, r) {
        (DataColumnarValue::Array(a), DataColumnarValue::Array(b)) => if a.len() == b.len() {
            Ok(a.len())
        } else {
            Err(DataError::LengthMismatch { left_len: a.len(), right_len: b.len() })
        },
        (DataColumnarValue::Array(a), DataColumnarValue::Scalar(_)) => Ok(a.len()),
        (DataColumnarValue::Scalar(_), DataColumnarValue::Array(b)) => Ok(b.len()),
        (DataColumnarValue::Scalar(_), DataColumnarValue::Scalar(_)) => Ok(1),
    }
}

fn elem_at(c: &DataColumnarValue, i: usize) -> (r: &DataValue)
    requires
        c is Array ==> i < c->Array_0.values@.len(),
    ensures
        *r == c@.elem(i as int),
{
    match c {
        DataColumnarValue::Array(a) => &a.values[i],
        DataColumnarValue::Scalar(v) => v,
    }
}

/// One row of an arithmetic operator on columns: null when either side is.
pub open spec fn arith_elem(op: DataValueArithmeticOperator, l: DataValue, r: DataValue) -> Result<
    DataValue,
    DataError,
> {
    if l is Null || r is Null {
        Ok(DataValue::Null)
    } else {
        arithmetic_spec(op, l, r)
    }
}

/// An arithmetic operator on two columns: the result type is the common
/// numeric type of the two column types; each row is computed as
/// `arith_elem` says, and the first failing row fails the whole.
pub open spec fn arithmetic_array_spec(
    op: DataValueArithmeticOperator,
    l: ColumnView,
    r: ColumnView,
) -> Result<(DataType, Seq<DataValue>), DataError> {
    let lt = l.data_type_spec();
    let rt = r.data_type_spec();
    match coercion_spec(lt, rt) {
        None => Err(DataError::Unsupported { op: Operator::Arithmetic(op), left: lt, right: rt }),
        Some(t) => match shape(l, r) {
            Err(e) => Err(e),
            Ok(n) => match collect(Seq::new(n, |i: int| arith_elem(op, l.elem(i), r.elem(i)))) {
                Ok(vals) => Ok((t, vals)),
                Err(e) => Err(e),
            },
        },
    }
}

/// Applies an arithmetic operator row by row, broadcasting scalars.
pub fn data_array_arithmetic_op(
    op: DataValueArithmeticOperator,
    left: &DataColumnarValue,
    right: &DataColumnarValue,
) -> (r: Result<DataArray, DataError>)
    requires
        left.wf(),
        right.wf(),
    ensures
        match (r, arithmetic_array_spec(op, left@, right@)) {
            (Ok(a), Ok((t, vals))) => a.data_type == t && a.values@ == vals && a.wf(),
            (Err(e1), Err(e2)) => e1 == e2,
            _ => false,
        },
{
    let lt = left.data_type();
    let rt = right.data_type();
    let t = match numerical_coercion(&lt, &rt) {
        Ok(t) => t,
        Err(_) => {
            return Err(
                DataError::Unsupported { op: Operator::Arithmetic(op), left: lt, right: rt },
            );
        },
    };
    let n = match rows_of(left, right) {
        Ok(n) => n,
        Err(e) => {
            return Err(e);
        },
    };
    let ghost rows = Seq::new(n as nat, |i: int| arith_elem(op, left@.elem(i), right@.elem(i)));
    let mut out: Vec<DataValue> = Vec::new();
    let mut i: usize = 0;
    while i < n
        invariant
            i <= n,
            shape(left@, right@) == Ok::<nat, DataError>(n as nat),
            coercion_spec(lt, rt) == Some(t),
            lt == left.data_type_spec(),
            rt == right.data_type_spec(),
            left.wf(),
            right.wf(),
            rows == Seq::new(n as nat, |i: int| arith_elem(op, left@.elem(i), right@.elem(i))),
            collect(rows.take(i as int)) == Ok::<Seq<DataValue>, DataError>(out@),
            typed_values(t, out@),
        decreases n - i,
    {
        assert(rows.take(i + 1).drop_last() =~= rows.take(i as int));
        let a = elem_at(left, i);
        let b = elem_at(right, i);
        proof {
            if !(*a is Null) {
                if left is Array {
                    assert(left->Array_0.values@[i as int] == *a);
                }
            }
            if !(*b is Null) {
                if right is Array {
                    assert(right->Array_0.values@[i as int] == *b);
                }
            }
        }
        if a.is_null() || b.is_null() {
            out.push(DataValue::Null);
        } else {
            match data_value_arithmetic_op(op, a.clone(), b.clone()) {
                Ok(v) => {
                    proof {
                        lemma_int_value(t, v.int_spec());
                    }
                    out.push(v);
                },
                Err(e) => {
                    proof {
                        lemma_collect_err_extends(rows, i + 1);
                    }
                    return Err(e);
                },
            }
        }
        i = i + 1;
    }
    assert(rows.take(n as int) =~= rows);
    Ok(DataArray { data_type: t, values: out })
}

/// One row of a comparison: null when either side is, else a boolean.
pub open spec fn compare_elem(op: DataValueComparisonOperator, l: DataValue, r: DataValue) -> DataValue {
    if l is Null || r is Null {
        DataValue::Null
    } else {
        DataValue::Boolean(compare_holds(op, value_lt(l, r), value_eq(l, r)))
    }
}

/// A comparison of two columns whose types are comparable, row by row.
pub open spec fn comparison_array_spec(
    op: DataValueComparisonOperator,
    l: ColumnView,
    r: ColumnView,
) -> Result<Seq<DataValue>, DataError> {
    let lt = l.data_type_spec();
    let rt = r.data_type_spec();
    if !comparable(lt, rt) {
        Err(DataError::Unsupported { op: Operator::Comparison(op), left: lt, right: rt })
    } else {
        match shape(l, r) {
            Err(e) => Err(e),
            Ok(n) => Ok(Seq::new(n, |i: int| compare_elem(op, l.elem(i), r.elem(i)))),
        }
    }
}

/// Compares two columns row by row, broadcasting scalars; the result is a
/// boolean array.
pub fn data_array_comparison_op(
    op: DataValueComparisonOperator,
    left: &DataColumnarValue,
    right: &DataColumnarValue,
) -> (r: Result<DataArray, DataError>)
    requires
        left.wf(),
        right.wf(),
    ensures
        match (r, comparison_array_spec(op, left@, right@)) {
            (Ok(a), Ok(vals)) => a.data_type == DataType::Boolean && a.values@ == vals && a.wf(),
            (Err(e1), Err(e2)) => e1 == e2,
            _ => false,
        },
{
    let lt = left.data_type();
    let rt = right.data_type();
    if !is_comparable(lt, rt) {
        return Err(DataError::Unsupported { op: Operator::Comparison(op), left: lt, right: rt });
    }
    let n = match rows_of(left, right) {
        Ok(n) => n,
        Err(e) => {
            return Err(e);
        },
    };
    let mut out: Vec<DataValue> = Vec::new();
    let mut i: usize = 0;
    while i < n
        invariant
            i <= n,
            shape(left@, right@) == Ok::<nat, DataError>(n as nat),
            comparable(lt, rt),
            lt == left.data_type_spec(),
            rt == right.data_type_spec(),
            left.wf(),
            right.wf(),
            out@ == Seq::new(i as nat, |j: int| compare_elem(op, left@.elem(j), right@.elem(j))),
            typed_values(DataType::Boolean, out@),
        decreases n - i,
    {
        let a = elem_at(left, i);
        let b = elem_at(right, i);
        proof {
            if !(*a is Null) {
                if left is Array {
                    assert(left->Array_0.values@[i as int] == *a);
                }
            }
            if !(*b is Null) {
                if right is Array {
                    assert(right->Array_0.values@[i as int] == *b);
                }
            }
        }
        if a.is_null() || b.is_null() {
            out.push(DataValue::Null);
        } else {
            let c = compare_values(op, a, b);
            out.push(DataValue::Boolean(c));
        }
        i = i + 1;
        assert(out@ =~= Seq::new(i as nat, |j: int| compare_elem(op, left@.elem(j), right@.elem(j))));
    }
    Ok(DataArray { data_type: DataType::Boolean, values: out })
}

/// One row of a boolean connective: null when either side is.
pub open spec fn logic_elem(op: DataValueLogicOperator, l: DataValue, r: DataValue) -> DataValue {
    if l is Null || r is Null {
        DataValue::Null
    } else {
        match op {
            DataValueLogicOperator::And => DataValue::Boolean(l->Boolean_0 && r->Boolean_0),
            DataValueLogicOperator::Or => DataValue::Boolean(l->Boolean_0 || r->Boolean_0),
        }
    }
}

/// A boolean connective on two boolean arrays of one length; a scalar on
/// either side, or a non-boolean type, is refused.
pub open spec fn logic_array_spec(
    op: DataValueLogicOperator,
    l: ColumnView,
    r: ColumnView,
) -> Result<Seq<DataValue>, DataError> {
    let lt = l.data_type_spec();
    let rt = r.data_type_spec();
    let unsupported = DataError::Unsupported { op: Operator::Logic(op), left: lt, right: rt };
    match (l, r) {
        (ColumnView::Array(_, a), ColumnView::Array(_, b)) => if !(lt is Boolean)
            || !(rt is Boolean) {
            Err(unsupported)
        } else {
            match shape(l, r) {
                Err(e) => Err(e),
                Ok(n) => Ok(Seq::new(n, |i: int| logic_elem(op, a[i], b[i]))),
            }
        },
        _ => Err(unsupported),
    }
}

/// Applies `and` or `or` row by row to two boolean arrays.
pub fn data_array_logic_op(
    op: DataValueLogicOperator,
    left: &DataColumnarValue,
    right: &DataColumnarValue,
) -> (r: Result<DataArray, DataError>)
    requires
        left.wf(),
        right.wf(),
    ensures
        match (r, logic_array_spec(op, left@, right@)) {
            (Ok(a), Ok(vals)) => a.data_type == DataType::Boolean && a.values@ == vals && a.wf(),
            (Err(e1), Err(e2)) => e1 == e2,
            _ => false,
        },
{
    let lt = left.data_type();
    let rt = right.data_type();
    match (left, right) {
        (DataColumnarValue::Array(a), DataColumnarValue::Array(b)) => {
            if lt != DataType::Boolean || rt != DataType::Boolean {
                return Err(
                    DataError::Unsupported { op: Operator::Logic(op), left: lt, right: rt },
                );
            }
            if a.len() != b.len() {
                return Err(DataError::LengthMismatch { left_len: a.len(), right_len: b.len() });
            }
            let n = a.len();
            let mut out: Vec<DataValue> = Vec::new();
            let mut i: usize = 0;
            while i < n
                invariant
                    i <= n,
                    n == a.values@.len(),
                    n == b.values@.len(),
                    a.wf(),
                    b.wf(),
                    a.data_type == DataType::Boolean,
                    b.data_type == DataType::Boolean,
                    out@ == Seq::new(i as nat, |j: int| logic_elem(op, a.values@[j], b.values@[j])),
                    typed_values(DataType::Boolean, out@),
                decreases n - i,
            {
                let v = match (&a.values[i], &b.values[i]) {
                    (DataValue::Boolean(x), DataValue::Boolean(y)) => match op {
                        DataValueLogicOperator::And => DataValue::Boolean(*x && *y),
                        DataValueLogicOperator::Or => DataValue::Boolean(*x || *y),
                    },
                    _ => DataValue::Null,
                };
                out.push(v);
                i = i + 1;
                assert(out@ =~= Seq::new(i as nat, |j: int| logic_elem(op, a.values@[j], b.values@[j])));
            }
            Ok(DataArray { data_type: DataType::Boolean, values: out })
        },
        _ => Err(DataError::Unsupported { op: Operator::Logic(op), left: lt, right: rt }),
    }
}

/// Folds a sequence of values from the left with an aggregate operator,
/// starting from null.
pub open spec fn fold_agg(op: DataValueAggregateOperator, s: Seq<DataValue>) -> Result<
    DataValue,
    DataError,
>
    decreases s.len(),
{
    if s.len() == 0 {
        Ok(DataValue::Null)
    } else {
        match fold_agg(op, s.drop_last()) {
            Err(e) => Err(e),
            Ok(acc) => aggregate_spec(op, acc, s.last()),
        }
    }
}

/// The number of non-null values.
pub open spec fn count_non_null(s: Seq<DataValue>) -> nat
    decreases s.len(),
{
    if s.len() == 0 {
        0
    } else {
        count_non_null(s.drop_last()) + if s.last() is Null { 0nat } else { 1nat }
    }
}

/// An aggregate over a whole array: Count gives the number of non-null
/// values; the other operators fold the values with `aggregate_spec`.
pub open spec fn array_aggregate_spec(op: DataValueAggregateOperator, s: Seq<DataValue>) -> Result<
    DataValue,
    DataError,
> {
    if op is Count {
        Ok(DataValue::UInt64(count_non_null(s) as u64))
    } else {
        fold_agg(op, s)
    }
}

proof fn lemma_count_bound(s: Seq<DataValue>)
    ensures
        count_non_null(s) <= s.len(),
    decreases s.len(),
{
    if s.len() > 0 {
        lemma_count_bound(s.drop_last());
    }
}

proof fn lemma_fold_err_extends(op: DataValueAggregateOperator, s: Seq<DataValue>, k: int)
    requires
        0 <= k <= s.len(),
        fold_agg(op, s.take(k)) is Err,
    ensures
        fold_agg(op, s) == fold_agg(op, s.take(k)),
    decreases s.len() - k,
{
    if k < s.len() {
        assert(s.take(k + 1).drop_last() =~= s.take(k));
        lemma_fold_err_extends(op, s, k + 1);
    } else {
        assert(s.take(k) =~= s);
    }
}

/// Aggregates a whole array into one value, as `array_aggregate_spec` states.
pub fn data_array_aggregate_op(op: DataValueAggregateOperator, array: &DataArray) -> (r: Result<
    DataValue,
    DataError,
>)
    ensures
        r == array_aggregate_spec(op, array.values@),
{
    let n = array.len();
    let ghost s = array.values@;
    if op == DataValueAggregateOperator::Count {
        let mut c: u64 = 0;
        let mut i: usize = 0;
        while i < n
            invariant
                i <= n,
                n == s.len(),
                s == array.values@,
                c == count_non_null(s.take(i as int)),
            decreases n - i,
        {
            assert(s.take(i + 1).drop_last() =~= s.take(i as int));
            proof {
                lemma_count_bound(s.take(i as int));
            }
            if !array.values[i].is_null() {
                c = c + 1;
            }
            i = i + 1;
        }
        assert(s.take(n as int) =~= s);
        return Ok(DataValue::UInt64(c));
    }
    let mut acc = DataValue::Null;
    let mut i: usize = 0;
    assert(s.take(0) =~= Seq::<DataValue>::empty());
    while i < n
        invariant
            i <= n,
            n == s.len(),
            s == array.values@,
            !(op is Count),
            fold_agg(op, s.take(i as int)) == Ok::<DataValue, DataError>(acc),
        decreases n - i,
    {
        assert(s.take(i + 1).drop_last() =~= s.take(i as int));
        match data_value_aggregate_op(op, acc, array.values[i].clone()) {
            Ok(v) => {
                acc = v;
            },
            Err(e) => {
                proof {
                    lemma_fold_err_extends(op, s, i + 1);
                }
                return Err(e);
            },
        }
        i = i + 1;
    }
    assert(s.take(n as int) =~= s);
    Ok(acc)
}

} // verus!
