use fusequery::data_array::{DataArray, DataColumnarValue};
use fusequery::data_array_ops::{
    data_array_aggregate_op, data_array_arithmetic_op, data_array_comparison_op,
    data_array_logic_op,
};
use fusequery::data_type::{numerical_arithmetic_coercion, numerical_coercion, DataType};
use fusequery::data_value::{data_value_aggregate_op, data_value_arithmetic_op, DataValue};
use fusequery::error::DataError;
use fusequery::operator::{
    DataValueAggregateOperator, DataValueArithmeticOperator, DataValueComparisonOperator,
    DataValueLogicOperator, Operator,
};

const AGG_OPS: [DataValueAggregateOperator; 4] = [
    DataValueAggregateOperator::Min,
    DataValueAggregateOperator::Max,
    DataValueAggregateOperator::Sum,
    DataValueAggregateOperator::Count,
];

#[test]
fn coercion_follows_the_widening_rules() {
    assert_eq!(numerical_coercion(&DataType::Int8, &DataType::Int32), Ok(DataType::Int32));
    assert_eq!(numerical_coercion(&DataType::UInt8, &DataType::UInt64), Ok(DataType::UInt64));
    assert_eq!(numerical_coercion(&DataType::Int8, &DataType::UInt8), Ok(DataType::Int16));
    assert_eq!(numerical_coercion(&DataType::UInt32, &DataType::Int16), Ok(DataType::Int64));
    assert_eq!(numerical_coercion(&DataType::Int64, &DataType::Float32), Ok(DataType::Float32));
    assert_eq!(numerical_coercion(&DataType::Float32, &DataType::Float64), Ok(DataType::Float64));
    assert_eq!(numerical_coercion(&DataType::UInt16, &DataType::UInt16), Ok(DataType::UInt16));
    assert_eq!(
        numerical_coercion(&DataType::Utf8, &DataType::Int8),
        Err(DataError::Coercion { left: DataType::Utf8, right: DataType::Int8 })
    );
    assert_eq!(
        numerical_arithmetic_coercion(DataValueArithmeticOperator::Plus, &DataType::Boolean, &DataType::Int8),
        Err(DataError::Unsupported {
            op: Operator::Arithmetic(DataValueArithmeticOperator::Plus),
            left: DataType::Boolean,
            right: DataType::Int8
        })
    );
}

#[test]
fn array_arithmetic_result_type_and_errors() {
    let a = DataColumnarValue::Array(DataArray::from_u8(vec![1, 2, 3]));
    let b = DataColumnarValue::Scalar(DataValue::Int8(-1));
    let r = data_array_arithmetic_op(DataValueArithmeticOperator::Plus, &a, &b).unwrap();
    assert_eq!(r.data_type(), DataType::Int16);
    assert_eq!(r.values(), &vec![DataValue::Int16(0), DataValue::Int16(1), DataValue::Int16(2)]);

    let s = DataColumnarValue::Scalar(DataValue::String("x".to_string()));
    assert_eq!(
        data_array_arithmetic_op(DataValueArithmeticOperator::Minus, &a, &s).unwrap_err(),
        DataError::Unsupported {
            op: Operator::Arithmetic(DataValueArithmeticOperator::Minus),
            left: DataType::UInt8,
            right: DataType::Utf8
        }
    );
    let zero = DataColumnarValue::Scalar(DataValue::UInt8(0));
    assert_eq!(
        data_array_arithmetic_op(DataValueArithmeticOperator::Div, &a, &zero).unwrap_err(),
        DataError::DivisionByZero
    );
    let big = DataColumnarValue::Scalar(DataValue::UInt8(255));
    assert!(matches!(
        data_array_arithmetic_op(DataValueArithmeticOperator::Plus, &a, &big).unwrap_err(),
        DataError::Overflow { .. }
    ));
    let short = DataColumnarValue::Array(DataArray::from_u8(vec![1]));
    assert_eq!(
        data_array_arithmetic_op(DataValueArithmeticOperator::Plus, &a, &short).unwrap_err(),
        DataError::LengthMismatch { left_len: 3, right_len: 1 }
    );
}

#[test]
fn value_arithmetic_truncates_toward_zero() {
    let q = data_value_arithmetic_op(DataValueArithmeticOperator::Div, DataValue::Int32(-7), DataValue::Int32(2));
    assert_eq!(q, Ok(DataValue::Int32(-3)));
    let m = data_value_arithmetic_op(DataValueArithmeticOperator::Modulo, DataValue::Int32(-7), DataValue::Int32(2));
    assert_eq!(m, Ok(DataValue::Int32(-1)));
    let p = data_value_arithmetic_op(DataValueArithmeticOperator::Mul, DataValue::UInt64(1 << 40), DataValue::UInt64(1 << 30));
    assert!(matches!(p, Err(DataError::Overflow { .. })));
    let n = data_value_arithmetic_op(DataValueArithmeticOperator::Plus, DataValue::Null, DataValue::Int8(4));
    assert_eq!(n, Ok(DataValue::Int8(4)));
}

#[test]
fn comparison_over_columns() {
    let a = DataColumnarValue::Array(DataArray::from_i64(vec![4, 3, 2, 4]));
    let b = DataColumnarValue::Array(DataArray::from_i64(vec![1, 2, 3, 4]));
    let expect = [
        (DataValueComparisonOperator::Eq, [false, false, false, true]),
        (DataValueComparisonOperator::Gt, [true, true, false, false]),
        (DataValueComparisonOperator::GtEq, [true, true, false, true]),
        (DataValueComparisonOperator::Lt, [false, false, true, false]),
        (DataValueComparisonOperator::LtEq, [false, false, true, true]),
        (DataValueComparisonOperator::NotEq, [true, true, true, false]),
    ];
    for (op, want) in expect {
        let r = data_array_comparison_op(op, &a, &b).unwrap();
        let want: Vec<DataValue> = want.iter().map(|x| DataValue::Boolean(*x)).collect();
        assert_eq!(r.values(), &want);
        assert_eq!(r.data_type(), DataType::Boolean);
    }
    let s = DataColumnarValue::Scalar(DataValue::String("a".to_string()));
    assert_eq!(
        data_array_comparison_op(DataValueComparisonOperator::Eq, &a, &s).unwrap_err(),
        DataError::Unsupported {
            op: Operator::Comparison(DataValueComparisonOperator::Eq),
            left: DataType::Int64,
            right: DataType::Utf8
        }
    );
}

#[test]
fn logic_needs_two_boolean_arrays() {
    let p = DataColumnarValue::Array(DataArray::from_bool(vec![true, true, false]));
    let q = DataColumnarValue::Array(DataArray::from_bool(vec![true, false, false]));
    let and = data_array_logic_op(DataValueLogicOperator::And, &p, &q).unwrap();
    assert_eq!(and.values(), &vec![DataValue::Boolean(true), DataValue::Boolean(false), DataValue::Boolean(false)]);
    let or = data_array_logic_op(DataValueLogicOperator::Or, &p, &q).unwrap();
    assert_eq!(or.values(), &vec![DataValue::Boolean(true), DataValue::Boolean(true), DataValue::Boolean(false)]);
    let t = DataColumnarValue::Scalar(DataValue::Boolean(true));
    assert_eq!(
        data_array_logic_op(DataValueLogicOperator::And, &p, &t).unwrap_err(),
        DataError::Unsupported {
            op: Operator::Logic(DataValueLogicOperator::And),
            left: DataType::Boolean,
            right: DataType::Boolean
        }
    );
}

#[test]
fn null_absorbs_in_every_aggregate() {
    let values = vec![
        DataValue::Int8(-3),
        DataValue::UInt64(9),
        DataValue::String("abc".to_string()),
        DataValue::Boolean(true),
    ];
    for op in AGG_OPS {
        for v in &values {
            assert_eq!(data_value_aggregate_op(op, DataValue::Null, v.clone()), Ok(v.clone()));
            assert_eq!(data_value_aggregate_op(op, v.clone(), DataValue::Null), Ok(v.clone()));
        }
    }
}

#[test]
fn aggregate_on_values() {
    assert_eq!(data_value_aggregate_op(DataValueAggregateOperator::Min, DataValue::Int16(5), DataValue::Int16(-2)), Ok(DataValue::Int16(-2)));
    assert_eq!(data_value_aggregate_op(DataValueAggregateOperator::Max, DataValue::Int16(5), DataValue::Int16(-2)), Ok(DataValue::Int16(5)));
    assert_eq!(data_value_aggregate_op(DataValueAggregateOperator::Sum, DataValue::UInt32(5), DataValue::UInt32(7)), Ok(DataValue::UInt32(12)));
    assert_eq!(data_value_aggregate_op(DataValueAggregateOperator::Count, DataValue::UInt32(5), DataValue::UInt32(7)), Ok(DataValue::UInt64(1)));
    let s = |x: &str| DataValue::String(x.to_string());
    assert_eq!(data_value_aggregate_op(DataValueAggregateOperator::Min, s("abd"), s("abc")), Ok(s("abc")));
    assert_eq!(data_value_aggregate_op(DataValueAggregateOperator::Max, s("ab"), s("abc")), Ok(s("abc")));
    assert!(matches!(
        data_value_aggregate_op(DataValueAggregateOperator::Sum, s("a"), s("b")),
        Err(DataError::Unsupported { left: DataType::Utf8, right: DataType::Utf8, .. })
    ));
    assert_eq!(
        data_value_aggregate_op(DataValueAggregateOperator::Min, DataValue::Int8(1), DataValue::UInt8(1)),
        Err(DataError::Unsupported {
            op: Operator::Aggregate(DataValueAggregateOperator::Min),
            left: DataType::Int8,
            right: DataType::UInt8
        })
    );
    assert!(matches!(
        data_value_aggregate_op(DataValueAggregateOperator::Sum, DataValue::Int8(100), DataValue::Int8(100)),
        Err(DataError::Overflow { .. })
    ));
}

#[test]
fn aggregate_over_arrays() {
    let a = DataArray::from_i64(vec![3, -1, 7]);
    assert_eq!(data_array_aggregate_op(DataValueAggregateOperator::Sum, &a), Ok(DataValue::Int64(9)));
    assert_eq!(data_array_aggregate_op(DataValueAggregateOperator::Min, &a), Ok(DataValue::Int64(-1)));
    assert_eq!(data_array_aggregate_op(DataValueAggregateOperator::Max, &a), Ok(DataValue::Int64(7)));
    assert_eq!(data_array_aggregate_op(DataValueAggregateOperator::Count, &a), Ok(DataValue::UInt64(3)));
    let with_null = DataArray::create(DataType::Int64, vec![DataValue::Int64(2), DataValue::Null]).unwrap();
    assert_eq!(data_array_aggregate_op(DataValueAggregateOperator::Count, &with_null), Ok(DataValue::UInt64(1)));
    let empty = DataArray::new_empty(DataType::Int64);
    assert_eq!(data_array_aggregate_op(DataValueAggregateOperator::Sum, &empty), Ok(DataValue::Null));
    assert!(DataArray::create(DataType::Int64, vec![DataValue::Int8(2)]).is_none());
}

#[test]
fn scalar_broadcasts_to_array() {
    let s = DataColumnarValue::Scalar(DataValue::UInt8(7));
    assert_eq!(s.data_type(), DataType::UInt8);
    let a = s.to_array(3).unwrap();
    assert_eq!(a.values(), &vec![DataValue::UInt8(7); 3]);
    assert_eq!(a.len(), 3);
}

#[test]
fn count_needs_one_numeric_type() {
    let s = |x: &str| DataValue::String(x.to_string());
    assert_eq!(
        data_value_aggregate_op(DataValueAggregateOperator::Count, s("a"), s("b")),
        Err(DataError::Unsupported {
            op: Operator::Aggregate(DataValueAggregateOperator::Count),
            left: DataType::Utf8,
            right: DataType::Utf8
        })
    );
    assert_eq!(
        data_value_aggregate_op(DataValueAggregateOperator::Count, DataValue::Boolean(true), DataValue::Boolean(false)),
        Err(DataError::Unsupported {
            op: Operator::Aggregate(DataValueAggregateOperator::Count),
            left: DataType::Boolean,
            right: DataType::Boolean
        })
    );
    assert_eq!(
        data_value_aggregate_op(DataValueAggregateOperator::Count, DataValue::Int8(1), DataValue::Int64(1)),
        Err(DataError::Unsupported {
            op: Operator::Aggregate(DataValueAggregateOperator::Count),
            left: DataType::Int8,
            right: DataType::Int64
        })
    );
    assert_eq!(
        data_value_aggregate_op(DataValueAggregateOperator::Count, DataValue::Int64(4), DataValue::Int64(1)),
        Ok(DataValue::UInt64(1))
    );
}
