use fusequery::data_array::DataArray;
use fusequery::data_block::{DataBlock, DataField, DataSchema};
use fusequery::data_type::DataType;
use fusequery::data_value::DataValue;
use fusequery::error::DataError;
use fusequery::factory::{
    AggregatorAvgFunction, AggregatorFunction, AggregatorMaxFunction, AggregatorSumFunction, AliasFunction,
    ArithmeticFunction, ColumnFunction, ComparisonEqFunction, ComparisonFunction,
    ComparisonGtEqFunction, ComparisonGtFunction, ComparisonLtEqFunction, ComparisonLtFunction,
    ComparisonNotEqFunction, FunctionFactory, LiteralFunction, LogicFunction, ToTypeNameFunction,
    UdfFunction,
};
use fusequery::function::Function;
use fusequery::operator::{DataValueArithmeticOperator, DataValueLogicOperator, Operator};

type Ctor = fn(&[Function]) -> Result<Function, DataError>;

fn ab_block() -> DataBlock {
    let schema = DataSchema::new(vec![
        DataField::new("a", DataType::Int64, false),
        DataField::new("b", DataType::Int64, false),
    ]);
    DataBlock::create(
        schema,
        vec![DataArray::from_i64(vec![4, 3, 2, 4]), DataArray::from_i64(vec![1, 2, 3, 4])],
    )
}

fn bools(v: &[bool]) -> Vec<DataValue> {
    v.iter().map(|b| DataValue::Boolean(*b)).collect()
}

#[test]
fn test_comparison_function() {
    let field_a = ColumnFunction::try_create("a").unwrap();
    let field_b = ColumnFunction::try_create("b").unwrap();
    let tests: Vec<(&str, &str, Ctor, Vec<bool>)> = vec![
        ("eq-passed", "a = b", ComparisonEqFunction::try_create_func, vec![false, false, false, true]),
        ("gt-passed", "a > b", ComparisonGtFunction::try_create_func, vec![true, true, false, false]),
        ("gt-eq-passed", "a >= b", ComparisonGtEqFunction::try_create_func, vec![true, true, false, true]),
        ("lt-passed", "a < b", ComparisonLtFunction::try_create_func, vec![false, false, true, false]),
        ("lt-eq-passed", "a <= b", ComparisonLtEqFunction::try_create_func, vec![false, false, true, true]),
        ("not-eq-passed", "a != b", ComparisonNotEqFunction::try_create_func, vec![true, true, true, false]),
    ];
    let block = ab_block();
    for (name, display, ctor, expect) in tests {
        let func = ctor(&[field_a.clone(), field_b.clone()]).unwrap();
        assert_eq!(display, func.display(), "{}", name);
        assert_eq!(false, func.nullable(block.schema()).unwrap());
        let v = func.eval(&block).unwrap();
        assert_eq!(func.return_type(block.schema()).unwrap(), v.data_type());
        let arr = v.to_array(block.num_rows()).unwrap();
        assert_eq!(arr.values(), &bools(&expect), "{}", name);
    }
}

#[test]
fn test_to_type_name_function() {
    let schema = DataSchema::new(vec![DataField::new("a", DataType::Boolean, false)]);
    let block = DataBlock::create(
        schema,
        vec![DataArray::from_bool(vec![true, true, true, false])],
    );
    let field_a = ColumnFunction::try_create("a").unwrap();
    let func = ToTypeNameFunction::try_create(&[field_a.clone()]).unwrap();
    assert_eq!("toTypeName(a)", func.display());
    assert_eq!(false, func.nullable(block.schema()).unwrap());
    let v = func.eval(&block).unwrap();
    assert_eq!(func.return_type(block.schema()).unwrap(), v.data_type());
    let arr = v.to_array(block.num_rows()).unwrap();
    let expect: Vec<DataValue> = (0..4).map(|_| DataValue::String("Boolean".to_string())).collect();
    assert_eq!(arr.values(), &expect);
}

#[test]
fn rendering_follows_construction_order() {
    let one = LiteralFunction::try_create(DataValue::Int32(1)).unwrap();
    let x = ColumnFunction::try_create("x").unwrap();
    let plus =
        ArithmeticFunction::try_create_func(DataValueArithmeticOperator::Plus, &[one, x]).unwrap();
    let y = AliasFunction::try_create("y", plus).unwrap();
    assert_eq!("plus(1, x) as y", y.display());
    assert_eq!(y.display(), y.display());

    let x = ColumnFunction::try_create("x").unwrap();
    let one = LiteralFunction::try_create(DataValue::Int32(1)).unwrap();
    let swapped =
        ArithmeticFunction::try_create_func(DataValueArithmeticOperator::Plus, &[x, one]).unwrap();
    assert_eq!("plus(x, 1)", swapped.display());
}

#[test]
fn rendering_of_values_and_aggregates() {
    let neg = LiteralFunction::try_create(DataValue::Int64(-205)).unwrap();
    assert_eq!("-205", neg.display());
    let s = LiteralFunction::try_create(DataValue::String("abc".to_string())).unwrap();
    assert_eq!("abc", s.display());
    assert_eq!("NULL", LiteralFunction::try_create(DataValue::Null).unwrap().display());
    let max = AggregatorMaxFunction::try_create(&[ColumnFunction::try_create("x").unwrap()]).unwrap();
    assert_eq!("max(x)", max.display());
    let and = LogicFunction::try_create_func(
        DataValueLogicOperator::And,
        &[ColumnFunction::try_create("p").unwrap(), ColumnFunction::try_create("q").unwrap()],
    )
    .unwrap();
    assert_eq!("p and q", and.display());
}

#[test]
fn constructors_check_arity() {
    let x = ColumnFunction::try_create("x").unwrap();
    let r = AggregatorSumFunction::try_create(&[x.clone(), x.clone()]);
    assert_eq!(
        r.unwrap_err(),
        DataError::ArgumentCount { function: "sum".to_string(), expected: 1, actual: 2 }
    );
    let r = ComparisonFunction::try_create_func(
        fusequery::operator::DataValueComparisonOperator::Eq,
        &[x],
    );
    assert_eq!(
        r.unwrap_err(),
        DataError::ArgumentCount { function: "=".to_string(), expected: 2, actual: 1 }
    );
}

#[test]
fn registry_resolves_names() {
    let mut map = FunctionFactory::new();
    AggregatorFunction::register(&mut map).unwrap();
    UdfFunction::register(&mut map).unwrap();
    assert!(map.lookup("sum").is_some());
    assert!(map.lookup("totypename").is_some());
    assert!(map.lookup("and").is_none());
    let f = map.get("max", &[ColumnFunction::try_create("x").unwrap()]).unwrap();
    assert_eq!("max(x)", f.display());
    assert_eq!(
        map.get("nosuch", &[]).unwrap_err(),
        DataError::UnknownFunction { name: "nosuch".to_string() }
    );
    let all = FunctionFactory::create();
    let eq = all
        .get("=", &[ColumnFunction::try_create("a").unwrap(), ColumnFunction::try_create("b").unwrap()])
        .unwrap();
    assert_eq!("a = b", eq.display());
    let example = all.get("example", &[]).unwrap();
    assert_eq!("example()", example.display());
}

#[test]
fn unknown_column_is_reported() {
    let block = ab_block();
    let z = ColumnFunction::try_create("z").unwrap();
    assert_eq!(
        z.eval(&block).unwrap_err(),
        DataError::ColumnNotFound { name: "z".to_string() }
    );
    assert_eq!(
        z.return_type(block.schema()).unwrap_err(),
        DataError::ColumnNotFound { name: "z".to_string() }
    );
    let star = ColumnFunction::try_create("*").unwrap();
    let v = star.eval(&block).unwrap();
    assert_eq!(v.to_array(4).unwrap().values(), DataArray::from_i64(vec![4, 3, 2, 4]).values());
}

#[test]
fn arithmetic_over_columns_and_literals() {
    let block = ab_block();
    let a = ColumnFunction::try_create("a").unwrap();
    let ten = LiteralFunction::try_create(DataValue::Int8(10)).unwrap();
    let f = ArithmeticFunction::try_create_func(DataValueArithmeticOperator::Mul, &[a, ten]).unwrap();
    assert_eq!(DataType::Int64, f.return_type(block.schema()).unwrap());
    let v = f.eval(&block).unwrap();
    assert_eq!(v.data_type(), DataType::Int64);
    assert_eq!(
        v.to_array(4).unwrap().values(),
        DataArray::from_i64(vec![40, 30, 20, 40]).values()
    );
}

#[test]
fn clone_starts_from_fresh_state() {
    let schema = DataSchema::new(vec![DataField::new("n", DataType::UInt64, false)]);
    let block = DataBlock::create(schema, vec![DataArray::from_u64(vec![5, 6])]);
    let mut sum = AggregatorSumFunction::try_create(&[ColumnFunction::try_create("n").unwrap()]).unwrap();
    sum.accumulate(&block).unwrap();
    assert_eq!(sum.merge_result().unwrap(), DataValue::UInt64(11));
    let copy = sum.clone();
    assert_eq!(copy.merge_result().unwrap(), DataValue::Null);
    assert_eq!(sum.accumulate_result().unwrap(), vec![DataValue::UInt64(11)]);
    assert!(sum.is_aggregator());
    assert!(!ColumnFunction::try_create("n").unwrap().is_aggregator());
}

#[test]
fn merge_with_depth_out_of_range_fails() {
    let mut sum = AggregatorSumFunction::try_create(&[ColumnFunction::try_create("n").unwrap()]).unwrap();
    sum.set_depth(3);
    assert_eq!(
        sum.merge(&[DataValue::UInt64(1)]).unwrap_err(),
        DataError::DepthOutOfRange { depth: 3, len: 1 }
    );
}

#[test]
fn merge_result_needs_aggregate_state() {
    let x = ColumnFunction::try_create("x").unwrap();
    assert_eq!(x.merge_result().unwrap_err(), DataError::NotAggregate);
    let lit = LiteralFunction::try_create(DataValue::UInt8(3)).unwrap();
    assert_eq!(lit.merge_result().unwrap(), DataValue::UInt8(3));
}

#[test]
fn block_accessors() {
    let block = ab_block();
    assert_eq!(block.num_rows(), 4);
    assert_eq!(block.num_columns(), 2);
    assert!(!block.is_empty());
    assert_eq!(block.column_by_name("b").unwrap().values(), DataArray::from_i64(vec![1, 2, 3, 4]).values());
    assert_eq!(block.column_by_name("*").unwrap().values(), block.column(0).values());
    assert!(block.column_by_name("c").is_err());
    let empty = DataBlock::empty_with_schema(block.schema().clone());
    assert_eq!(empty.num_columns(), 2);
    assert_eq!(empty.num_rows(), 0);
    assert!(empty.is_empty());
    assert!(DataBlock::empty().is_empty());
    assert_eq!(block.schema().index_of("b").unwrap(), 1);
}

#[test]
fn type_name_inside_other_expressions() {
    let schema = DataSchema::new(vec![DataField::new("a", DataType::Boolean, false)]);
    let block = DataBlock::create(schema, vec![DataArray::from_bool(vec![true, false])]);
    let a = ColumnFunction::try_create("a").unwrap();
    let tn = ToTypeNameFunction::try_create(&[a]).unwrap();
    let both = LogicFunction::try_create_func(DataValueLogicOperator::And, &[tn.clone(), tn.clone()]).unwrap();
    assert_eq!(
        both.eval(&block).unwrap_err(),
        DataError::Unsupported {
            op: Operator::Logic(DataValueLogicOperator::And),
            left: DataType::Utf8,
            right: DataType::Utf8
        }
    );
    let mut max = AggregatorMaxFunction::try_create(&[tn.clone()]).unwrap();
    max.accumulate(&block).unwrap();
    assert_eq!(max.merge_result().unwrap(), DataValue::String("Boolean".to_string()));
    let one = LiteralFunction::try_create(DataValue::Int8(1)).unwrap();
    let plus = ArithmeticFunction::try_create_func(DataValueArithmeticOperator::Plus, &[tn, one]).unwrap();
    let mut sum = AggregatorSumFunction::try_create(&[plus]).unwrap();
    assert!(sum.accumulate(&block).is_err());
    assert_eq!(sum.merge_result().unwrap(), DataValue::Null);
}

#[test]
fn avg_keeps_sum_and_count() {
    let schema = DataSchema::new(vec![DataField::new("n", DataType::Int64, false)]);
    let block = DataBlock::create(schema, vec![DataArray::from_i64(vec![3, 4, 8])]);
    let mut avg = AggregatorAvgFunction::try_create(&[ColumnFunction::try_create("n").unwrap()]).unwrap();
    assert_eq!("avg(n)", avg.display());
    assert_eq!(avg.return_type(block.schema()).unwrap(), DataType::Int64);
    assert_eq!(avg.merge_result().unwrap(), DataValue::Null);
    avg.accumulate(&block).unwrap();
    assert_eq!(avg.accumulate_result().unwrap(), vec![DataValue::Int64(15), DataValue::UInt64(3)]);
    assert_eq!(avg.merge_result().unwrap(), DataValue::Int64(5));
    let mut fin = avg.clone();
    fin.merge(&[DataValue::Int64(15), DataValue::UInt64(3)]).unwrap();
    fin.merge(&[DataValue::Int64(1), DataValue::UInt64(1)]).unwrap();
    assert_eq!(fin.merge_result().unwrap(), DataValue::Int64(4));
    assert_eq!(
        fin.merge(&[DataValue::Int64(1)]).unwrap_err(),
        DataError::DepthOutOfRange { depth: 0, len: 1 }
    );
    assert!(FunctionFactory::create().lookup("avg").is_some());
}
