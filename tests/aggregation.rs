use fusequery::data_array::DataArray;
use fusequery::data_block::{DataBlock, DataField, DataSchema};
use fusequery::data_type::DataType;
use fusequery::data_value::DataValue;
use fusequery::factory::{
    AggregatorCountFunction, AggregatorMaxFunction, AggregatorMinFunction, AggregatorSumFunction,
    ArithmeticFunction, ColumnFunction, LiteralFunction,
};
use fusequery::function::Function;
use fusequery::operator::DataValueArithmeticOperator;
use fusequery::transforms::{
    AggregatorFinalTransform, AggregatorPartialTransform, ExpressionTransform,
};

fn number_schema() -> DataSchema {
    DataSchema::new(vec![DataField::new("number", DataType::UInt64, false)])
}

/// `0..n` as blocks of `size` rows.
fn number_blocks(n: u64, size: u64) -> Vec<DataBlock> {
    let mut blocks = vec![];
    let mut start = 0;
    while start < n {
        let end = std::cmp::min(start + size, n);
        blocks.push(DataBlock::create(
            number_schema(),
            vec![DataArray::from_u64((start..end).collect())],
        ));
        start = end;
    }
    blocks
}

fn number() -> Function {
    ColumnFunction::try_create("number").unwrap()
}

/// One partial stage per shard, then one final stage over their states.
fn distributed(exprs: &Vec<Function>, shards: &[Vec<DataBlock>], out: DataSchema) -> Vec<DataValue> {
    let mut fin = AggregatorFinalTransform::try_create(out, exprs).unwrap();
    for shard in shards {
        let mut partial = AggregatorPartialTransform::try_create(number_schema(), exprs).unwrap();
        for b in shard {
            partial.accumulate(b).unwrap();
        }
        let states = partial.finish().unwrap();
        fin.merge_block(&states).unwrap();
    }
    let block = fin.finish().unwrap();
    (0..block.num_columns()).map(|i| block.column(i).values()[0].clone()).collect()
}

#[test]
fn test_transform_aggregator() {
    let aggr_exprs = vec![ArithmeticFunction::try_create_func(
        DataValueArithmeticOperator::Plus,
        &[
            AggregatorSumFunction::try_create(&[number()]).unwrap(),
            LiteralFunction::try_create(DataValue::UInt64(2)).unwrap(),
        ],
    )
    .unwrap()];
    let out = DataSchema::new(vec![DataField::new("plus(sum(number), 2)", DataType::UInt64, false)]);
    let blocks = number_blocks(16, 2);
    assert_eq!(blocks.len(), 8);
    let shards: Vec<Vec<DataBlock>> = blocks.into_iter().map(|b| vec![b]).collect();
    let result = distributed(&aggr_exprs, &shards, out);
    assert_eq!(result, vec![DataValue::UInt64(122)]);
}

#[test]
fn partial_and_final_match_single_stage() {
    let exprs = vec![
        AggregatorSumFunction::try_create(&[number()]).unwrap(),
        AggregatorCountFunction::try_create(&[number()]).unwrap(),
        AggregatorMinFunction::try_create(&[number()]).unwrap(),
        AggregatorMaxFunction::try_create(&[number()]).unwrap(),
    ];
    let out = DataSchema::new(vec![
        DataField::new("sum", DataType::UInt64, false),
        DataField::new("count", DataType::UInt64, false),
        DataField::new("min", DataType::UInt64, false),
        DataField::new("max", DataType::UInt64, false),
    ]);
    let whole = distributed(&exprs, &[number_blocks(20, 3)], out.clone());
    assert_eq!(
        whole,
        vec![DataValue::UInt64(190), DataValue::UInt64(20), DataValue::UInt64(0), DataValue::UInt64(19)]
    );
    let blocks = number_blocks(20, 3);
    let mut shards: Vec<Vec<DataBlock>> = vec![vec![], vec![], vec![]];
    for (i, b) in blocks.into_iter().enumerate() {
        shards[i % 3].push(b);
    }
    assert_eq!(distributed(&exprs, &shards, out), whole);
}

#[test]
fn partial_state_block_holds_flattened_states() {
    let exprs = vec![
        AggregatorSumFunction::try_create(&[number()]).unwrap(),
        AggregatorMaxFunction::try_create(&[number()]).unwrap(),
    ];
    let mut partial = AggregatorPartialTransform::try_create(number_schema(), &exprs).unwrap();
    for b in number_blocks(5, 2) {
        partial.accumulate(&b).unwrap();
    }
    let states = partial.finish().unwrap();
    assert_eq!(states.num_rows(), 1);
    assert_eq!(states.num_columns(), 2);
    assert_eq!(states.column(0).values(), &vec![DataValue::UInt64(10)]);
    assert_eq!(states.column(1).values(), &vec![DataValue::UInt64(4)]);
}

#[test]
fn expression_transform_projects_blocks() {
    let exprs = vec![ArithmeticFunction::try_create_func(
        DataValueArithmeticOperator::Plus,
        &[number(), LiteralFunction::try_create(DataValue::UInt64(1)).unwrap()],
    )
    .unwrap()];
    let out = DataSchema::new(vec![DataField::new("n1", DataType::UInt64, false)]);
    let t = ExpressionTransform::try_create(out, &exprs).unwrap();
    let b = t.transform(&number_blocks(3, 3)[0]).unwrap();
    assert_eq!(b.column(0).values(), DataArray::from_u64(vec![1, 2, 3]).values());
    let wrong = DataSchema::new(vec![DataField::new("n1", DataType::Int8, false)]);
    let t = ExpressionTransform::try_create(wrong, &exprs).unwrap();
    assert_eq!(
        t.transform(&number_blocks(3, 3)[0]).unwrap_err(),
        fusequery::error::DataError::SchemaMismatch { index: 0 }
    );
}

#[test]
fn duplicate_field_names_are_refused() {
    let dup = DataSchema::new(vec![
        DataField::new("n", DataType::UInt64, false),
        DataField::new("n", DataType::UInt64, false),
    ]);
    let exprs = vec![number(), number()];
    assert_eq!(
        ExpressionTransform::try_create(dup.clone(), &exprs).unwrap_err(),
        fusequery::error::DataError::DuplicateField
    );
    assert!(!DataBlock::check(
        &dup,
        &vec![DataArray::from_u64(vec![1]), DataArray::from_u64(vec![2])]
    ));
}
