use vstd::prelude::*;

use crate::data_array::{ColumnView, DataColumnarValue};
use crate::data_array_ops::{
    array_aggregate_spec, arithmetic_array_spec, count_non_null, comparison_array_spec, data_array_aggregate_op,
    data_array_arithmetic_op, data_array_comparison_op, data_array_logic_op, logic_array_spec,
};
use crate::data_block::{column_index, lemma_column_index_bound, lemma_schema_column_index,
    schema_column_index, DataBlock, DataSchema,
};
use crate::data_type::{coercion_spec, numerical_coercion, DataType};
use crate::data_value::{
    aggregate_spec, arithmetic_spec, data_value_aggregate_op, data_value_arithmetic_op, DataValue,
};
use crate::error::DataError;
use crate::operator::{
    DataValueAggregateOperator, DataValueArithmeticOperator, DataValueComparisonOperator,
    DataValueLogicOperator, Operator,
};
use crate::strings::{decimal, format_decimal};

verus! {

/// An expression tree node.
#[derive(Debug)]
pub enum Function {
    /// The column of the block that the name refers to.
    Column { name: String },
    /// A constant, broadcast over every row.
    Literal { value: DataValue },
    /// A sub-expression under another name.
    Alias { alias: String, arg: Box<Function> },
    Arithmetic {
        arith_op: DataValueArithmeticOperator,
        left: Box<Function>,
        right: Box<Function>,
    },
    Comparison {
        cmp_op: DataValueComparisonOperator,
        left: Box<Function>,
        right: Box<Function>,
    },
    Logic { logic_op: DataValueLogicOperator, left: Box<Function>, right: Box<Function> },
    /// The name of the argument's type, as a string taken from `names`.
    ToTypeName { arg: Box<Function>, names: TypeNames },
    /// The constant `true`.
    Example,
    /// A fold over every row seen, with its state and its slot in the
    /// flattened state vector.
    Aggregate {
        agg_op: DataValueAggregateOperator,
        arg: Box<Function>,
        depth: usize,
        state: DataValue,
    },
    /// The average of every row seen: a running sum at slot `depth` and a
    /// running count of non-null rows at slot `depth + 1`.
    Average { arg: Box<Function>, depth: usize, sum: DataValue, count: DataValue },
}

/// The type an expression yields over a schema.
pub open spec fn return_type_spec(f: Function, schema: DataSchema) -> Result<DataType, DataError>
    decreases f,
{
    match f {
        Function::Column { name } => match schema_column_index(schema.fields@, name@) {
            Some(i) => Ok(schema.fields@[i].data_type),
            None => Err(DataError::ColumnNotFound { name }),
        },
        Function::Literal { value } => Ok(value.data_type_spec()),
        Function::Alias { arg, .. } => return_type_spec(*arg, schema),
        Function::Arithmetic { arith_op, left, right } => match return_type_spec(*left, schema) {
            Err(e) => Err(e),
            Ok(lt) => match return_type_spec(*right, schema) {
                Err(e) => Err(e),
                Ok(rt) => match coercion_spec(lt, rt) {
                    Some(t) => Ok(t),
                    None => Err(
                        DataError::Unsupported {
                            op: Operator::Arithmetic(arith_op),
                            left: lt,
                            right: rt,
                        },
                    ),
                },
            },
        },
        Function::Comparison { .. } => Ok(DataType::Boolean),
        Function::Logic { .. } => Ok(DataType::Boolean),
        Function::ToTypeName { .. } => Ok(DataType::Utf8),
        Function::Example => Ok(DataType::Boolean),
        Function::Aggregate { agg_op, arg, .. } => if agg_op is Count {
            Ok(DataType::UInt64)
        } else {
            return_type_spec(*arg, schema)
        },
        Function::Average { arg, .. } => match return_type_spec(*arg, schema) {
            Err(e) => Err(e),
            Ok(t) => match coercion_spec(t, DataType::UInt64) {
                Some(r) => Ok(r),
                None => Err(
                    DataError::Unsupported {
                        op: Operator::Arithmetic(DataValueArithmeticOperator::Div),
                        left: t,
                        right: DataType::UInt64,
                    },
                ),
            },
        },
    }
}

/// Whether an expression may yield null over a schema.
pub open spec fn nullable_spec(f: Function, schema: DataSchema) -> Result<bool, DataError>
    decreases f,
{
    match f {
        Function::Column { name } => match schema_column_index(schema.fields@, name@) {
            Some(i) => Ok(schema.fields@[i].nullable),
            None => Err(DataError::ColumnNotFound { name }),
        },
        Function::Literal { value } => Ok(value is Null),
        Function::Alias { arg, .. } => nullable_spec(*arg, schema),
        _ => Ok(false),
    }
}

/// What an expression evaluates to over a block.
pub open spec fn eval_spec(f: Function, b: DataBlock) -> Result<ColumnView, DataError>
    decreases f,
{
    match f {
        Function::Column { name } => match column_index(b, name@) {
            Some(i) => Ok(ColumnView::Array(b.columns@[i].data_type, b.columns@[i].values@)),
            None => Err(DataError::ColumnNotFound { name }),
        },
        Function::Literal { value } => Ok(ColumnView::Scalar(value)),
        Function::Alias { arg, .. } => eval_spec(*arg, b),
        Function::Arithmetic { arith_op, left, right } => match eval_spec(*left, b) {
            Err(e) => Err(e),
            Ok(l) => match eval_spec(*right, b) {
                Err(e) => Err(e),
                Ok(r) => match arithmetic_array_spec(arith_op, l, r) {
                    Ok((t, vals)) => Ok(ColumnView::Array(t, vals)),
                    Err(e) => Err(e),
                },
            },
        },
        Function::Comparison { cmp_op, left, right } => match eval_spec(*left, b) {
            Err(e) => Err(e),
            Ok(l) => match eval_spec(*right, b) {
                Err(e) => Err(e),
                Ok(r) => match comparison_array_spec(cmp_op, l, r) {
                    Ok(vals) => Ok(ColumnView::Array(DataType::Boolean, vals)),
                    Err(e) => Err(e),
                },
            },
        },
        Function::Logic { logic_op, left, right } => match eval_spec(*left, b) {
            Err(e) => Err(e),
            Ok(l) => match eval_spec(*right, b) {
                Err(e) => Err(e),
                Ok(r) => match logic_array_spec(logic_op, l, r) {
                    Ok(vals) => Ok(ColumnView::Array(DataType::Boolean, vals)),
                    Err(e) => Err(e),
                },
            },
        },
        Function::ToTypeName { arg, names } => match return_type_spec(*arg, b.schema) {
            Ok(t) => Ok(ColumnView::Scalar(DataValue::String(names.get_spec(t)))),
            Err(e) => Err(e),
        },
        Function::Example => Ok(ColumnView::Scalar(DataValue::Boolean(true))),
        Function::Aggregate { arg, .. } => eval_spec(*arg, b),
        Function::Average { arg, .. } => eval_spec(*arg, b),
    }
}

/// How a value is written in an expression's rendering.
pub open spec fn value_display(v: DataValue) -> Seq<char> {
    match v {
        DataValue::Null => "NULL"@,
        DataValue::Boolean(b) => if b { "true"@ } else { "false"@ },
        DataValue::String(s) => s@,
        _ => decimal(v.int_spec()),
    }
}

/// The canonical rendering of an expression: arguments in the order they
/// were given.
pub open spec fn display_spec(f: Function) -> Seq<char>
    decreases f,
{
    match f {
        Function::Column { name } => name@,
        Function::Literal { value } => value_display(value),
        Function::Alias { alias, arg } => display_spec(*arg) + " as "@ + alias@,
        Function::Arithmetic { arith_op, left, right } => arith_op.name_spec() + "("@
            + display_spec(*left) + ", "@ + display_spec(*right) + ")"@,
        Function::Comparison { cmp_op, left, right } => display_spec(*left) + " "@
            + cmp_op.name_spec() + " "@ + display_spec(*right),
        Function::Logic { logic_op, left, right } => display_spec(*left) + " "@
            + logic_op.name_spec() + " "@ + display_spec(*right),
        Function::ToTypeName { arg, .. } => "toTypeName("@ + display_spec(*arg) + ")"@,
        Function::Example => "example()"@,
        Function::Aggregate { agg_op, arg, .. } => agg_op.name_spec() + "("@ + display_spec(*arg)
            + ")"@,
        Function::Average { arg, .. } => "avg("@ + display_spec(*arg) + ")"@,
    }
}

/// Renders a value as `value_display` states.
pub fn format_value(v: &DataValue) -> (r: String)
    ensures
        r@ == value_display(*v),
{
    match v {
        DataValue::Null => String::from_str("NULL"),
        DataValue::Boolean(b) => if *b {
            String::from_str("true")
        } else {
            String::from_str("false")
        },
        DataValue::String(s) => s.clone(),
        _ => format_decimal(v.to_i128()),
    }
}

/// The name of every type, one string each.
#[derive(Debug)]
pub struct TypeNames {
    pub null: String,
    pub boolean: String,
    pub int8: String,
    pub int16: String,
    pub int32: String,
    pub int64: String,
    pub uint8: String,
    pub uint16: String,
    pub uint32: String,
    pub uint64: String,
    pub float32: String,
    pub float64: String,
    pub utf8: String,
}

impl Clone for TypeNames {
    fn clone(&self) -> (r: Self)
        ensures
            r == *self,
    {
        TypeNames {
            null: self.null.clone(),
            boolean: self.boolean.clone(),
            int8: self.int8.clone(),
            int16: self.int16.clone(),
            int32: self.int32.clone(),
            int64: self.int64.clone(),
            uint8: self.uint8.clone(),
            uint16: self.uint16.clone(),
            uint32: self.uint32.clone(),
            uint64: self.uint64.clone(),
            float32: self.float32.clone(),
            float64: self.float64.clone(),
            utf8: self.utf8.clone(),
        }
    }
}

impl TypeNames {
    pub open spec fn get_spec(self, t: DataType) -> String {
        match t {
            DataType::Null => self.null,
            DataType::Boolean => self.boolean,
            DataType::Int8 => self.int8,
            DataType::Int16 => self.int16,
            DataType::Int32 => self.int32,
            DataType::Int64 => self.int64,
            DataType::UInt8 => self.uint8,
            DataType::UInt16 => self.uint16,
            DataType::UInt32 => self.uint32,
            DataType::UInt64 => self.uint64,
            DataType::Float32 => self.float32,
            DataType::Float64 => self.float64,
            DataType::Utf8 => self.utf8,
        }
    }

    /// Every type's entry is its name.
    pub open spec fn wf(self) -> bool {
        forall|t: DataType| #[trigger] self.get_spec(t)@ == t.name_spec()
    }

    /// The table of names as `toTypeName` reports them.
    pub fn new() -> (r: TypeNames)
        ensures
            r.wf(),
    {
        TypeNames {
            null: DataType::Null.name(),
            boolean: DataType::Boolean.name(),
            int8: DataType::Int8.name(),
            int16: DataType::Int16.name(),
            int32: DataType::Int32.name(),
            int64: DataType::Int64.name(),
            uint8: DataType::UInt8.name(),
            uint16: DataType::UInt16.name(),
            uint32: DataType::UInt32.name(),
            uint64: DataType::UInt64.name(),
            float32: DataType::Float32.name(),
            float64: DataType::Float64.name(),
            utf8: DataType::Utf8.name(),
        }
    }

    pub fn get(&self, t: DataType) -> (r: &String)
        ensures
            *r == self.get_spec(t),
    {
        match t {
            DataType::Null => &self.null,
            DataType::Boolean => &self.boolean,
            DataType::Int8 => &self.int8,
            DataType::Int16 => &self.int16,
            DataType::Int32 => &self.int32,
            DataType::Int64 => &self.int64,
            DataType::UInt8 => &self.uint8,
            DataType::UInt16 => &self.uint16,
            DataType::UInt32 => &self.uint32,
            DataType::UInt64 => &self.uint64,
            DataType::Float32 => &self.float32,
            DataType::Float64 => &self.float64,
            DataType::Utf8 => &self.utf8,
        }
    }
}

/// A `toTypeName` node with the full table of names evaluates to the name
/// of its argument's type.
pub proof fn lemma_type_name_eval(arg: Function, names: TypeNames, b: DataBlock)
    requires
        names.wf(),
    ensures
        match (eval_spec(Function::ToTypeName { arg: Box::new(arg), names }, b), return_type_spec(arg, b.schema)) {
            (Ok(c), Ok(t)) => c matches ColumnView::Scalar(DataValue::String(s)) && s@
                == t.name_spec(),
            (Err(e1), Err(e2)) => e1 == e2,
            _ => false,
        },
{
    match return_type_spec(arg, b.schema) {
        Ok(t) => {
            assert(names.get_spec(t)@ == t.name_spec());
        },
        Err(_) => {},
    }
}

fn join3(a: String, b: &str, c: &str) -> (r: String)
    ensures
        r@ == a@ + b@ + c@,
{
    let mut r = a;
    r.append(b);
    r.append(c);
    r
}

impl Function {
    /// The type the expression yields over `schema`, read from the schema
    /// alone.
    pub fn return_type(&self, schema: &DataSchema) -> (r: Result<DataType, DataError>)
        ensures
            r == return_type_spec(*self, *schema),
        decreases self,
    {
        match self {
            Function::Column { name } => match schema.resolve(name.as_str()) {
                Ok(i) => {
                    proof {
                        lemma_schema_column_index(schema.fields@, name@);
                    }
                    Ok(schema.fields[i].data_type)
                },
                Err(_) => Err(DataError::ColumnNotFound { name: name.clone() }),
            },
            Function::Literal { value } => Ok(value.data_type()),
            Function::Alias { arg, .. } => arg.return_type(schema),
            Function::Arithmetic { arith_op, left, right } => {
                let lt = match left.return_type(schema) {
                    Ok(t) => t,
                    Err(e) => {
                        return Err(e);
                    },
                };
                let rt = match right.return_type(schema) {
                    Ok(t) => t,
                    Err(e) => {
                        return Err(e);
                    },
                };
                match numerical_coercion(&lt, &rt) {
                    Ok(t) => Ok(t),
                    Err(_) => Err(
                        DataError::Unsupported {
                            op: Operator::Arithmetic(*arith_op),
                            left: lt,
                            right: rt,
                        },
                    ),
                }
            },
            Function::Comparison { .. } => Ok(DataType::Boolean),
            Function::Logic { .. } => Ok(DataType::Boolean),
            Function::ToTypeName { .. } => Ok(DataType::Utf8),
            Function::Example => Ok(DataType::Boolean),
            Function::Aggregate { agg_op, arg, .. } => {
                if *agg_op == DataValueAggregateOperator::Count {
                    Ok(DataType::UInt64)
                } else {
                    arg.return_type(schema)
                }
            },
            Function::Average { arg, .. } => {
                let t = match arg.return_type(schema) {
                    Ok(t) => t,
                    Err(e) => {
                        return Err(e);
                    },
                };
                match numerical_coercion(&t, &DataType::UInt64) {
                    Ok(r) => Ok(r),
                    Err(_) => Err(
                        DataError::Unsupported {
                            op: Operator::Arithmetic(DataValueArithmeticOperator::Div),
                            left: t,
                            right: DataType::UInt64,
                        },
                    ),
                }
            },
        }
    }

    /// Whether the expression may yield null over `schema`.
    pub fn nullable(&self, schema: &DataSchema) -> (r: Result<bool, DataError>)
        ensures
            r == nullable_spec(*self, *schema),
        decreases self,
    {
        match self {
            Function::Column { name } => match schema.resolve(name.as_str()) {
                Ok(i) => {
                    proof {
                        lemma_schema_column_index(schema.fields@, name@);
                    }
                    Ok(schema.fields[i].nullable)
                },
                Err(_) => Err(DataError::ColumnNotFound { name: name.clone() }),
            },
            Function::Literal { value } => Ok(value.is_null()),
            Function::Alias { arg, .. } => arg.nullable(schema),
            _ => Ok(false),
        }
    }

    /// Evaluates the expression over a block.
    pub fn eval(&self, block: &DataBlock) -> (r: Result<DataColumnarValue, DataError>)
        requires
            block.wf(),
        ensures
            r matches Ok(c) ==> c.wf(),
            match (r, eval_spec(*self, *block)) {
                (Ok(c), Ok(v)) => c@ == v,
                (Err(e1), Err(e2)) => e1 == e2,
                _ => false,
            },
        decreases self,
    {
        match self {
            Function::Column { name } => match block.column_index_of(name.as_str()) {
                Ok(i) => {
                    proof {
                        lemma_column_index_bound(*block, name@);
                    }
                    Ok(DataColumnarValue::Array(block.columns[i].clone()))
                },
                Err(_) => Err(DataError::ColumnNotFound { name: name.clone() }),
            },
            Function::Literal { value } => Ok(DataColumnarValue::Scalar(value.clone())),
            Function::Alias { arg, .. } => arg.eval(block),
            Function::Arithmetic { arith_op, left, right } => {
                let l = match left.eval(block) {
                    Ok(c) => c,
                    Err(e) => {
                        return Err(e);
                    },
                };
                let r = match right.eval(block) {
                    Ok(c) => c,
                    Err(e) => {
                        return Err(e);
                    },
                };
                match data_array_arithmetic_op(*arith_op, &l, &r) {
                    Ok(a) => Ok(DataColumnarValue::Array(a)),
                    Err(e) => Err(e),
                }
            },
            Function::Comparison { cmp_op, left, right } => {
                let l = match left.eval(block) {
                    Ok(c) => c,
                    Err(e) => {
                        return Err(e);
                    },
                };
                let r = match right.eval(block) {
                    Ok(c) => c,
                    Err(e) => {
                        return Err(e);
                    },
                };
                match data_array_comparison_op(*cmp_op, &l, &r) {
                    Ok(a) => Ok(DataColumnarValue::Array(a)),
                    Err(e) => Err(e),
                }
            },
            Function::Logic { logic_op, left, right } => {
                let l = match left.eval(block) {
                    Ok(c) => c,
                    Err(e) => {
                        return Err(e);
                    },
                };
                let r = match right.eval(block) {
                    Ok(c) => c,
                    Err(e) => {
                        return Err(e);
                    },
                };
                match data_array_logic_op(*logic_op, &l, &r) {
                    Ok(a) => Ok(DataColumnarValue::Array(a)),
                    Err(e) => Err(e),
                }
            },
            Function::ToTypeName { arg, names } => match arg.return_type(&block.schema) {
                Ok(t) => Ok(DataColumnarValue::Scalar(DataValue::String(names.get(t).clone()))),
                Err(e) => Err(e),
            },
            Function::Example => Ok(DataColumnarValue::Scalar(DataValue::Boolean(true))),
            Function::Aggregate { arg, .. } => arg.eval(block),
            Function::Average { arg, .. } => arg.eval(block),
        }
    }

    /// The canonical rendering of the expression.
    pub fn display(&self) -> (r: String)
        ensures
            r@ == display_spec(*self),
        decreases self,
    {
        match self {
            Function::Column { name } => name.clone(),
            Function::Literal { value } => format_value(value),
            Function::Alias { alias, arg } => join3(arg.display(), " as ", alias.as_str()),
            Function::Arithmetic { arith_op, left, right } => {
                let head = join3(arith_op.name(), "(", left.display().as_str());
                let body = join3(head, ", ", right.display().as_str());
                let r = body.concat(")");
                assert(r@ =~= display_spec(*self));
                r
            },
            Function::Comparison { cmp_op, left, right } => {
                let head = join3(left.display(), " ", cmp_op.name().as_str());
                let r = join3(head, " ", right.display().as_str());
                assert(r@ =~= display_spec(*self));
                r
            },
            Function::Logic { logic_op, left, right } => {
                let head = join3(left.display(), " ", logic_op.name().as_str());
                let r = join3(head, " ", right.display().as_str());
                assert(r@ =~= display_spec(*self));
                r
            },
            Function::ToTypeName { arg, .. } => join3(
                String::from_str("toTypeName("),
                arg.display().as_str(),
                ")",
            ),
            Function::Example => String::from_str("example()"),
            Function::Aggregate { agg_op, arg, .. } => {
                let r = join3(agg_op.name(), "(", arg.display().as_str()).concat(")");
                assert(r@ =~= display_spec(*self));
                r
            },
            Function::Average { arg, .. } => join3(
                String::from_str("avg("),
                arg.display().as_str(),
                ")",
            ),
        }
    }
}

} // verus!

verus! {

/// How many slots of the flattened state vector the tree's aggregates fill.
pub open spec fn num_states(f: Function) -> nat
    decreases f,
{
    match f {
        Function::Aggregate { .. } => 1,
        Function::Average { .. } => 2,
        Function::Alias { arg, .. } => num_states(*arg),
        Function::ToTypeName { arg, .. } => num_states(*arg),
        Function::Arithmetic { left, right, .. } => num_states(*left) + num_states(*right),
        Function::Comparison { left, right, .. } => num_states(*left) + num_states(*right),
        Function::Logic { left, right, .. } => num_states(*left) + num_states(*right),
        _ => 0,
    }
}

/// The tree with its aggregates numbered from `d`, left to right.
pub open spec fn with_depth(f: Function, d: nat) -> Function
    decreases f,
{
    match f {
        Function::Aggregate { agg_op, arg, state, .. } => Function::Aggregate {
            agg_op,
            arg,
            depth: d as usize,
            state,
        },
        Function::Average { arg, sum, count, .. } => Function::Average {
            arg,
            depth: d as usize,
            sum,
            count,
        },
        Function::Alias { alias, arg } => Function::Alias {
            alias,
            arg: Box::new(with_depth(*arg, d)),
        },
        Function::ToTypeName { arg, names } => Function::ToTypeName {
            arg: Box::new(with_depth(*arg, d)),
            names,
        },
        Function::Arithmetic { arith_op, left, right } => Function::Arithmetic {
            arith_op,
            left: Box::new(with_depth(*left, d)),
            right: Box::new(with_depth(*right, d + num_states(*left))),
        },
        Function::Comparison { cmp_op, left, right } => Function::Comparison {
            cmp_op,
            left: Box::new(with_depth(*left, d)),
            right: Box::new(with_depth(*right, d + num_states(*left))),
        },
        Function::Logic { logic_op, left, right } => Function::Logic {
            logic_op,
            left: Box::new(with_depth(*left, d)),
            right: Box::new(with_depth(*right, d + num_states(*left))),
        },
        _ => f,
    }
}

/// The states of the tree's aggregates, left to right.
pub open spec fn states_of(f: Function) -> Seq<DataValue>
    decreases f,
{
    match f {
        Function::Aggregate { state, .. } => seq![state],
        Function::Average { sum, count, .. } => seq![sum, count],
        Function::Alias { arg, .. } => states_of(*arg),
        Function::ToTypeName { arg, .. } => states_of(*arg),
        Function::Arithmetic { left, right, .. } => states_of(*left) + states_of(*right),
        Function::Comparison { left, right, .. } => states_of(*left) + states_of(*right),
        Function::Logic { left, right, .. } => states_of(*left) + states_of(*right),
        _ => Seq::empty(),
    }
}

/// The same tree with every aggregate state back to null.
pub open spec fn fresh(f: Function) -> Function
    decreases f,
{
    match f {
        Function::Aggregate { agg_op, arg, depth, .. } => Function::Aggregate {
            agg_op,
            arg: Box::new(fresh(*arg)),
            depth,
            state: DataValue::Null,
        },
        Function::Average { arg, depth, .. } => Function::Average {
            arg: Box::new(fresh(*arg)),
            depth,
            sum: DataValue::Null,
            count: DataValue::Null,
        },
        Function::Alias { alias, arg } => Function::Alias { alias, arg: Box::new(fresh(*arg)) },
        Function::ToTypeName { arg, names } => Function::ToTypeName {
            arg: Box::new(fresh(*arg)),
            names,
        },
        Function::Arithmetic { arith_op, left, right } => Function::Arithmetic {
            arith_op,
            left: Box::new(fresh(*left)),
            right: Box::new(fresh(*right)),
        },
        Function::Comparison { cmp_op, left, right } => Function::Comparison {
            cmp_op,
            left: Box::new(fresh(*left)),
            right: Box::new(fresh(*right)),
        },
        Function::Logic { logic_op, left, right } => Function::Logic {
            logic_op,
            left: Box::new(fresh(*left)),
            right: Box::new(fresh(*right)),
        },
        _ => f,
    }
}

/// Whether the node or any node below it is an aggregate.
pub open spec fn is_aggregator_spec(f: Function) -> bool
    decreases f,
{
    match f {
        Function::Aggregate { .. } => true,
        Function::Average { .. } => true,
        Function::Alias { arg, .. } => is_aggregator_spec(*arg),
        Function::ToTypeName { arg, .. } => is_aggregator_spec(*arg),
        Function::Arithmetic { left, right, .. } => is_aggregator_spec(*left) || is_aggregator_spec(
            *right,
        ),
        Function::Comparison { left, right, .. } => is_aggregator_spec(*left) || is_aggregator_spec(
            *right,
        ),
        Function::Logic { left, right, .. } => is_aggregator_spec(*left) || is_aggregator_spec(
            *right,
        ),
        _ => false,
    }
}

impl Function {
    /// The number of state slots the tree fills.
    pub fn state_count(&self) -> (r: usize)
        requires
            num_states(*self) <= usize::MAX,
        ensures
            r == num_states(*self),
        decreases self,
    {
        match self {
            Function::Aggregate { .. } => 1,
            Function::Average { .. } => 2,
            Function::Alias { arg, .. } => arg.state_count(),
            Function::ToTypeName { arg, .. } => arg.state_count(),
            Function::Arithmetic { left, right, .. } => left.state_count() + right.state_count(),
            Function::Comparison { left, right, .. } => left.state_count() + right.state_count(),
            Function::Logic { left, right, .. } => left.state_count() + right.state_count(),
            _ => 0,
        }
    }

    /// The number of state slots, or `None` when it does not fit in `usize`.
    pub fn state_count_checked(&self) -> (r: Option<usize>)
        ensures
            match r {
                Some(n) => n == num_states(*self),
                None => num_states(*self) > usize::MAX,
            },
        decreases self,
    {
        match self {
            Function::Aggregate { .. } => Some(1),
            Function::Average { .. } => Some(2),
            Function::Alias { arg, .. } => arg.state_count_checked(),
            Function::ToTypeName { arg, .. } => arg.state_count_checked(),
            Function::Arithmetic { left, right, .. } | Function::Comparison { left, right, .. }
            | Function::Logic { left, right, .. } => match (
                left.state_count_checked(),
                right.state_count_checked(),
            ) {
                (Some(a), Some(b)) => a.checked_add(b),
                _ => None,
            },
            _ => Some(0),
        }
    }

    fn into_depth(self, depth: usize) -> (r: Function)
        requires
            depth + num_states(self) <= usize::MAX,
        ensures
            r == with_depth(self, depth as nat),
        decreases self,
    {
        match self {
            Function::Aggregate { agg_op, arg, state, .. } => Function::Aggregate {
                agg_op,
                arg,
                depth,
                state,
            },
            Function::Average { arg, sum, count, .. } => Function::Average { arg, depth, sum, count },
            Function::Alias { alias, arg } => Function::Alias {
                alias,
                arg: Box::new((*arg).into_depth(depth)),
            },
            Function::ToTypeName { arg, names } => Function::ToTypeName {
                arg: Box::new((*arg).into_depth(depth)),
                names,
            },
            Function::Arithmetic { arith_op, left, right } => {
                let n = left.state_count();
                let l = (*left).into_depth(depth);
                let r = (*right).into_depth(depth + n);
                Function::Arithmetic { arith_op, left: Box::new(l), right: Box::new(r) }
            },
            Function::Comparison { cmp_op, left, right } => {
                let n = left.state_count();
                let l = (*left).into_depth(depth);
                let r = (*right).into_depth(depth + n);
                Function::Comparison { cmp_op, left: Box::new(l), right: Box::new(r) }
            },
            Function::Logic { logic_op, left, right } => {
                let n = left.state_count();
                let l = (*left).into_depth(depth);
                let r = (*right).into_depth(depth + n);
                Function::Logic { logic_op, left: Box::new(l), right: Box::new(r) }
            },
            other => other,
        }
    }

    /// Numbers the tree's aggregates from `depth`, left to right, so that
    /// each knows its slot in the flattened state vector.
    pub fn set_depth(&mut self, depth: usize)
        requires
            depth + num_states(*old(self)) <= usize::MAX,
        ensures
            *final(self) == with_depth(*old(self), depth as nat),
    {
        let mut f = Function::Example;
        std::mem::swap(self, &mut f);
        *self = f.into_depth(depth);
    }

    /// The current states of the tree's aggregates, left to right.
    pub fn accumulate_result(&self) -> (r: Result<Vec<DataValue>, DataError>)
        ensures
            r is Ok,
            r->Ok_0@ == states_of(*self),
        decreases self,
    {
        match self {
            Function::Aggregate { state, .. } => {
                let mut v: Vec<DataValue> = Vec::new();
                v.push(state.clone());
                assert(v@ =~= seq![*state]);
                Ok(v)
            },
            Function::Average { sum, count, .. } => {
                let mut v: Vec<DataValue> = Vec::new();
                v.push(sum.clone());
                v.push(count.clone());
                assert(v@ =~= seq![*sum, *count]);
                Ok(v)
            },
            Function::Alias { arg, .. } => arg.accumulate_result(),
            Function::ToTypeName { arg, .. } => arg.accumulate_result(),
            Function::Arithmetic { left, right, .. } | Function::Comparison { left, right, .. }
            | Function::Logic { left, right, .. } => {
                let mut l = match left.accumulate_result() {
                    Ok(v) => v,
                    Err(e) => {
                        return Err(e);
                    },
                };
                let mut r = match right.accumulate_result() {
                    Ok(v) => v,
                    Err(e) => {
                        return Err(e);
                    },
                };
                l.append(&mut r);
                Ok(l)
            },
            _ => Ok(Vec::new()),
        }
    }

    /// Whether the node or any node below it is an aggregate.
    pub fn is_aggregator(&self) -> (r: bool)
        ensures
            r == is_aggregator_spec(*self),
        decreases self,
    {
        match self {
            Function::Aggregate { .. } => true,
            Function::Average { .. } => true,
            Function::Alias { arg, .. } => arg.is_aggregator(),
            Function::ToTypeName { arg, .. } => arg.is_aggregator(),
            Function::Arithmetic { left, right, .. } => left.is_aggregator()
                || right.is_aggregator(),
            Function::Comparison { left, right, .. } => left.is_aggregator()
                || right.is_aggregator(),
            Function::Logic { left, right, .. } => left.is_aggregator() || right.is_aggregator(),
            _ => false,
        }
    }

    /// A copy of the tree whose aggregates start again from null: each
    /// evaluator instance keeps its own state.
    pub fn instantiate(&self) -> (r: Function)
        ensures
            r == fresh(*self),
        decreases self,
    {
        match self {
            Function::Column { name } => Function::Column { name: name.clone() },
            Function::Literal { value } => Function::Literal { value: value.clone() },
            Function::Alias { alias, arg } => Function::Alias {
                alias: alias.clone(),
                arg: Box::new(arg.instantiate()),
            },
            Function::ToTypeName { arg, names } => Function::ToTypeName {
                arg: Box::new(arg.instantiate()),
                names: names.clone(),
            },
            Function::Arithmetic { arith_op, left, right } => Function::Arithmetic {
                arith_op: *arith_op,
                left: Box::new(left.instantiate()),
                right: Box::new(right.instantiate()),
            },
            Function::Comparison { cmp_op, left, right } => Function::Comparison {
                cmp_op: *cmp_op,
                left: Box::new(left.instantiate()),
                right: Box::new(right.instantiate()),
            },
            Function::Logic { logic_op, left, right } => Function::Logic {
                logic_op: *logic_op,
                left: Box::new(left.instantiate()),
                right: Box::new(right.instantiate()),
            },
            Function::Example => Function::Example,
            Function::Aggregate { agg_op, arg, depth, .. } => Function::Aggregate {
                agg_op: *agg_op,
                arg: Box::new(arg.instantiate()),
                depth: *depth,
                state: DataValue::Null,
            },
            Function::Average { arg, depth, .. } => Function::Average {
                arg: Box::new(arg.instantiate()),
                depth: *depth,
                sum: DataValue::Null,
                count: DataValue::Null,
            },
        }
    }
}

impl Clone for Function {
    /// Cloning gives a fresh evaluator: aggregate states start from null.
    fn clone(&self) -> (r: Self)
        ensures
            r == fresh(*self),
    {
        self.instantiate()
    }
}

} // verus!

verus! {

/// Folds one more value into an aggregate's state: Count and Sum add, Min
/// and Max keep the smaller or larger.
pub open spec fn combine(op: DataValueAggregateOperator, state: DataValue, v: DataValue) -> Result<
    DataValue,
    DataError,
> {
    if op is Count || op is Sum {
        arithmetic_spec(DataValueArithmeticOperator::Plus, state, v)
    } else {
        aggregate_spec(op, state, v)
    }
}

/// Folds one value into a state, as `combine` states.
pub fn combine_state(op: DataValueAggregateOperator, state: DataValue, v: DataValue) -> (r: Result<
    DataValue,
    DataError,
>)
    ensures
        r == combine(op, state, v),
{
    if op == DataValueAggregateOperator::Count || op == DataValueAggregateOperator::Sum {
        data_value_arithmetic_op(DataValueArithmeticOperator::Plus, state, v)
    } else {
        data_value_aggregate_op(op, state, v)
    }
}

/// The rows of a columnar value over `n` rows.
pub open spec fn column_rows(c: ColumnView, n: nat) -> Seq<DataValue> {
    match c {
        ColumnView::Array(_, s) => s,
        ColumnView::Scalar(v) => Seq::new(n, |i: int| v),
    }
}

/// Folds one block into the tree's aggregate states, left to right; the
/// first failure stops there and leaves the rest as they were.
pub open spec fn accumulate_spec(f: Function, b: DataBlock) -> (Function, Result<(), DataError>)
    decreases f,
{
    match f {
        Function::Aggregate { agg_op, arg, depth, state } => match eval_spec(*arg, b) {
            Err(e) => (f, Err(e)),
            Ok(c) => match array_aggregate_spec(agg_op, column_rows(c, b.num_rows_spec())) {
                Err(e) => (f, Err(e)),
                Ok(p) => match combine(agg_op, state, p) {
                    Err(e) => (f, Err(e)),
                    Ok(s) => (Function::Aggregate { agg_op, arg, depth, state: s }, Ok(())),
                },
            },
        },
        Function::Average { arg, depth, sum, count } => match eval_spec(*arg, b) {
            Err(e) => (f, Err(e)),
            Ok(c) => match array_aggregate_spec(
                DataValueAggregateOperator::Sum,
                column_rows(c, b.num_rows_spec()),
            ) {
                Err(e) => (f, Err(e)),
                Ok(p) => match combine(DataValueAggregateOperator::Sum, sum, p) {
                    Err(e) => (f, Err(e)),
                    Ok(s) => match combine(
                        DataValueAggregateOperator::Count,
                        count,
                        DataValue::UInt64(count_non_null(column_rows(c, b.num_rows_spec())) as u64),
                    ) {
                        Err(e) => (f, Err(e)),
                        Ok(n) => (Function::Average { arg, depth, sum: s, count: n }, Ok(())),
                    },
                },
            },
        },
        Function::Alias { alias, arg } => {
            let (a, r) = accumulate_spec(*arg, b);
            (Function::Alias { alias, arg: Box::new(a) }, r)
        },
        Function::ToTypeName { arg, names } => {
            let (a, r) = accumulate_spec(*arg, b);
            (Function::ToTypeName { arg: Box::new(a), names }, r)
        },
        Function::Arithmetic { arith_op, left, right } => {
            let (l, lr) = accumulate_spec(*left, b);
            if lr is Err {
                (Function::Arithmetic { arith_op, left: Box::new(l), right }, lr)
            } else {
                let (r, rr) = accumulate_spec(*right, b);
                (Function::Arithmetic { arith_op, left: Box::new(l), right: Box::new(r) }, rr)
            }
        },
        Function::Comparison { cmp_op, left, right } => {
            let (l, lr) = accumulate_spec(*left, b);
            if lr is Err {
                (Function::Comparison { cmp_op, left: Box::new(l), right }, lr)
            } else {
                let (r, rr) = accumulate_spec(*right, b);
                (Function::Comparison { cmp_op, left: Box::new(l), right: Box::new(r) }, rr)
            }
        },
        Function::Logic { logic_op, left, right } => {
            let (l, lr) = accumulate_spec(*left, b);
            if lr is Err {
                (Function::Logic { logic_op, left: Box::new(l), right }, lr)
            } else {
                let (r, rr) = accumulate_spec(*right, b);
                (Function::Logic { logic_op, left: Box::new(l), right: Box::new(r) }, rr)
            }
        },
        _ => (f, Ok(())),
    }
}

/// Folds a peer's state vector into the tree: each aggregate takes the slot
/// at its depth; a depth past the vector's end is an error.
pub open spec fn merge_spec(f: Function, states: Seq<DataValue>) -> (Function, Result<(), DataError>)
    decreases f,
{
    match f {
        Function::Aggregate { agg_op, arg, depth, state } => if depth >= states.len() {
            (f, Err(DataError::DepthOutOfRange { depth, len: states.len() as usize }))
        } else {
            match combine(agg_op, state, states[depth as int]) {
                Err(e) => (f, Err(e)),
                Ok(s) => (Function::Aggregate { agg_op, arg, depth, state: s }, Ok(())),
            }
        },
        Function::Average { arg, depth, sum, count } => if depth + 1 >= states.len() {
            (f, Err(DataError::DepthOutOfRange { depth, len: states.len() as usize }))
        } else {
            match combine(DataValueAggregateOperator::Sum, sum, states[depth as int]) {
                Err(e) => (f, Err(e)),
                Ok(s) => match combine(DataValueAggregateOperator::Count, count, states[depth + 1]) {
                    Err(e) => (f, Err(e)),
                    Ok(n) => (Function::Average { arg, depth, sum: s, count: n }, Ok(())),
                },
            }
        },
        Function::Alias { alias, arg } => {
            let (a, r) = merge_spec(*arg, states);
            (Function::Alias { alias, arg: Box::new(a) }, r)
        },
        Function::ToTypeName { arg, names } => {
            let (a, r) = merge_spec(*arg, states);
            (Function::ToTypeName { arg: Box::new(a), names }, r)
        },
        Function::Arithmetic { arith_op, left, right } => {
            let (l, lr) = merge_spec(*left, states);
            if lr is Err {
                (Function::Arithmetic { arith_op, left: Box::new(l), right }, lr)
            } else {
                let (r, rr) = merge_spec(*right, states);
                (Function::Arithmetic { arith_op, left: Box::new(l), right: Box::new(r) }, rr)
            }
        },
        Function::Comparison { cmp_op, left, right } => {
            let (l, lr) = merge_spec(*left, states);
            if lr is Err {
                (Function::Comparison { cmp_op, left: Box::new(l), right }, lr)
            } else {
                let (r, rr) = merge_spec(*right, states);
                (Function::Comparison { cmp_op, left: Box::new(l), right: Box::new(r) }, rr)
            }
        },
        Function::Logic { logic_op, left, right } => {
            let (l, lr) = merge_spec(*left, states);
            if lr is Err {
                (Function::Logic { logic_op, left: Box::new(l), right }, lr)
            } else {
                let (r, rr) = merge_spec(*right, states);
                (Function::Logic { logic_op, left: Box::new(l), right: Box::new(r) }, rr)
            }
        },
        _ => (f, Ok(())),
    }
}

/// The final value of an aggregate expression: an aggregate's state, a
/// literal's value, arithmetic over those; other nodes have none.
pub open spec fn merge_result_spec(f: Function) -> Result<DataValue, DataError>
    decreases f,
{
    match f {
        Function::Aggregate { state, .. } => Ok(state),
        Function::Average { sum, count, .. } => if sum is Null {
            Ok(DataValue::Null)
        } else {
            arithmetic_spec(DataValueArithmeticOperator::Div, sum, count)
        },
        Function::Literal { value } => Ok(value),
        Function::Alias { arg, .. } => merge_result_spec(*arg),
        Function::Arithmetic { arith_op, left, right } => match merge_result_spec(*left) {
            Err(e) => Err(e),
            Ok(a) => match merge_result_spec(*right) {
                Err(e) => Err(e),
                Ok(b) => arithmetic_spec(arith_op, a, b),
            },
        },
        _ => Err(DataError::NotAggregate),
    }
}

impl Function {
    fn into_accumulated(self, block: &DataBlock) -> (r: (Function, Result<(), DataError>))
        requires
            block.wf(),
        ensures
            r == accumulate_spec(self, *block),
        decreases self,
    {
        match self {
            Function::Aggregate { agg_op, arg, depth, state } => {
                let c = match arg.eval(block) {
                    Ok(c) => c,
                    Err(e) => {
                        return (Function::Aggregate { agg_op, arg, depth, state }, Err(e));
                    },
                };
                let rows = block.num_rows();
                let arr = match c.to_array(rows) {
                    Ok(a) => a,
                    Err(e) => {
                        return (Function::Aggregate { agg_op, arg, depth, state }, Err(e));
                    },
                };
                let p = match data_array_aggregate_op(agg_op, &arr) {
                    Ok(p) => p,
                    Err(e) => {
                        return (Function::Aggregate { agg_op, arg, depth, state }, Err(e));
                    },
                };
                match combine_state(agg_op, state.clone(), p) {
                    Ok(s) => (Function::Aggregate { agg_op, arg, depth, state: s }, Ok(())),
                    Err(e) => (Function::Aggregate { agg_op, arg, depth, state }, Err(e)),
                }
            },
            Function::Average { arg, depth, sum, count } => {
                let c = match arg.eval(block) {
                    Ok(c) => c,
                    Err(e) => {
                        return (Function::Average { arg, depth, sum, count }, Err(e));
                    },
                };
                let rows = block.num_rows();
                let arr = match c.to_array(rows) {
                    Ok(a) => a,
                    Err(e) => {
                        return (Function::Average { arg, depth, sum, count }, Err(e));
                    },
                };
                let p = match data_array_aggregate_op(DataValueAggregateOperator::Sum, &arr) {
                    Ok(p) => p,
                    Err(e) => {
                        return (Function::Average { arg, depth, sum, count }, Err(e));
                    },
                };
                let k = match data_array_aggregate_op(DataValueAggregateOperator::Count, &arr) {
                    Ok(k) => k,
                    Err(e) => {
                        return (Function::Average { arg, depth, sum, count }, Err(e));
                    },
                };
                let s = match combine_state(DataValueAggregateOperator::Sum, sum.clone(), p) {
                    Ok(s) => s,
                    Err(e) => {
                        return (Function::Average { arg, depth, sum, count }, Err(e));
                    },
                };
                match combine_state(DataValueAggregateOperator::Count, count.clone(), k) {
                    Ok(n) => (Function::Average { arg, depth, sum: s, count: n }, Ok(())),
                    Err(e) => (Function::Average { arg, depth, sum, count }, Err(e)),
                }
            },
            Function::Alias { alias, arg } => {
                let (a, r) = (*arg).into_accumulated(block);
                (Function::Alias { alias, arg: Box::new(a) }, r)
            },
            Function::ToTypeName { arg, names } => {
                let (a, r) = (*arg).into_accumulated(block);
                (Function::ToTypeName { arg: Box::new(a), names }, r)
            },
            Function::Arithmetic { arith_op, left, right } => {
                let (l, lr) = (*left).into_accumulated(block);
                if lr.is_err() {
                    (Function::Arithmetic { arith_op, left: Box::new(l), right }, lr)
                } else {
                    let (r, rr) = (*right).into_accumulated(block);
                    (Function::Arithmetic { arith_op, left: Box::new(l), right: Box::new(r) }, rr)
                }
            },
            Function::Comparison { cmp_op, left, right } => {
                let (l, lr) = (*left).into_accumulated(block);
                if lr.is_err() {
                    (Function::Comparison { cmp_op, left: Box::new(l), right }, lr)
                } else {
                    let (r, rr) = (*right).into_accumulated(block);
                    (Function::Comparison { cmp_op, left: Box::new(l), right: Box::new(r) }, rr)
                }
            },
            Function::Logic { logic_op, left, right } => {
                let (l, lr) = (*left).into_accumulated(block);
                if lr.is_err() {
                    (Function::Logic { logic_op, left: Box::new(l), right }, lr)
                } else {
                    let (r, rr) = (*right).into_accumulated(block);
                    (Function::Logic { logic_op, left: Box::new(l), right: Box::new(r) }, rr)
                }
            },
            other => (other, Ok(())),
        }
    }

    /// Folds every row of `block` into the tree's aggregate states.
    pub fn accumulate(&mut self, block: &DataBlock) -> (r: Result<(), DataError>)
        requires
            block.wf(),
        ensures
            (*final(self), r) == accumulate_spec(*old(self), *block),
    {
        let mut f = Function::Example;
        std::mem::swap(self, &mut f);
        let (g, r) = f.into_accumulated(block);
        *self = g;
        r
    }

    fn into_merged(self, states: &[DataValue]) -> (r: (Function, Result<(), DataError>))
        ensures
            r == merge_spec(self, states@),
        decreases self,
    {
        match self {
            Function::Aggregate { agg_op, arg, depth, state } => {
                if depth >= states.len() {
                    return (
                        Function::Aggregate { agg_op, arg, depth, state },
                        Err(DataError::DepthOutOfRange { depth, len: states.len() }),
                    );
                }
                match combine_state(agg_op, state.clone(), states[depth].clone()) {
                    Ok(s) => (Function::Aggregate { agg_op, arg, depth, state: s }, Ok(())),
                    Err(e) => (Function::Aggregate { agg_op, arg, depth, state }, Err(e)),
                }
            },
            Function::Average { arg, depth, sum, count } => {
                if states.len() < 2 || depth > states.len() - 2 {
                    return (
                        Function::Average { arg, depth, sum, count },
                        Err(DataError::DepthOutOfRange { depth, len: states.len() }),
                    );
                }
                let s = match combine_state(
                    DataValueAggregateOperator::Sum,
                    sum.clone(),
                    states[depth].clone(),
                ) {
                    Ok(s) => s,
                    Err(e) => {
                        return (Function::Average { arg, depth, sum, count }, Err(e));
                    },
                };
                match combine_state(
                    DataValueAggregateOperator::Count,
                    count.clone(),
                    states[depth + 1].clone(),
                ) {
                    Ok(n) => (Function::Average { arg, depth, sum: s, count: n }, Ok(())),
                    Err(e) => (Function::Average { arg, depth, sum, count }, Err(e)),
                }
            },
            Function::Alias { alias, arg } => {
                let (a, r) = (*arg).into_merged(states);
                (Function::Alias { alias, arg: Box::new(a) }, r)
            },
            Function::ToTypeName { arg, names } => {
                let (a, r) = (*arg).into_merged(states);
                (Function::ToTypeName { arg: Box::new(a), names }, r)
            },
            Function::Arithmetic { arith_op, left, right } => {
                let (l, lr) = (*left).into_merged(states);
                if lr.is_err() {
                    (Function::Arithmetic { arith_op, left: Box::new(l), right }, lr)
                } else {
                    let (r, rr) = (*right).into_merged(states);
                    (Function::Arithmetic { arith_op, left: Box::new(l), right: Box::new(r) }, rr)
                }
            },
            Function::Comparison { cmp_op, left, right } => {
                let (l, lr) = (*left).into_merged(states);
                if lr.is_err() {
                    (Function::Comparison { cmp_op, left: Box::new(l), right }, lr)
                } else {
                    let (r, rr) = (*right).into_merged(states);
                    (Function::Comparison { cmp_op, left: Box::new(l), right: Box::new(r) }, rr)
                }
            },
            Function::Logic { logic_op, left, right } => {
                let (l, lr) = (*left).into_merged(states);
                if lr.is_err() {
                    (Function::Logic { logic_op, left: Box::new(l), right }, lr)
                } else {
                    let (r, rr) = (*right).into_merged(states);
                    (Function::Logic { logic_op, left: Box::new(l), right: Box::new(r) }, rr)
                }
            },
            other => (other, Ok(())),
        }
    }

    /// Folds a peer's partial state vector into the tree's states.
    pub fn merge(&mut self, states: &[DataValue]) -> (r: Result<(), DataError>)
        ensures
            (*final(self), r) == merge_spec(*old(self), states@),
    {
        let mut f = Function::Example;
        std::mem::swap(self, &mut f);
        let (g, r) = f.into_merged(states);
        *self = g;
        r
    }

    /// The final value of the expression from its merged states.
    pub fn merge_result(&self) -> (r: Result<DataValue, DataError>)
        ensures
            r == merge_result_spec(*self),
        decreases self,
    {
        match self {
            Function::Aggregate { state, .. } => Ok(state.clone()),
            Function::Average { sum, count, .. } => {
                if sum.is_null() {
                    Ok(DataValue::Null)
                } else {
                    data_value_arithmetic_op(DataValueArithmeticOperator::Div, sum.clone(), count.clone())
                }
            },
            Function::Literal { value } => Ok(value.clone()),
            Function::Alias { arg, .. } => arg.merge_result(),
            Function::Arithmetic { arith_op, left, right } => {
                let a = match left.merge_result() {
                    Ok(v) => v,
                    Err(e) => {
                        return Err(e);
                    },
                };
                let b = match right.merge_result() {
                    Ok(v) => v,
                    Err(e) => {
                        return Err(e);
                    },
                };
                data_value_arithmetic_op(*arith_op, a, b)
            },
            _ => Err(DataError::NotAggregate),
        }
    }
}

} // verus!
