use vstd::prelude::*;

use crate::data_type::DataType;
use crate::operator::Operator;

verus! {

/// Every failure that the library reports; none of them is fatal to the process.
#[derive(Clone, Debug, PartialEq, Eq)]
pub enum DataError {
    /// The operator has no rule for this pair of operand types.
    Unsupported { op: Operator, left: DataType, right: DataType },
    /// The two types have no common numeric type.
    Coercion { left: DataType, right: DataType },
    /// The exact result does not fit in the result type.
    Overflow { op: Operator, left: DataType, right: DataType },
    /// Integer division or remainder by zero.
    DivisionByZero,
    /// Two arrays of different lengths were combined element-wise.
    LengthMismatch { left_len: usize, right_len: usize },
    /// A column name that the schema does not hold.
    ColumnNotFound { name: String },
    /// A function was given the wrong number of arguments.
    ArgumentCount { function: String, expected: usize, actual: usize },
    /// A function name that the registry does not hold.
    UnknownFunction { name: String },
    /// An aggregate's depth has no slot in the state vector it was given.
    DepthOutOfRange { depth: usize, len: usize },
    /// An aggregate-only capability was asked of a node without aggregate state.
    NotAggregate,
    /// A query context with this id is already live.
    DuplicateContext { id: String },
    /// No query context has this id.
    UnknownContext { id: String },
    /// An operation the table does not offer.
    Unimplemented { what: String },
    /// Two fields of a schema share a name.
    DuplicateField,
    /// A computed column does not have its field's type.
    SchemaMismatch { index: usize },
    /// A pipeline operation that its current shape does not allow.
    Pipeline { terminals: usize },
}

} // verus!
