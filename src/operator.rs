use vstd::prelude::*;

verus! {

/// Element-wise arithmetic operators.
#[derive(Clone, Copy, Debug, PartialEq, Eq, Structural)]
pub enum DataValueArithmeticOperator {
    Plus,
    Minus,
    Mul,
    Div,
    Modulo,
}

/// Element-wise comparison operators; each yields a boolean.
#[derive(Clone, Copy, Debug, PartialEq, Eq, Structural)]
pub enum DataValueComparisonOperator {
    Eq,
    Lt,
    LtEq,
    Gt,
    GtEq,
    NotEq,
}

/// Boolean connectives over two boolean arrays.
#[derive(Clone, Copy, Debug, PartialEq, Eq, Structural)]
pub enum DataValueLogicOperator {
    And,
    Or,
}

/// The folds used by aggregate functions.
#[derive(Clone, Copy, Debug, PartialEq, Eq, Structural)]
pub enum DataValueAggregateOperator {
    Min,
    Max,
    Sum,
    Count,
}

/// Any operator, as named in an error report.
#[derive(Clone, Copy, Debug, PartialEq, Eq, Structural)]
pub enum Operator {
    Arithmetic(DataValueArithmeticOperator),
    Comparison(DataValueComparisonOperator),
    Logic(DataValueLogicOperator),
    Aggregate(DataValueAggregateOperator),
}

impl DataValueArithmeticOperator {
    pub open spec fn name_spec(self) -> Seq<char> {
        match self {
            DataValueArithmeticOperator::Plus => "plus"@,
            DataValueArithmeticOperator::Minus => "minus"@,
            DataValueArithmeticOperator::Mul => "multiply"@,
            DataValueArithmeticOperator::Div => "divide"@,
            DataValueArithmeticOperator::Modulo => "modulo"@,
        }
    }

    /// The function name under which the operator is rendered.
    pub fn name(&self) -> (r: String)
        ensures
            r@ == self.name_spec(),
    {
        match self {
            DataValueArithmeticOperator::Plus => String::from_str("plus"),
            DataValueArithmeticOperator::Minus => String::from_str("minus"),
            DataValueArithmeticOperator::Mul => String::from_str("multiply"),
            DataValueArithmeticOperator::Div => String::from_str("divide"),
            DataValueArithmeticOperator::Modulo => String::from_str("modulo"),
        }
    }
}

impl DataValueComparisonOperator {
    pub open spec fn name_spec(self) -> Seq<char> {
        match self {
            DataValueComparisonOperator::Eq => "="@,
            DataValueComparisonOperator::Lt => "<"@,
            DataValueComparisonOperator::LtEq => "<="@,
            DataValueComparisonOperator::Gt => ">"@,
            DataValueComparisonOperator::GtEq => ">="@,
            DataValueComparisonOperator::NotEq => "!="@,
        }
    }

    /// The infix symbol of the operator.
    pub fn name(&self) -> (r: String)
        ensures
            r@ == self.name_spec(),
    {
        match self {
            DataValueComparisonOperator::Eq => String::from_str("="),
            DataValueComparisonOperator::Lt => String::from_str("<"),
            DataValueComparisonOperator::LtEq => String::from_str("<="),
            DataValueComparisonOperator::Gt => String::from_str(">"),
            DataValueComparisonOperator::GtEq => String::from_str(">="),
            DataValueComparisonOperator::NotEq => String::from_str("!="),
        }
    }
}

impl DataValueLogicOperator {
    pub open spec fn name_spec(self) -> Seq<char> {
        match self {
            DataValueLogicOperator::And => "and"@,
            DataValueLogicOperator::Or => "or"@,
        }
    }

    /// The infix word of the operator.
    pub fn name(&self) -> (r: String)
        ensures
            r@ == self.name_spec(),
    {
        match self {
            DataValueLogicOperator::And => String::from_str("and"),
            DataValueLogicOperator::Or => String::from_str("or"),
        }
    }
}

impl DataValueAggregateOperator {
    pub open spec fn name_spec(self) -> Seq<char> {
        match self {
            DataValueAggregateOperator::Min => "min"@,
            DataValueAggregateOperator::Max => "max"@,
            DataValueAggregateOperator::Sum => "sum"@,
            DataValueAggregateOperator::Count => "count"@,
        }
    }

    /// The function name under which the fold is rendered.
    pub fn name(&self) -> (r: String)
        ensures
            r@ == self.name_spec(),
    {
        match self {
            DataValueAggregateOperator::Min => String::from_str("min"),
            DataValueAggregateOperator::Max => String::from_str("max"),
            DataValueAggregateOperator::Sum => String::from_str("sum"),
            DataValueAggregateOperator::Count => String::from_str("count"),
        }
    }
}

} // verus!
