use vstd::prelude::*;

use crate::data_type::{coercion_spec, numerical_coercion, DataType};
use crate::error::DataError;
use crate::operator::{
    DataValueAggregateOperator, DataValueArithmeticOperator, DataValueComparisonOperator, Operator,
};
use crate::strings::{str_lt, string_lt};

verus! {

/// A single scalar: null, or one value of a non-float type.
#[derive(Debug, PartialEq, Eq)]
pub enum DataValue {
    Null,
    Boolean(bool),
    Int8(i8),
    Int16(i16),
    Int32(i32),
    Int64(i64),
    UInt8(u8),
    UInt16(u16),
    UInt32(u32),
    UInt64(u64),
    String(String),
}

impl Clone for DataValue {
    fn clone(&self) -> (r: Self)
        ensures
            r == *self,
    {
        match self {
            DataValue::Null => DataValue::Null,
            DataValue::Boolean(v) => DataValue::Boolean(*v),
            DataValue::Int8(v) => DataValue::Int8(*v),
            DataValue::Int16(v) => DataValue::Int16(*v),
            DataValue::Int32(v) => DataValue::Int32(*v),
            DataValue::Int64(v) => DataValue::Int64(*v),
            DataValue::UInt8(v) => DataValue::UInt8(*v),
            DataValue::UInt16(v) => DataValue::UInt16(*v),
            DataValue::UInt32(v) => DataValue::UInt32(*v),
            DataValue::UInt64(v) => DataValue::UInt64(*v),
            DataValue::String(s) => DataValue::String(s.clone()),
        }
    }
}

impl DataValue {
    pub open spec fn data_type_spec(self) -> DataType {
        match self {
            DataValue::Null => DataType::Null,
            DataValue::Boolean(_) => DataType::Boolean,
            DataValue::Int8(_) => DataType::Int8,
            DataValue::Int16(_) => DataType::Int16,
            DataValue::Int32(_) => DataType::Int32,
            DataValue::Int64(_) => DataType::Int64,
            DataValue::UInt8(_) => DataType::UInt8,
            DataValue::UInt16(_) => DataType::UInt16,
            DataValue::UInt32(_) => DataType::UInt32,
            DataValue::UInt64(_) => DataType::UInt64,
            DataValue::String(_) => DataType::Utf8,
        }
    }

    /// The payload of an integer value as a mathematical integer.
    pub open spec fn int_spec(self) -> int {
        match self {
            DataValue::Int8(v) => v as int,
            DataValue::Int16(v) => v as int,
            DataValue::Int32(v) => v as int,
            DataValue::Int64(v) => v as int,
            DataValue::UInt8(v) => v as int,
            DataValue::UInt16(v) => v as int,
            DataValue::UInt32(v) => v as int,
            DataValue::UInt64(v) => v as int,
            _ => 0,
        }
    }

    pub open spec fn is_integer(self) -> bool {
        self.data_type_spec().is_integer_spec()
    }

    pub fn data_type(&self) -> (r: DataType)
        ensures
            r == self.data_type_spec(),
    {
        match self {
            DataValue::Null => DataType::Null,
            DataValue::Boolean(_) => DataType::Boolean,
            DataValue::Int8(_) => DataType::Int8,
            DataValue::Int16(_) => DataType::Int16,
            DataValue::Int32(_) => DataType::Int32,
            DataValue::Int64(_) => DataType::Int64,
            DataValue::UInt8(_) => DataType::UInt8,
            DataValue::UInt16(_) => DataType::UInt16,
            DataValue::UInt32(_) => DataType::UInt32,
            DataValue::UInt64(_) => DataType::UInt64,
            DataValue::String(_) => DataType::Utf8,
        }
    }

    pub fn is_null(&self) -> (r: bool)
        ensures
            r == (*self is Null),
    {
        match self {
            DataValue::Null => true,
            _ => false,
        }
    }

    /// The payload of an integer value, widened.
    pub fn to_i128(&self) -> (r: i128)
        requires
            self.is_integer(),
        ensures
            r as int == self.int_spec(),
            self.data_type_spec().in_range(r as int),
    {
        match self {
            DataValue::Int8(v) => *v as i128,
            DataValue::Int16(v) => *v as i128,
            DataValue::Int32(v) => *v as i128,
            DataValue::Int64(v) => *v as i128,
            DataValue::UInt8(v) => *v as i128,
            DataValue::UInt16(v) => *v as i128,
            DataValue::UInt32(v) => *v as i128,
            DataValue::UInt64(v) => *v as i128,
            _ => 0,
        }
    }
}

/// The value of integer type `t` that holds `i`.
pub open spec fn int_value(t: DataType, i: int) -> DataValue {
    match t {
        DataType::Int8 => DataValue::Int8(i as i8),
        DataType::Int16 => DataValue::Int16(i as i16),
        DataType::Int32 => DataValue::Int32(i as i32),
        DataType::Int64 => DataValue::Int64(i as i64),
        DataType::UInt8 => DataValue::UInt8(i as u8),
        DataType::UInt16 => DataValue::UInt16(i as u16),
        DataType::UInt32 => DataValue::UInt32(i as u32),
        _ => DataValue::UInt64(i as u64),
    }
}

pub proof fn lemma_int_value(t: DataType, i: int)
    requires
        t.is_integer_spec(),
        t.in_range(i),
    ensures
        int_value(t, i).data_type_spec() == t,
        int_value(t, i).int_spec() == i,
{
}

/// Builds the value of integer type `t` that holds `v`.
pub fn from_i128(t: DataType, v: i128) -> (r: DataValue)
    requires
        t.is_integer_spec(),
        t.in_range(v as int),
    ensures
        r == int_value(t, v as int),
        r.data_type_spec() == t,
        r.int_spec() == v,
{
    match t {
        DataType::Int8 => DataValue::Int8(v as i8),
        DataType::Int16 => DataValue::Int16(v as i16),
        DataType::Int32 => DataValue::Int32(v as i32),
        DataType::Int64 => DataValue::Int64(v as i64),
        DataType::UInt8 => DataValue::UInt8(v as u8),
        DataType::UInt16 => DataValue::UInt16(v as u16),
        DataType::UInt32 => DataValue::UInt32(v as u32),
        _ => DataValue::UInt64(v as u64),
    }
}

/// Whether an integer type holds `i`.
pub fn fits(t: DataType, i: i128) -> (r: bool)
    requires
        t.is_integer_spec(),
    ensures
        r == t.in_range(i as int),
{
    match t {
        DataType::Int8 => -128 <= i && i <= 127,
        DataType::Int16 => -32768 <= i && i <= 32767,
        DataType::Int32 => -2147483648 <= i && i <= 2147483647,
        DataType::Int64 => -9223372036854775808 <= i && i <= 9223372036854775807,
        DataType::UInt8 => 0 <= i && i <= 255,
        DataType::UInt16 => 0 <= i && i <= 65535,
        DataType::UInt32 => 0 <= i && i <= 4294967295,
        _ => 0 <= i && i <= 18446744073709551615,
    }
}

/// The result of folding two values with an aggregate operator. Null is the
/// identity on either side. Two non-null values must have one type: Min and
/// Max take integers or strings (lexicographic); Count gives 1 for two
/// integers; Sum takes integers and fails when the sum leaves the type. Any
/// other pair fails naming the operator and both types.
pub open spec fn aggregate_spec(
    op: DataValueAggregateOperator,
    l: DataValue,
    r: DataValue,
) -> Result<DataValue, DataError> {
    let lt = l.data_type_spec();
    let rt = r.data_type_spec();
    let unsupported = DataError::Unsupported { op: Operator::Aggregate(op), left: lt, right: rt };
    if l is Null {
        Ok(r)
    } else if r is Null {
        Ok(l)
    } else if lt != rt {
        Err(unsupported)
    } else if l is String && r is String {
        match op {
            DataValueAggregateOperator::Min => Ok(
                if str_lt(r->String_0@, l->String_0@) { r } else { l },
            ),
            DataValueAggregateOperator::Max => Ok(
                if str_lt(l->String_0@, r->String_0@) { r } else { l },
            ),
            _ => Err(unsupported),
        }
    } else if lt.is_integer_spec() {
        let a = l.int_spec();
        let b = r.int_spec();
        match op {
            DataValueAggregateOperator::Min => Ok(if b < a { r } else { l }),
            DataValueAggregateOperator::Max => Ok(if a < b { r } else { l }),
            DataValueAggregateOperator::Count => Ok(DataValue::UInt64(1)),
            DataValueAggregateOperator::Sum => if lt.in_range(a + b) {
                Ok(int_value(lt, a + b))
            } else {
                Err(DataError::Overflow { op: Operator::Aggregate(op), left: lt, right: rt })
            },
        }
    } else {
        Err(unsupported)
    }
}

/// Folds two values with an aggregate operator, as `aggregate_spec` states.
pub fn data_value_aggregate_op(
    op: DataValueAggregateOperator,
    left: DataValue,
    right: DataValue,
) -> (r: Result<DataValue, DataError>)
    ensures
        r == aggregate_spec(op, left, right),
{
    let lt = left.data_type();
    let rt = right.data_type();
    if left.is_null() {
        return Ok(right);
    }
    if right.is_null() {
        return Ok(left);
    }
    if lt != rt {
        return Err(DataError::Unsupported { op: Operator::Aggregate(op), left: lt, right: rt });
    }
    match (&left, &right) {
        (DataValue::String(a), DataValue::String(b)) => {
            match op {
                DataValueAggregateOperator::Min => {
                    return if string_lt(b, a) { Ok(right) } else { Ok(left) };
                },
                DataValueAggregateOperator::Max => {
                    return if string_lt(a, b) { Ok(right) } else { Ok(left) };
                },
                _ => {
                    return Err(
                        DataError::Unsupported { op: Operator::Aggregate(op), left: lt, right: rt },
                    );
                },
            }
        },
        _ => {},
    }
    if lt == DataType::Boolean {
        return Err(DataError::Unsupported { op: Operator::Aggregate(op), left: lt, right: rt });
    }
    let a = left.to_i128();
    let b = right.to_i128();
    match op {
        DataValueAggregateOperator::Min => if b < a { Ok(right) } else { Ok(left) },
        DataValueAggregateOperator::Max => if a < b { Ok(right) } else { Ok(left) },
        DataValueAggregateOperator::Count => Ok(DataValue::UInt64(1)),
        DataValueAggregateOperator::Sum => {
            let s = a + b;
            if fits(lt, s) {
                Ok(from_i128(lt, s))
            } else {
                Err(DataError::Overflow { op: Operator::Aggregate(op), left: lt, right: rt })
            }
        },
    }
}

} // verus!

verus! {

/// Division rounding toward zero, as Rust's integer `/` does.
pub open spec fn trunc_div(a: int, b: int) -> int {
    if a >= 0 && b > 0 {
        a / b
    } else if a >= 0 {
        -(a / -b)
    } else if b > 0 {
        -((-a) / b)
    } else {
        (-a) / (-b)
    }
}

/// The remainder that goes with `trunc_div`, as Rust's integer `%` does.
pub open spec fn trunc_rem(a: int, b: int) -> int {
    a - b * trunc_div(a, b)
}

pub open spec fn arith_int(op: DataValueArithmeticOperator, a: int, b: int) -> int {
    match op {
        DataValueArithmeticOperator::Plus => a + b,
        DataValueArithmeticOperator::Minus => a - b,
        DataValueArithmeticOperator::Mul => a * b,
        DataValueArithmeticOperator::Div => trunc_div(a, b),
        DataValueArithmeticOperator::Modulo => trunc_rem(a, b),
    }
}

/// The result of an arithmetic operator on two values. Null on either side
/// gives the other side. Otherwise both operands are taken to their common
/// numeric type and the exact result must fit there.
pub open spec fn arithmetic_spec(
    op: DataValueArithmeticOperator,
    l: DataValue,
    r: DataValue,
) -> Result<DataValue, DataError> {
    let lt = l.data_type_spec();
    let rt = r.data_type_spec();
    if l is Null {
        Ok(r)
    } else if r is Null {
        Ok(l)
    } else {
        match coercion_spec(lt, rt) {
            Some(t) => if !t.is_integer_spec() {
                Err(DataError::Unsupported { op: Operator::Arithmetic(op), left: lt, right: rt })
            } else if !t.in_range(l.int_spec()) || !t.in_range(r.int_spec()) {
                Err(DataError::Overflow { op: Operator::Arithmetic(op), left: lt, right: rt })
            } else if (op is Div || op is Modulo) && r.int_spec() == 0 {
                Err(DataError::DivisionByZero)
            } else if t.in_range(arith_int(op, l.int_spec(), r.int_spec())) {
                Ok(int_value(t, arith_int(op, l.int_spec(), r.int_spec())))
            } else {
                Err(DataError::Overflow { op: Operator::Arithmetic(op), left: lt, right: rt })
            },
            None => Err(
                DataError::Unsupported { op: Operator::Arithmetic(op), left: lt, right: rt },
            ),
        }
    }
}

fn abs_u128(a: i128) -> (r: u128)
    requires
        a > i128::MIN,
    ensures
        r as int == if a >= 0 { a as int } else { -a },
{
    if a >= 0 {
        a as u128
    } else {
        (-a) as u128
    }
}

/// Operands that fit in a 64-bit signed or unsigned integer.
pub open spec fn in_wide_range(a: int) -> bool {
    -0x8000_0000_0000_0000 <= a < 0x1_0000_0000_0000_0000
}

fn mul_i128(a: i128, b: i128) -> (r: Option<i128>)
    requires
        in_wide_range(a as int),
        in_wide_range(b as int),
    ensures
        match r {
            Some(v) => v as int == a * b,
            None => !in_wide_range(a * b),
        },
{
    let ua = abs_u128(a);
    let ub = abs_u128(b);
    let ghost x = ua as int;
    let ghost y = ub as int;
    let ghost p = (a as int) * (b as int);
    proof {
        assert(if (a < 0) != (b < 0) { p == -(x * y) } else { p == x * y }) by (nonlinear_arith)
            requires
                x == (if a >= 0 { a as int } else { -a as int }),
                y == (if b >= 0 { b as int } else { -b as int }),
                p == (a as int) * (b as int),
        ;
    }
    if ua != 0 && ub > 0x1_0000_0000_0000_0000u128 / ua {
        proof {
            assert(x * y > 0x1_0000_0000_0000_0000int) by (nonlinear_arith)
                requires
                    x > 0,
                    y > 0x1_0000_0000_0000_0000int / x,
            ;
        }
        return None;
    }
    proof {
        if x != 0 {
            assert(x * y <= 0x1_0000_0000_0000_0000int) by (nonlinear_arith)
                requires
                    x > 0,
                    y <= 0x1_0000_0000_0000_0000int / x,
            ;
        } else {
            assert(x * y == 0) by (nonlinear_arith)
                requires
                    x == 0,
            ;
        }
    }
    let m = ua * ub;
    if (a < 0) != (b < 0) {
        if m > 0x8000_0000_0000_0000u128 {
            None
        } else {
            Some(-(m as i128))
        }
    } else {
        if m >= 0x1_0000_0000_0000_0000u128 {
            None
        } else {
            Some(m as i128)
        }
    }
}

fn div_i128(a: i128, b: i128) -> (r: i128)
    requires
        in_wide_range(a as int),
        in_wide_range(b as int),
        b != 0,
    ensures
        r as int == trunc_div(a as int, b as int),
{
    let ua = abs_u128(a);
    let ub = abs_u128(b);
    proof {
        let x = ua as int;
        let y = ub as int;
        assert(0 <= x / y <= x) by (nonlinear_arith)
            requires
                x >= 0,
                y > 0,
        ;
    }
    let q = ua / ub;
    if (a < 0) != (b < 0) {
        -(q as i128)
    } else {
        q as i128
    }
}

fn rem_i128(a: i128, b: i128) -> (r: i128)
    requires
        in_wide_range(a as int),
        in_wide_range(b as int),
        b != 0,
    ensures
        r as int == trunc_rem(a as int, b as int),
{
    let ua = abs_u128(a);
    let ub = abs_u128(b);
    let rem = ua % ub;
    let v: i128 = if a < 0 { -(rem as i128) } else { rem as i128 };
    proof {
        let x = ua as int;
        let y = ub as int;
        assert(x == y * (x / y) + x % y) by (nonlinear_arith)
            requires
                x >= 0,
                y > 0,
        ;
        let qq = trunc_div(a as int, b as int);
        assert(qq == (if (a < 0) != (b < 0) { -(x / y) } else { x / y }));
        assert(trunc_rem(a as int, b as int) == v as int) by (nonlinear_arith)
            requires
                x == (if a >= 0 { a as int } else { -a as int }),
                y == (if b >= 0 { b as int } else { -b as int }),
                x == y * (x / y) + x % y,
                qq == (if (a < 0) != (b < 0) { -(x / y) } else { x / y }),
                trunc_rem(a as int, b as int) == (a as int) - (b as int) * qq,
                v as int == (if a < 0 { -(x % y) } else { x % y }),
        ;
    }
    v
}

/// `a op b` for operands that fit in 64-bit signed or unsigned integers.
fn arith_i128(op: DataValueArithmeticOperator, a: i128, b: i128) -> (r: Option<i128>)
    requires
        in_wide_range(a as int),
        in_wide_range(b as int),
        (op is Div || op is Modulo) ==> b != 0,
    ensures
        match r {
            Some(v) => v as int == arith_int(op, a as int, b as int),
            None => !in_wide_range(arith_int(op, a as int, b as int)),
        },
{
    match op {
        DataValueArithmeticOperator::Plus => Some(a + b),
        DataValueArithmeticOperator::Minus => Some(a - b),
        DataValueArithmeticOperator::Mul => mul_i128(a, b),
        DataValueArithmeticOperator::Div => Some(div_i128(a, b)),
        DataValueArithmeticOperator::Modulo => Some(rem_i128(a, b)),
    }
}

/// Applies an arithmetic operator to two values, as `arithmetic_spec` states.
pub fn data_value_arithmetic_op(
    op: DataValueArithmeticOperator,
    left: DataValue,
    right: DataValue,
) -> (r: Result<DataValue, DataError>)
    ensures
        r == arithmetic_spec(op, left, right),
{
    let lt = left.data_type();
    let rt = right.data_type();
    if left.is_null() {
        return Ok(right);
    }
    if right.is_null() {
        return Ok(left);
    }
    let t = match numerical_coercion(&lt, &rt) {
        Ok(t) => t,
        Err(_) => {
            return Err(
                DataError::Unsupported { op: Operator::Arithmetic(op), left: lt, right: rt },
            );
        },
    };
    if t.is_float() {
        return Err(DataError::Unsupported { op: Operator::Arithmetic(op), left: lt, right: rt });
    }
    proof {
        assert(lt.is_integer_spec() && rt.is_integer_spec());
    }
    let a = left.to_i128();
    let b = right.to_i128();
    if !fits(t, a) || !fits(t, b) {
        return Err(DataError::Overflow { op: Operator::Arithmetic(op), left: lt, right: rt });
    }
    if (op == DataValueArithmeticOperator::Div || op == DataValueArithmeticOperator::Modulo) && b
        == 0 {
        return Err(DataError::DivisionByZero);
    }
    match arith_i128(op, a, b) {
        Some(v) => {
            if fits(t, v) {
                Ok(from_i128(t, v))
            } else {
                Err(DataError::Overflow { op: Operator::Arithmetic(op), left: lt, right: rt })
            }
        },
        None => Err(DataError::Overflow { op: Operator::Arithmetic(op), left: lt, right: rt }),
    }
}

} // verus!

verus! {

/// Order between two non-null values of comparable kinds: integers by value,
/// booleans with false before true, strings lexicographically.
pub open spec fn value_lt(l: DataValue, r: DataValue) -> bool {
    if l.is_integer() {
        l.int_spec() < r.int_spec()
    } else if l is Boolean {
        !l->Boolean_0 && r->Boolean_0
    } else {
        str_lt(l->String_0@, r->String_0@)
    }
}

pub open spec fn value_eq(l: DataValue, r: DataValue) -> bool {
    if l.is_integer() {
        l.int_spec() == r.int_spec()
    } else if l is Boolean {
        l->Boolean_0 == r->Boolean_0
    } else {
        l->String_0@ == r->String_0@
    }
}

/// Whether two values of these types can be compared: both integers, or
/// both booleans, or both strings.
pub open spec fn comparable(lt: DataType, rt: DataType) -> bool {
    (lt.is_integer_spec() && rt.is_integer_spec()) || (lt == rt && (lt is Boolean || lt is Utf8))
}

pub fn is_comparable(lt: DataType, rt: DataType) -> (r: bool)
    ensures
        r == comparable(lt, rt),
{
    let li = lt.is_numeric() && !lt.is_float();
    let ri = rt.is_numeric() && !rt.is_float();
    (li && ri) || (lt == rt && (lt == DataType::Boolean || lt == DataType::Utf8))
}

pub open spec fn compare_holds(op: DataValueComparisonOperator, lt: bool, eq: bool) -> bool {
    match op {
        DataValueComparisonOperator::Eq => eq,
        DataValueComparisonOperator::NotEq => !eq,
        DataValueComparisonOperator::Lt => lt,
        DataValueComparisonOperator::LtEq => lt || eq,
        DataValueComparisonOperator::Gt => !lt && !eq,
        DataValueComparisonOperator::GtEq => !lt,
    }
}

/// Compares two non-null values whose types are comparable.
pub fn compare_values(op: DataValueComparisonOperator, l: &DataValue, r: &DataValue) -> (res: bool)
    requires
        !(*l is Null),
        !(*r is Null),
        comparable(l.data_type_spec(), r.data_type_spec()),
    ensures
        res == compare_holds(op, value_lt(*l, *r), value_eq(*l, *r)),
{
    let (lt, eq) = match (l, r) {
        (DataValue::Boolean(a), DataValue::Boolean(b)) => (!*a && *b, *a == *b),
        (DataValue::String(a), DataValue::String(b)) => {
            let lt = string_lt(a, b);
            let eq = *a == *b;
            (lt, eq)
        },
        _ => {
            assert(l.is_integer() && r.is_integer());
            let a = l.to_i128();
            let b = r.to_i128();
            (a < b, a == b)
        },
    };
    match op {
        DataValueComparisonOperator::Eq => eq,
        DataValueComparisonOperator::NotEq => !eq,
        DataValueComparisonOperator::Lt => lt,
        DataValueComparisonOperator::LtEq => lt || eq,
        DataValueComparisonOperator::Gt => !lt && !eq,
        DataValueComparisonOperator::GtEq => !lt,
    }
}

} // verus!
