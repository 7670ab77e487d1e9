use vstd::prelude::*;

use crate::error::DataError;
use crate::operator::{DataValueArithmeticOperator, Operator};

verus! {

/// The primitive scalar kinds of the columnar model.
#[derive(Clone, Copy, Debug, PartialEq, Eq, Structural)]
pub enum DataType {
    Null,
    Boolean,
    Int8,
    Int16,
    Int32,
    Int64,
    UInt8,
    UInt16,
    UInt32,
    UInt64,
    Float32,
    Float64,
    Utf8,
}

impl DataType {
    pub open spec fn is_numeric_spec(self) -> bool {
        self.is_integer_spec() || self.is_float_spec()
    }

    pub open spec fn is_float_spec(self) -> bool {
        self is Float32 || self is Float64
    }

    pub open spec fn is_signed_spec(self) -> bool {
        self is Int8 || self is Int16 || self is Int32 || self is Int64
    }

    pub open spec fn is_unsigned_spec(self) -> bool {
        self is UInt8 || self is UInt16 || self is UInt32 || self is UInt64
    }

    pub open spec fn is_integer_spec(self) -> bool {
        self.is_signed_spec() || self.is_unsigned_spec()
    }

    /// Width in bits of an integer type.
    pub open spec fn bits_spec(self) -> nat {
        match self {
            DataType::Int8 | DataType::UInt8 => 8,
            DataType::Int16 | DataType::UInt16 => 16,
            DataType::Int32 | DataType::UInt32 | DataType::Float32 => 32,
            _ => 64,
        }
    }

    /// Smallest value of an integer type.
    pub open spec fn min_int(self) -> int {
        match self {
            DataType::Int8 => i8::MIN as int,
            DataType::Int16 => i16::MIN as int,
            DataType::Int32 => i32::MIN as int,
            DataType::Int64 => i64::MIN as int,
            _ => 0,
        }
    }

    /// Largest value of an integer type.
    pub open spec fn max_int(self) -> int {
        match self {
            DataType::Int8 => i8::MAX as int,
            DataType::Int16 => i16::MAX as int,
            DataType::Int32 => i32::MAX as int,
            DataType::Int64 => i64::MAX as int,
            DataType::UInt8 => u8::MAX as int,
            DataType::UInt16 => u16::MAX as int,
            DataType::UInt32 => u32::MAX as int,
            DataType::UInt64 => u64::MAX as int,
            _ => 0,
        }
    }

    pub open spec fn in_range(self, i: int) -> bool {
        self.min_int() <= i <= self.max_int()
    }

    pub open spec fn name_spec(self) -> Seq<char> {
        match self {
            DataType::Null => "Null"@,
            DataType::Boolean => "Boolean"@,
            DataType::Int8 => "Int8"@,
            DataType::Int16 => "Int16"@,
            DataType::Int32 => "Int32"@,
            DataType::Int64 => "Int64"@,
            DataType::UInt8 => "UInt8"@,
            DataType::UInt16 => "UInt16"@,
            DataType::UInt32 => "UInt32"@,
            DataType::UInt64 => "UInt64"@,
            DataType::Float32 => "Float32"@,
            DataType::Float64 => "Float64"@,
            DataType::Utf8 => "Utf8"@,
        }
    }

    pub fn is_numeric(&self) -> (r: bool)
        ensures
            r == self.is_numeric_spec(),
    {
        match self {
            DataType::Null | DataType::Boolean | DataType::Utf8 => false,
            _ => true,
        }
    }

    pub fn is_float(&self) -> (r: bool)
        ensures
            r == self.is_float_spec(),
    {
        match self {
            DataType::Float32 | DataType::Float64 => true,
            _ => false,
        }
    }

    pub fn is_signed(&self) -> (r: bool)
        ensures
            r == self.is_signed_spec(),
    {
        match self {
            DataType::Int8 | DataType::Int16 | DataType::Int32 | DataType::Int64 => true,
            _ => false,
        }
    }

    /// The width in bits of a numeric type.
    pub fn bits(&self) -> (r: u32)
        ensures
            r == self.bits_spec(),
    {
        match self {
            DataType::Int8 | DataType::UInt8 => 8,
            DataType::Int16 | DataType::UInt16 => 16,
            DataType::Int32 | DataType::UInt32 | DataType::Float32 => 32,
            _ => 64,
        }
    }

    /// The name of the type as `toTypeName` reports it.
    pub fn name(&self) -> (r: String)
        ensures
            r@ == self.name_spec(),
    {
        match self {
            DataType::Null => String::from_str("Null"),
            DataType::Boolean => String::from_str("Boolean"),
            DataType::Int8 => String::from_str("Int8"),
            DataType::Int16 => String::from_str("Int16"),
            DataType::Int32 => String::from_str("Int32"),
            DataType::Int64 => String::from_str("Int64"),
            DataType::UInt8 => String::from_str("UInt8"),
            DataType::UInt16 => String::from_str("UInt16"),
            DataType::UInt32 => String::from_str("UInt32"),
            DataType::UInt64 => String::from_str("UInt64"),
            DataType::Float32 => String::from_str("Float32"),
            DataType::Float64 => String::from_str("Float64"),
            DataType::Utf8 => String::from_str("Utf8"),
        }
    }
}

/// The signed integer type of a given width (8, 16, 32, else 64).
pub open spec fn signed_of(bits: nat) -> DataType {
    if bits <= 8 {
        DataType::Int8
    } else if bits <= 16 {
        DataType::Int16
    } else if bits <= 32 {
        DataType::Int32
    } else {
        DataType::Int64
    }
}

/// The unsigned integer type of a given width (8, 16, 32, else 64).
pub open spec fn unsigned_of(bits: nat) -> DataType {
    if bits <= 8 {
        DataType::UInt8
    } else if bits <= 16 {
        DataType::UInt16
    } else if bits <= 32 {
        DataType::UInt32
    } else {
        DataType::UInt64
    }
}

pub open spec fn max_nat(a: nat, b: nat) -> nat {
    if a >= b { a } else { b }
}

/// The common type of two numeric types: equal types stay; a float dominates
/// (Float64 over Float32); two signed or two unsigned widen to the wider; a
/// signed and an unsigned widen to a signed type twice the unsigned width,
/// at most 64 bits.
pub open spec fn coercion_spec(l: DataType, r: DataType) -> Option<DataType> {
    if !l.is_numeric_spec() || !r.is_numeric_spec() {
        None
    } else if l == r {
        Some(l)
    } else if l.is_float_spec() || r.is_float_spec() {
        if l is Float64 || r is Float64 {
            Some(DataType::Float64)
        } else {
            Some(DataType::Float32)
        }
    } else if l.is_signed_spec() && r.is_signed_spec() {
        Some(signed_of(max_nat(l.bits_spec(), r.bits_spec())))
    } else if l.is_unsigned_spec() && r.is_unsigned_spec() {
        Some(unsigned_of(max_nat(l.bits_spec(), r.bits_spec())))
    } else if l.is_signed_spec() {
        Some(signed_of(max_nat(l.bits_spec(), 2 * r.bits_spec())))
    } else {
        Some(signed_of(max_nat(2 * l.bits_spec(), r.bits_spec())))
    }
}

fn signed_of_bits(bits: u32) -> (r: DataType)
    ensures
        r == signed_of(bits as nat),
{
    if bits <= 8 {
        DataType::Int8
    } else if bits <= 16 {
        DataType::Int16
    } else if bits <= 32 {
        DataType::Int32
    } else {
        DataType::Int64
    }
}

fn unsigned_of_bits(bits: u32) -> (r: DataType)
    ensures
        r == unsigned_of(bits as nat),
{
    if bits <= 8 {
        DataType::UInt8
    } else if bits <= 16 {
        DataType::UInt16
    } else if bits <= 32 {
        DataType::UInt32
    } else {
        DataType::UInt64
    }
}

/// The common type two numeric types widen to, for comparisons; an error
/// naming both types when either is not numeric.
pub fn numerical_coercion(lhs_type: &DataType, rhs_type: &DataType) -> (r: Result<DataType, DataError>)
    ensures
        match coercion_spec(*lhs_type, *rhs_type) {
            Some(t) => r == Ok::<DataType, DataError>(t),
            None => r == Err::<DataType, DataError>(
                DataError::Coercion { left: *lhs_type, right: *rhs_type },
            ),
        },
{
    let l = *lhs_type;
    let r = *rhs_type;
    if !l.is_numeric() || !r.is_numeric() {
        return Err(DataError::Coercion { left: l, right: r });
    }
    if l == r {
        return Ok(l);
    }
    if l.is_float() || r.is_float() {
        if l == DataType::Float64 || r == DataType::Float64 {
            return Ok(DataType::Float64);
        }
        return Ok(DataType::Float32);
    }
    let lb = l.bits();
    let rb = r.bits();
    if l.is_signed() && r.is_signed() {
        Ok(signed_of_bits(if lb >= rb { lb } else { rb }))
    } else if !l.is_signed() && !r.is_signed() {
        Ok(unsigned_of_bits(if lb >= rb { lb } else { rb }))
    } else if l.is_signed() {
        Ok(signed_of_bits(if lb >= 2 * rb { lb } else { 2 * rb }))
    } else {
        Ok(signed_of_bits(if 2 * lb >= rb { 2 * lb } else { rb }))
    }
}

/// The result type of an arithmetic operator: the common numeric type of the
/// operands; an error naming the operator and both types otherwise.
pub fn numerical_arithmetic_coercion(
    op: DataValueArithmeticOperator,
    lhs_type: &DataType,
    rhs_type: &DataType,
) -> (r: Result<DataType, DataError>)
    ensures
        match coercion_spec(*lhs_type, *rhs_type) {
            Some(t) => r == Ok::<DataType, DataError>(t),
            None => r == Err::<DataType, DataError>(
                DataError::Unsupported {
                    op: Operator::Arithmetic(op),
                    left: *lhs_type,
                    right: *rhs_type,
                },
            ),
        },
{
    match numerical_coercion(lhs_type, rhs_type) {
        Ok(t) => Ok(t),
        Err(_) => Err(
            DataError::Unsupported {
                op: Operator::Arithmetic(op),
                left: *lhs_type,
                right: *rhs_type,
            },
        ),
    }
}

} // verus!
