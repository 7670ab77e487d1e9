use vstd::prelude::*;

use crate::data_type::DataType;
use crate::data_value::DataValue;
use crate::error::DataError;

verus! {

/// A typed column: every element is null or a value of `data_type`.
#[derive(Debug)]
pub struct DataArray {
    pub data_type: DataType,
    pub values: Vec<DataValue>,
}

/// Every element is null or of type `t`.
pub open spec fn typed_values(t: DataType, s: Seq<DataValue>) -> bool {
    forall|i: int| 0 <= i < s.len() ==> (#[trigger] s[i] is Null || s[i].data_type_spec() == t)
}

/// A copy of a vector of values.
pub fn clone_values(v: &Vec<DataValue>) -> (r: Vec<DataValue>)
    ensures
        r@ == v@,
{
    let mut r: Vec<DataValue> = Vec::new();
    let mut i: usize = 0;
    while i < v.len()
        invariant
            i <= v@.len(),
            r@ == v@.subrange(0, i as int),
        decreases v@.len() - i,
    {
        r.push(v[i].clone());
        i = i + 1;
    }
    assert(r@ =~= v@);
    r
}

impl Clone for DataArray {
    fn clone(&self) -> (r: Self)
        ensures
            r.data_type == self.data_type,
            r.values@ == self.values@,
    {
        DataArray { data_type: self.data_type, values: clone_values(&self.values) }
    }
}

impl DataArray {
    pub open spec fn wf(&self) -> bool {
        typed_values(self.data_type, self.values@)
    }

    pub open spec fn len_spec(&self) -> nat {
        self.values@.len()
    }

    /// An array of type `t` from values, if each is null or of type `t`.
    pub fn create(t: DataType, values: Vec<DataValue>) -> (r: Option<DataArray>)
        ensures
            match r {
                Some(a) => a.data_type == t && a.values@ == values@,
                None => !typed_values(t, values@),
            },
    {
        let mut i: usize = 0;
        while i < values.len()
            invariant
                i <= values@.len(),
                forall|j: int|
                    0 <= j < i ==> (#[trigger] values@[j] is Null || values@[j].data_type_spec()
                        == t),
            decreases values@.len() - i,
        {
            if !values[i].is_null() && values[i].data_type() != t {
                return None;
            }
            i = i + 1;
        }
        Some(DataArray { data_type: t, values })
    }

    /// An array of type `t` with no elements.
    pub fn new_empty(t: DataType) -> (r: DataArray)
        ensures
            r.data_type == t,
            r.values@.len() == 0,
            r.wf(),
    {
        DataArray { data_type: t, values: Vec::new() }
    }

    pub fn len(&self) -> (r: usize)
        ensures
            r == self.values@.len(),
    {
        self.values.len()
    }

    pub fn is_empty(&self) -> (r: bool)
        ensures
            r == (self.values@.len() == 0),
    {
        self.values.len() == 0
    }

    pub fn data_type(&self) -> (r: DataType)
        ensures
            r == self.data_type,
    {
        self.data_type
    }

    pub fn value(&self, i: usize) -> (r: &DataValue)
        requires
            i < self.values@.len(),
        ensures
            *r == self.values@[i as int],
    {
        &self.values[i]
    }

    /// The values of the array, in order.
    pub fn values(&self) -> (r: &Vec<DataValue>)
        ensures
            r@ == self.values@,
    {
        &self.values
    }

    pub fn from_i64(v: Vec<i64>) -> (r: DataArray)
        ensures
            r.wf(),
            r.data_type == DataType::Int64,
            r.values@ == v@.map_values(|x: i64| DataValue::Int64(x)),
    {
        let mut out: Vec<DataValue> = Vec::new();
        let mut i: usize = 0;
        while i < v.len()
            invariant
                i <= v@.len(),
                out@ == v@.subrange(0, i as int).map_values(|x: i64| DataValue::Int64(x)),
            decreases v@.len() - i,
        {
            out.push(DataValue::Int64(v[i]));
            i = i + 1;
            assert(out@ =~= v@.subrange(0, i as int).map_values(|x: i64| DataValue::Int64(x)));
        }
        assert(v@.subrange(0, i as int) =~= v@);
        DataArray { data_type: DataType::Int64, values: out }
    }

    pub fn from_u64(v: Vec<u64>) -> (r: DataArray)
        ensures
            r.wf(),
            r.data_type == DataType::UInt64,
            r.values@ == v@.map_values(|x: u64| DataValue::UInt64(x)),
    {
        let mut out: Vec<DataValue> = Vec::new();
        let mut i: usize = 0;
        while i < v.len()
            invariant
                i <= v@.len(),
                out@ == v@.subrange(0, i as int).map_values(|x: u64| DataValue::UInt64(x)),
            decreases v@.len() - i,
        {
            out.push(DataValue::UInt64(v[i]));
            i = i + 1;
            assert(out@ =~= v@.subrange(0, i as int).map_values(|x: u64| DataValue::UInt64(x)));
        }
        assert(v@.subrange(0, i as int) =~= v@);
        DataArray { data_type: DataType::UInt64, values: out }
    }

    pub fn from_u8(v: Vec<u8>) -> (r: DataArray)
        ensures
            r.wf(),
            r.data_type == DataType::UInt8,
            r.values@ == v@.map_values(|x: u8| DataValue::UInt8(x)),
    {
        let mut out: Vec<DataValue> = Vec::new();
        let mut i: usize = 0;
        while i < v.len()
            invariant
                i <= v@.len(),
                out@ == v@.subrange(0, i as int).map_values(|x: u8| DataValue::UInt8(x)),
            decreases v@.len() - i,
        {
            out.push(DataValue::UInt8(v[i]));
            i = i + 1;
            assert(out@ =~= v@.subrange(0, i as int).map_values(|x: u8| DataValue::UInt8(x)));
        }
        assert(v@.subrange(0, i as int) =~= v@);
        DataArray { data_type: DataType::UInt8, values: out }
    }

    pub fn from_bool(v: Vec<bool>) -> (r: DataArray)
        ensures
            r.wf(),
            r.data_type == DataType::Boolean,
            r.values@ == v@.map_values(|x: bool| DataValue::Boolean(x)),
    {
        let mut out: Vec<DataValue> = Vec::new();
        let mut i: usize = 0;
        while i < v.len()
            invariant
                i <= v@.len(),
                out@ == v@.subrange(0, i as int).map_values(|x: bool| DataValue::Boolean(x)),
            decreases v@.len() - i,
        {
            out.push(DataValue::Boolean(v[i]));
            i = i + 1;
            assert(out@ =~= v@.subrange(0, i as int).map_values(|x: bool| DataValue::Boolean(x)));
        }
        assert(v@.subrange(0, i as int) =~= v@);
        DataArray { data_type: DataType::Boolean, values: out }
    }

    /// An array of `n` copies of `v`, typed as `v` is.
    pub fn repeat(v: &DataValue, n: usize) -> (r: DataArray)
        ensures
            r.data_type == v.data_type_spec(),
            r.values@ == Seq::new(n as nat, |i: int| *v),
            r.wf(),
    {
        let mut out: Vec<DataValue> = Vec::new();
        let mut i: usize = 0;
        while i < n
            invariant
                i <= n,
                out@ == Seq::new(i as nat, |j: int| *v),
            decreases n - i,
        {
            out.push(v.clone());
            i = i + 1;
            assert(out@ =~= Seq::new(i as nat, |j: int| *v));
        }
        DataArray { data_type: v.data_type(), values: out }
    }
}

/// Either a full column or one scalar broadcast over every row.
#[derive(Debug)]
pub enum DataColumnarValue {
    Array(DataArray),
    Scalar(DataValue),
}

/// What a columnar value holds: an array's type and elements, or a scalar.
pub enum ColumnView {
    Array(DataType, Seq<DataValue>),
    Scalar(DataValue),
}

impl ColumnView {
    pub open spec fn data_type_spec(self) -> DataType {
        match self {
            ColumnView::Array(t, _) => t,
            ColumnView::Scalar(v) => v.data_type_spec(),
        }
    }

    /// The element at row `i`: a scalar is the same at every row.
    pub open spec fn elem(self, i: int) -> DataValue {
        match self {
            ColumnView::Array(_, s) => s[i],
            ColumnView::Scalar(v) => v,
        }
    }

    pub open spec fn wf(self) -> bool {
        match self {
            ColumnView::Array(t, s) => typed_values(t, s),
            ColumnView::Scalar(_) => true,
        }
    }
}

impl View for DataColumnarValue {
    type V = ColumnView;

    open spec fn view(&self) -> ColumnView {
        match self {
            DataColumnarValue::Array(a) => ColumnView::Array(a.data_type, a.values@),
            DataColumnarValue::Scalar(v) => ColumnView::Scalar(*v),
        }
    }
}

impl DataColumnarValue {
    pub open spec fn data_type_spec(self) -> DataType {
        self@.data_type_spec()
    }

    pub open spec fn wf(self) -> bool {
        self@.wf()
    }

    /// The column's type, read without materialising anything.
    pub fn data_type(&self) -> (r: DataType)
        ensures
            r == self.data_type_spec(),
    {
        match self {
            DataColumnarValue::Array(a) => a.data_type,
            DataColumnarValue::Scalar(v) => v.data_type(),
        }
    }

    /// The column as an array: an array as it is, a scalar repeated `size` times.
    pub fn to_array(&self, size: usize) -> (r: Result<DataArray, DataError>)
        ensures
            r is Ok,
            r->Ok_0.data_type == self.data_type_spec(),
            self.wf() ==> r->Ok_0.wf(),
            match self {
                DataColumnarValue::Array(a) => r->Ok_0.values@ == a.values@,
                DataColumnarValue::Scalar(v) => r->Ok_0.values@ == Seq::new(size as nat, |i: int| *v),
            },
    {
        match self {
            DataColumnarValue::Array(a) => Ok(a.clone()),
            DataColumnarValue::Scalar(v) => Ok(DataArray::repeat(v, size)),
        }
    }
}

impl Clone for DataColumnarValue {
    fn clone(&self) -> (r: Self)
        ensures
            r@ == self@,
    {
        match self {
            DataColumnarValue::Array(a) => DataColumnarValue::Array(a.clone()),
            DataColumnarValue::Scalar(v) => DataColumnarValue::Scalar(v.clone()),
        }
    }
}

} // verus!
