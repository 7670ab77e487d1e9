use vstd::prelude::*;

use crate::data_array::{DataArray, typed_values};
use crate::data_type::DataType;
use crate::error::DataError;

verus! {

/// A named, typed column slot of a schema.
#[derive(Debug)]
pub struct DataField {
    pub name: String,
    pub data_type: DataType,
    pub nullable: bool,
}

impl Clone for DataField {
    fn clone(&self) -> (r: Self)
        ensures
            r == *self,
    {
        DataField { name: self.name.clone(), data_type: self.data_type, nullable: self.nullable }
    }
}

impl DataField {
    pub fn new(name: &str, data_type: DataType, nullable: bool) -> (r: DataField)
        ensures
            r.name@ == name@,
            r.data_type == data_type,
            r.nullable == nullable,
    {
        DataField { name: String::from_str(name), data_type, nullable }
    }

    pub fn name(&self) -> (r: &String)
        ensures
            r == &self.name,
    {
        &self.name
    }

    pub fn data_type(&self) -> (r: DataType)
        ensures
            r == self.data_type,
    {
        self.data_type
    }

    pub fn is_nullable(&self) -> (r: bool)
        ensures
            r == self.nullable,
    {
        self.nullable
    }
}

/// An ordered list of fields.
#[derive(Debug)]
pub struct DataSchema {
    pub fields: Vec<DataField>,
}

/// The position of the first field called `name`, if any.
pub open spec fn field_index(fields: Seq<DataField>, name: Seq<char>) -> Option<int>
    decreases fields.len(),
{
    if fields.len() == 0 {
        None
    } else {
        match field_index(fields.drop_last(), name) {
            Some(i) => Some(i),
            None => if fields.last().name@ == name {
                Some(fields.len() - 1)
            } else {
                None
            },
        }
    }
}

/// A found position is in bounds and names the field.
pub proof fn lemma_field_index(fields: Seq<DataField>, name: Seq<char>)
    ensures
        field_index(fields, name) matches Some(i) ==> 0 <= i < fields.len() && fields[i].name@
            == name,
    decreases fields.len(),
{
    if fields.len() > 0 {
        lemma_field_index(fields.drop_last(), name);
    }
}

proof fn lemma_field_index_extends(fields: Seq<DataField>, name: Seq<char>, k: int)
    requires
        0 <= k <= fields.len(),
        field_index(fields.take(k), name) is Some,
    ensures
        field_index(fields, name) == field_index(fields.take(k), name),
    decreases fields.len() - k,
{
    if k < fields.len() {
        assert(fields.take(k + 1).drop_last() =~= fields.take(k));
        lemma_field_index_extends(fields, name, k + 1);
    } else {
        assert(fields.take(k) =~= fields);
    }
}

/// A copy of a list of fields.
pub fn clone_fields(v: &Vec<DataField>) -> (r: Vec<DataField>)
    ensures
        r@ == v@,
{
    let mut r: Vec<DataField> = Vec::new();
    let mut i: usize = 0;
    while i < v.len()
        invariant
            i <= v@.len(),
            r@ == v@.subrange(0, i as int),
        decreases v@.len() - i,
    {
        r.push(v[i].clone());
        i = i + 1;
    }
    assert(r@ =~= v@);
    r
}

impl Clone for DataSchema {
    fn clone(&self) -> (r: Self)
        ensures
            r.fields@ == self.fields@,
    {
        DataSchema { fields: clone_fields(&self.fields) }
    }
}

impl DataSchema {
    pub fn new(fields: Vec<DataField>) -> (r: DataSchema)
        ensures
            r.fields@ == fields@,
    {
        DataSchema { fields }
    }

    pub fn empty() -> (r: DataSchema)
        ensures
            r.fields@.len() == 0,
    {
        DataSchema { fields: Vec::new() }
    }

    pub fn fields(&self) -> (r: &Vec<DataField>)
        ensures
            r@ == self.fields@,
    {
        &self.fields
    }

    /// The position of the first field called `name`.
    pub fn index_of(&self, name: &str) -> (r: Result<usize, DataError>)
        ensures
            match field_index(self.fields@, name@) {
                Some(i) => r == Ok::<usize, DataError>(i as usize),
                None => r is Err && not_found(r->Err_0, name@),
            },
    {
        let wanted = String::from_str(name);
        let ghost fs = self.fields@;
        let mut i: usize = 0;
        assert(fs.take(0) =~= Seq::<DataField>::empty());
        while i < self.fields.len()
            invariant
                i <= fs.len(),
                fs == self.fields@,
                wanted@ == name@,
                field_index(fs.take(i as int), name@) is None,
            decreases fs.len() - i,
        {
            assert(fs.take(i + 1).drop_last() =~= fs.take(i as int));
            if self.fields[i].name == wanted {
                proof {
                    lemma_field_index_extends(fs, name@, i + 1);
                }
                return Ok(i);
            }
            i = i + 1;
        }
        assert(fs.take(i as int) =~= fs);
        Err(DataError::ColumnNotFound { name: wanted })
    }
}

/// The error for a column name that is not there.
pub open spec fn not_found(e: DataError, name: Seq<char>) -> bool {
    match e {
        DataError::ColumnNotFound { name: n } => n@ == name,
        _ => false,
    }
}

impl DataSchema {
    /// The position of the field that `name` refers to; `"*"` is the first.
    pub fn resolve(&self, name: &str) -> (r: Result<usize, DataError>)
        ensures
            r matches Ok(i) ==> i < self.fields@.len() && schema_column_index(self.fields@, name@)
                == Some(i as int),
            match schema_column_index(self.fields@, name@) {
                Some(i) => r == Ok::<usize, DataError>(i as usize),
                None => r is Err && not_found(r->Err_0, name@),
            },
    {
        proof {
            reveal_strlit("*");
            lemma_schema_column_index(self.fields@, name@);
        }
        let len = self.fields.len();
        if name.unicode_len() == 1 && name.get_char(0) == '*' {
            assert(name@ =~= "*"@);
            if len == 0 {
                return Err(DataError::ColumnNotFound { name: String::from_str(name) });
            }
            return Ok(0);
        }
        assert(name@ != "*"@);
        self.index_of(name)
    }
}

/// No two fields share a name.
pub open spec fn unique_names(fields: Seq<DataField>) -> bool {
    forall|i: int, j: int|
        0 <= i < j < fields.len() ==> (#[trigger] fields[i]).name@ != (#[trigger] fields[j]).name@
}

impl DataSchema {
    pub open spec fn wf(&self) -> bool {
        unique_names(self.fields@)
    }

    /// Whether no two fields share a name.
    pub fn has_unique_names(&self) -> (r: bool)
        ensures
            r == unique_names(self.fields@),
    {
        let mut i: usize = 0;
        while i < self.fields.len()
            invariant
                i <= self.fields@.len(),
                forall|a: int, b: int|
                    0 <= a < b < i ==> (#[trigger] self.fields@[a]).name@ != (#[trigger] self.fields@[b]).name@,
            decreases self.fields@.len() - i,
        {
            let mut j: usize = 0;
            while j < i
                invariant
                    j <= i < self.fields@.len(),
                    forall|a: int| 0 <= a < j ==> (#[trigger] self.fields@[a]).name@ != self.fields@[i as int].name@,
                decreases i - j,
            {
                if self.fields[j].name == self.fields[i].name {
                    assert(!unique_names(self.fields@)) by {
                        assert(self.fields@[j as int].name@ == self.fields@[i as int].name@);
                    }
                    return false;
                }
                j = j + 1;
            }
            i = i + 1;
        }
        true
    }
}

/// A batch of rows: a schema and one column per field.
#[derive(Debug)]
pub struct DataBlock {
    pub schema: DataSchema,
    pub columns: Vec<DataArray>,
}

/// One column per field, each well formed and of its field's type, all of
/// one length; no two fields share a name.
pub open spec fn block_wf(schema: DataSchema, columns: Seq<DataArray>) -> bool {
    &&& unique_names(schema.fields@)
    &&& columns.len() == schema.fields@.len()
    &&& forall|i: int|
        0 <= i < columns.len() ==> (#[trigger] columns[i]).wf() && columns[i].data_type
            == schema.fields@[i].data_type
    &&& forall|i: int|
        0 <= i < columns.len() ==> (#[trigger] columns[i]).values@.len()
            == columns[0].values@.len()
}

impl DataBlock {
    pub open spec fn wf(&self) -> bool {
        block_wf(self.schema, self.columns@)
    }

    pub open spec fn num_rows_spec(&self) -> nat {
        if self.columns@.len() == 0 {
            0
        } else {
            self.columns@[0].values@.len()
        }
    }

    pub fn create(schema: DataSchema, columns: Vec<DataArray>) -> (r: DataBlock)
        requires
            block_wf(schema, columns@),
        ensures
            r.schema == schema,
            r.columns@ == columns@,
            r.wf(),
    {
        DataBlock { schema, columns }
    }

    /// Whether the columns fit the schema, as `create` requires.
    pub fn check(schema: &DataSchema, columns: &Vec<DataArray>) -> (r: bool)
        ensures
            r == block_wf(*schema, columns@),
    {
        if !schema.has_unique_names() || columns.len() != schema.fields.len() {
            return false;
        }
        let mut i: usize = 0;
        while i < columns.len()
            invariant
                i <= columns@.len(),
                columns@.len() == schema.fields@.len(),
                forall|j: int|
                    0 <= j < i ==> (#[trigger] columns@[j]).wf() && columns@[j].data_type
                        == schema.fields@[j].data_type,
                forall|j: int|
                    0 <= j < i ==> (#[trigger] columns@[j]).values@.len()
                        == columns@[0].values@.len(),
            decreases columns@.len() - i,
        {
            let c = &columns[i];
            if c.data_type != schema.fields[i].data_type || c.len() != columns[0].len() {
                return false;
            }
            let mut k: usize = 0;
            while k < c.len()
                invariant
                    0 <= i < columns@.len(),
                    *c == columns@[i as int],
                    k <= c.values@.len(),
                    forall|j: int|
                        0 <= j < k ==> (#[trigger] c.values@[j] is Null
                            || c.values@[j].data_type_spec() == c.data_type),
                decreases c.values@.len() - k,
            {
                if !c.values[k].is_null() && c.values[k].data_type() != c.data_type {
                    assert(!columns@[i as int].wf());
                    return false;
                }
                k = k + 1;
            }
            i = i + 1;
        }
        true
    }

    /// A block with no fields and no rows.
    pub fn empty() -> (r: DataBlock)
        ensures
            r.wf(),
            r.schema.fields@.len() == 0,
            r.columns@.len() == 0,
    {
        DataBlock { schema: DataSchema::empty(), columns: Vec::new() }
    }

    /// A block of the schema with no rows: one empty column per field.
    pub fn empty_with_schema(schema: DataSchema) -> (r: DataBlock)
        requires
            schema.wf(),
        ensures
            r.wf(),
            r.schema == schema,
            r.num_rows_spec() == 0,
    {
        let mut columns: Vec<DataArray> = Vec::new();
        let mut i: usize = 0;
        while i < schema.fields.len()
            invariant
                i <= schema.fields@.len(),
                columns@.len() == i,
                forall|j: int|
                    0 <= j < i ==> (#[trigger] columns@[j]).wf() && columns@[j].data_type
                        == schema.fields@[j].data_type && columns@[j].values@.len() == 0,
            decreases schema.fields@.len() - i,
        {
            columns.push(DataArray::new_empty(schema.fields[i].data_type));
            i = i + 1;
        }
        DataBlock { schema, columns }
    }

    /// True when the block has no columns or no rows.
    pub fn is_empty(&self) -> (r: bool)
        ensures
            r == (self.columns@.len() == 0 || self.num_rows_spec() == 0),
    {
        self.num_columns() == 0 || self.num_rows() == 0
    }

    pub fn schema(&self) -> (r: &DataSchema)
        ensures
            r == &self.schema,
    {
        &self.schema
    }

    /// The number of rows; a block without columns has none.
    pub fn num_rows(&self) -> (r: usize)
        ensures
            r == self.num_rows_spec(),
    {
        if self.columns.len() == 0 {
            0
        } else {
            self.columns[0].len()
        }
    }

    pub fn num_columns(&self) -> (r: usize)
        ensures
            r == self.columns@.len(),
    {
        self.columns.len()
    }

    pub fn column(&self, index: usize) -> (r: &DataArray)
        requires
            index < self.columns@.len(),
        ensures
            r == &self.columns@[index as int],
    {
        &self.columns[index]
    }

    /// The column of the first field called `name`; `"*"` names the first column.
    pub fn column_by_name(&self, name: &str) -> (r: Result<&DataArray, DataError>)
        requires
            self.wf(),
        ensures
            match column_index(*self, name@) {
                Some(i) => 0 <= i < self.columns@.len() && r is Ok && r->Ok_0 == &self.columns@[i],
                None => r is Err && not_found(r->Err_0, name@),
            },
    {
        match self.column_index_of(name) {
            Ok(i) => Ok(&self.columns[i]),
            Err(e) => Err(e),
        }
    }

    /// The position of the column that `name` refers to.
    pub fn column_index_of(&self, name: &str) -> (r: Result<usize, DataError>)
        requires
            self.wf(),
        ensures
            r matches Ok(i) ==> i < self.columns@.len() && column_index(*self, name@) == Some(
                i as int,
            ),
            match column_index(*self, name@) {
                Some(i) => r == Ok::<usize, DataError>(i as usize),
                None => r is Err && not_found(r->Err_0, name@),
            },
    {
        self.schema.resolve(name)
    }
}

/// The field that a name refers to: `"*"` the first, any other name the
/// first field so called.
pub open spec fn schema_column_index(fields: Seq<DataField>, name: Seq<char>) -> Option<int> {
    if name == "*"@ {
        if fields.len() == 0 {
            None
        } else {
            Some(0)
        }
    } else {
        field_index(fields, name)
    }
}

pub proof fn lemma_schema_column_index(fields: Seq<DataField>, name: Seq<char>)
    ensures
        schema_column_index(fields, name) matches Some(i) ==> 0 <= i < fields.len(),
{
    lemma_field_index(fields, name);
}

/// The column that a name refers to.
pub open spec fn column_index(b: DataBlock, name: Seq<char>) -> Option<int> {
    schema_column_index(b.schema.fields@, name)
}

pub proof fn lemma_column_index_bound(b: DataBlock, name: Seq<char>)
    requires
        b.wf(),
        column_index(b, name) is Some,
    ensures
        0 <= column_index(b, name)->Some_0 < b.columns@.len(),
{
    lemma_field_index(b.schema.fields@, name);
    lemma_schema_column_index(b.schema.fields@, name);
}

} // verus!
