use vstd::prelude::*;

use crate::context::{FuseQueryContext, Node, Partition, Statistics};
use crate::data_array::DataArray;
use crate::data_block::{block_wf, DataBlock, DataField, DataSchema};
use crate::data_type::DataType;
use crate::data_value::DataValue;
use crate::error::DataError;

verus! {

/// How to read a table: where, with which schema, over which partitions.
#[derive(Debug)]
pub struct ReadDataSourcePlan {
    pub db: String,
    pub table: String,
    pub schema: DataSchema,
    pub partitions: Vec<Partition>,
    pub statistics: Statistics,
    pub description: String,
}

/// The read plan of a system table: one partition with an empty name.
fn system_read_plan(table: &str, schema: &DataSchema, description: &str) -> (r: ReadDataSourcePlan)
    ensures
        r.db@ == "system"@,
        r.table@ == table@,
        r.schema.fields@ == schema.fields@,
        r.partitions@.len() == 1,
        r.partitions@[0].name@ == ""@,
        r.partitions@[0].version == 0,
        r.statistics == (Statistics { read_rows: 0, read_bytes: 0 }),
        r.description@ == description@,
{
    let mut partitions: Vec<Partition> = Vec::new();
    partitions.push(Partition { name: String::from_str(""), version: 0 });
    ReadDataSourcePlan {
        db: String::from_str("system"),
        table: String::from_str(table),
        schema: schema.clone(),
        partitions,
        statistics: Statistics { read_rows: 0, read_bytes: 0 },
        description: String::from_str(description),
    }
}

/// `system.one`: a single row with the column `dummy` = 1.
#[derive(Debug)]
pub struct OneTable {
    pub schema: DataSchema,
}

impl OneTable {
    pub fn create() -> (r: OneTable)
        ensures
            r.schema.fields@.len() == 1,
            r.schema.fields@[0].name@ == "dummy"@,
            r.schema.fields@[0].data_type == DataType::UInt8,
            !r.schema.fields@[0].nullable,
    {
        let mut fields: Vec<DataField> = Vec::new();
        fields.push(DataField::new("dummy", DataType::UInt8, false));
        OneTable { schema: DataSchema::new(fields) }
    }

    pub fn name(&self) -> (r: &'static str)
        ensures
            r@ == "one"@,
    {
        "one"
    }

    pub fn engine(&self) -> (r: &'static str)
        ensures
            r@ == "SystemOne"@,
    {
        "SystemOne"
    }

    pub fn schema(&self) -> (r: Result<DataSchema, DataError>)
        ensures
            r matches Ok(s) && s.fields@ == self.schema.fields@,
    {
        Ok(self.schema.clone())
    }

    pub fn read_plan(&self) -> (r: Result<ReadDataSourcePlan, DataError>)
        ensures
            r matches Ok(p) && p.table@ == "one"@ && p.db@ == "system"@ && p.schema.fields@
                == self.schema.fields@ && p.partitions@.len() == 1,
    {
        Ok(system_read_plan("one", &self.schema, "(Read from system.one table)"))
    }

    /// The table's one block.
    pub fn read(&self) -> (r: Result<Vec<DataBlock>, DataError>)
        requires
            self.schema.fields@.len() == 1,
            self.schema.fields@[0].data_type == DataType::UInt8,
        ensures
            r matches Ok(v) && v@.len() == 1 && v@[0].wf() && v@[0].columns@.len() == 1
                && v@[0].columns@[0].values@ == seq![DataValue::UInt8(1)],
    {
        let mut columns: Vec<DataArray> = Vec::new();
        let mut ones: Vec<u8> = Vec::new();
        ones.push(1);
        columns.push(DataArray::from_u8(ones));
        let schema = self.schema.clone();
        assert(columns@[0].values@ =~= seq![DataValue::UInt8(1)]);
        assert(block_wf(schema, columns@));
        let mut blocks: Vec<DataBlock> = Vec::new();
        blocks.push(DataBlock::create(schema, columns));
        Ok(blocks)
    }
}

/// `system.clusters`: one row per node of the query's cluster.
#[derive(Debug)]
pub struct ClustersTable {
    pub schema: DataSchema,
}

impl ClustersTable {
    pub fn create() -> (r: ClustersTable)
        ensures
            r.schema.fields@.len() == 3,
            r.schema.fields@[0].name@ == "name"@ && r.schema.fields@[0].data_type == DataType::Utf8,
            r.schema.fields@[1].name@ == "address"@ && r.schema.fields@[1].data_type
                == DataType::Utf8,
            r.schema.fields@[2].name@ == "cpus"@ && r.schema.fields@[2].data_type
                == DataType::UInt32,
            r.schema.wf(),
    {
        let mut fields: Vec<DataField> = Vec::new();
        fields.push(DataField::new("name", DataType::Utf8, false));
        fields.push(DataField::new("address", DataType::Utf8, false));
        fields.push(DataField::new("cpus", DataType::UInt32, false));
        proof {
            reveal_strlit("name");
            reveal_strlit("address");
            reveal_strlit("cpus");
            assert("name"@[0] != "cpus"@[0]);
            assert("name"@.len() != "address"@.len());
            assert("address"@.len() != "cpus"@.len());
        }
        ClustersTable { schema: DataSchema::new(fields) }
    }

    pub fn name(&self) -> (r: &'static str)
        ensures
            r@ == "clusters"@,
    {
        "clusters"
    }

    pub fn engine(&self) -> (r: &'static str)
        ensures
            r@ == "SystemClusters"@,
    {
        "SystemClusters"
    }

    pub fn schema(&self) -> (r: Result<DataSchema, DataError>)
        ensures
            r matches Ok(s) && s.fields@ == self.schema.fields@,
    {
        Ok(self.schema.clone())
    }

    pub fn read_plan(&self) -> (r: Result<ReadDataSourcePlan, DataError>)
        ensures
            r matches Ok(p) && p.table@ == "clusters"@ && p.db@ == "system"@ && p.schema.fields@
                == self.schema.fields@ && p.partitions@.len() == 1,
    {
        Ok(system_read_plan("clusters", &self.schema, "(Read from system.clusters table)"))
    }

    /// One block with the name, address and cpu count of each node.
    pub fn read(&self, ctx: &FuseQueryContext) -> (r: Result<Vec<DataBlock>, DataError>)
        requires
            self.schema.wf(),
            self.schema.fields@.len() == 3,
            self.schema.fields@[0].data_type == DataType::Utf8,
            self.schema.fields@[1].data_type == DataType::Utf8,
            self.schema.fields@[2].data_type == DataType::UInt32,
        ensures
            r matches Ok(v) && v@.len() == 1 && node_rows(v@[0], self.schema, ctx.cluster.nodes@),
    {
        let nodes = match ctx.try_get_cluster() {
            Ok(c) => c.nodes,
            Err(e) => {
                return Err(e);
            },
        };
        let mut names: Vec<DataValue> = Vec::new();
        let mut addresses: Vec<DataValue> = Vec::new();
        let mut cpus: Vec<DataValue> = Vec::new();
        let mut i: usize = 0;
        while i < nodes.len()
            invariant
                i <= nodes@.len(),
                nodes@ == ctx.cluster.nodes@,
                names@.len() == i,
                addresses@.len() == i,
                cpus@.len() == i,
                forall|j: int| 0 <= j < i ==> #[trigger] names@[j] == DataValue::String(nodes@[j].name),
                forall|j: int|
                    0 <= j < i ==> #[trigger] addresses@[j] == DataValue::String(nodes@[j].address),
                forall|j: int| 0 <= j < i ==> #[trigger] cpus@[j] == DataValue::UInt32(nodes@[j].cpus),
            decreases nodes@.len() - i,
        {
            names.push(DataValue::String(nodes[i].name.clone()));
            addresses.push(DataValue::String(nodes[i].address.clone()));
            cpus.push(DataValue::UInt32(nodes[i].cpus));
            i = i + 1;
        }
        let mut columns: Vec<DataArray> = Vec::new();
        columns.push(DataArray { data_type: DataType::Utf8, values: names });
        columns.push(DataArray { data_type: DataType::Utf8, values: addresses });
        columns.push(DataArray { data_type: DataType::UInt32, values: cpus });
        let schema = self.schema.clone();
        assert(block_wf(schema, columns@));
        let mut blocks: Vec<DataBlock> = Vec::new();
        blocks.push(DataBlock::create(schema, columns));
        Ok(blocks)
    }
}

/// `b` is the block of `nodes` in `schema`: one row per node holding its
/// name, address and cpu count.
pub open spec fn node_rows(b: DataBlock, schema: DataSchema, nodes: Seq<Node>) -> bool {
    &&& b.wf()
    &&& b.schema.fields@ == schema.fields@
    &&& b.columns@.len() == 3
    &&& b.num_rows_spec() == nodes.len()
    &&& forall|i: int|
        0 <= i < nodes.len() ==> #[trigger] b.columns@[0].values@[i] == DataValue::String(
            nodes[i].name,
        ) && b.columns@[1].values@[i] == DataValue::String(nodes[i].address)
            && b.columns@[2].values@[i] == DataValue::UInt32(nodes[i].cpus)
}

/// A table that lives on another node; reading it here is not offered.
#[derive(Debug)]
pub struct RemoteTable {
    pub db: String,
    pub name: String,
    pub schema: DataSchema,
}

impl RemoteTable {
    pub fn try_create(db: String, name: String, schema: DataSchema) -> (r: Result<
        RemoteTable,
        DataError,
    >)
        ensures
            r matches Ok(t) && t.db == db && t.name == name && t.schema == schema,
    {
        Ok(RemoteTable { db, name, schema })
    }

    pub fn name(&self) -> (r: &String)
        ensures
            r == &self.name,
    {
        &self.name
    }

    pub fn engine(&self) -> (r: &'static str)
        ensures
            r@ == "remote"@,
    {
        "remote"
    }

    pub fn schema(&self) -> (r: Result<DataSchema, DataError>)
        ensures
            r matches Ok(s) && s.fields@ == self.schema.fields@,
    {
        Ok(self.schema.clone())
    }

    pub fn read_plan(&self) -> (r: Result<ReadDataSourcePlan, DataError>)
        ensures
            r matches Err(DataError::Unimplemented { what }) && what@ == "RemoteTable read_plan"@,
    {
        Err(DataError::Unimplemented { what: String::from_str("RemoteTable read_plan") })
    }

    pub fn read(&self) -> (r: Result<Vec<DataBlock>, DataError>)
        ensures
            r matches Err(DataError::Unimplemented { what }) && what@ == "RemoteTable read"@,
    {
        Err(DataError::Unimplemented { what: String::from_str("RemoteTable read") })
    }
}

/// A CSV table: its name, batch size, schema and partition files.
#[derive(Debug)]
pub struct CsvTable {
    pub name: String,
    pub batch_size: usize,
    pub schema: DataSchema,
    pub partitions: Vec<Partition>,
}

/// A source stage that reads the given partitions of `db.table`.
#[derive(Debug)]
pub struct SourceTransform {
    pub db: String,
    pub table: String,
    pub partitions: Vec<Partition>,
}

/// The CSV test table `default.t1`, read 20 rows at a time.
#[derive(Debug)]
pub struct CsvTestData {
    pub db: String,
    pub table: String,
    pub batch_size: usize,
}

impl CsvTestData {
    pub fn create() -> (r: CsvTestData)
        ensures
            r.db@ == "default"@,
            r.table@ == "t1"@,
            r.batch_size == 20,
    {
        CsvTestData {
            db: String::from_str("default"),
            table: String::from_str("t1"),
            batch_size: 20,
        }
    }

    /// Thirteen non-null columns `c1` to `c13`.
    pub fn csv_table_schema_for_test(&self) -> (r: DataSchema)
        ensures
            r.fields@.len() == 13,
            r.fields@[0].name@ == "c1"@ && r.fields@[0].data_type == DataType::Utf8,
            r.fields@[1].name@ == "c2"@ && r.fields@[1].data_type == DataType::UInt32,
            r.fields@[2].name@ == "c3"@ && r.fields@[2].data_type == DataType::Int8,
            r.fields@[3].name@ == "c4"@ && r.fields@[3].data_type == DataType::Int16,
            r.fields@[4].name@ == "c5"@ && r.fields@[4].data_type == DataType::Int32,
            r.fields@[5].name@ == "c6"@ && r.fields@[5].data_type == DataType::Int64,
            r.fields@[6].name@ == "c7"@ && r.fields@[6].data_type == DataType::UInt8,
            r.fields@[7].name@ == "c8"@ && r.fields@[7].data_type == DataType::UInt16,
            r.fields@[8].name@ == "c9"@ && r.fields@[8].data_type == DataType::UInt32,
            r.fields@[9].name@ == "c10"@ && r.fields@[9].data_type == DataType::UInt64,
            r.fields@[10].name@ == "c11"@ && r.fields@[10].data_type == DataType::Float32,
            r.fields@[11].name@ == "c12"@ && r.fields@[11].data_type == DataType::Float64,
            r.fields@[12].name@ == "c13"@ && r.fields@[12].data_type == DataType::Utf8,
            forall|i: int| 0 <= i < 13 ==> !(#[trigger] r.fields@[i]).nullable,
    {
        let mut f: Vec<DataField> = Vec::new();
        f.push(DataField::new("c1", DataType::Utf8, false));
        f.push(DataField::new("c2", DataType::UInt32, false));
        f.push(DataField::new("c3", DataType::Int8, false));
        f.push(DataField::new("c4", DataType::Int16, false));
        f.push(DataField::new("c5", DataType::Int32, false));
        f.push(DataField::new("c6", DataType::Int64, false));
        f.push(DataField::new("c7", DataType::UInt8, false));
        f.push(DataField::new("c8", DataType::UInt16, false));
        f.push(DataField::new("c9", DataType::UInt32, false));
        f.push(DataField::new("c10", DataType::UInt64, false));
        f.push(DataField::new("c11", DataType::Float32, false));
        f.push(DataField::new("c12", DataType::Float64, false));
        f.push(DataField::new("c13", DataType::Utf8, false));
        DataSchema::new(f)
    }

    /// The four partition files under `dir`, all of version 0.
    pub fn csv_table_partitions_for_test(&self, dir: &str) -> (r: Vec<Partition>)
        ensures
            r@.len() == 4,
            r@[0].name@ == dir@ + "/src/testdata/data/csv/part_0000_v0_0000100.csv"@,
            r@[1].name@ == dir@ + "/src/testdata/data/csv/part_0001_v0_0000000.csv"@,
            r@[2].name@ == dir@ + "/src/testdata/data/csv/part_0002_v0_0000100.csv"@,
            r@[3].name@ == dir@ + "/src/testdata/data/csv/part_0003_v0_0000001.csv"@,
            forall|i: int| 0 <= i < 4 ==> (#[trigger] r@[i]).version == 0,
    {
        let mut v: Vec<Partition> = Vec::new();
        v.push(Partition {
            name: String::from_str(dir).concat("/src/testdata/data/csv/part_0000_v0_0000100.csv"),
            version: 0,
        });
        v.push(Partition {
            name: String::from_str(dir).concat("/src/testdata/data/csv/part_0001_v0_0000000.csv"),
            version: 0,
        });
        v.push(Partition {
            name: String::from_str(dir).concat("/src/testdata/data/csv/part_0002_v0_0000100.csv"),
            version: 0,
        });
        v.push(Partition {
            name: String::from_str(dir).concat("/src/testdata/data/csv/part_0003_v0_0000001.csv"),
            version: 0,
        });
        v
    }

    /// The CSV table over the test partitions.
    pub fn csv_table_datasource_for_test(&self, dir: &str) -> (r: CsvTable)
        ensures
            r.name@ == self.table@,
            r.batch_size == self.batch_size,
            r.schema.fields@.len() == 13,
            r.partitions@.len() == 4,
    {
        CsvTable {
            name: self.table.clone(),
            batch_size: self.batch_size,
            schema: self.csv_table_schema_for_test(),
            partitions: self.csv_table_partitions_for_test(dir),
        }
    }

    /// A source stage reading every test partition of `default.t1`.
    pub fn csv_table_source_transform_for_test(&self, dir: &str) -> (r: Result<
        SourceTransform,
        DataError,
    >)
        ensures
            r matches Ok(s) && s.db@ == self.db@ && s.table@ == self.table@ && s.partitions@.len()
                == 4,
    {
        Ok(
            SourceTransform {
                db: self.db.clone(),
                table: self.table.clone(),
                partitions: self.csv_table_partitions_for_test(dir),
            },
        )
    }
}

} // verus!
