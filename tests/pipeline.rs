use fusequery::context::{Cluster, FuseQueryContext, Node, Partition, Session, Statistics};
use fusequery::data_array::DataArray;
use fusequery::data_block::{DataBlock, DataField, DataSchema};
use fusequery::data_type::DataType;
use fusequery::data_value::DataValue;
use fusequery::error::DataError;
use fusequery::pipeline::{MergeAction, MergeEvent, MergeState, Pipeline, ProcessorKind, RemoteTransform};
use fusequery::tables::{ClustersTable, CsvTestData, OneTable, RemoteTable};

fn part(name: &str) -> Partition {
    Partition { name: name.to_string(), version: 0 }
}

#[test]
fn test_processor_merge() {
    let mut pipeline = Pipeline::create();
    pipeline.add_source(0).unwrap();
    pipeline.merge_processor().unwrap();
    let terminal = pipeline.execute().unwrap();
    assert_eq!(pipeline.processors[terminal].kind, ProcessorKind::Merge);
    assert_eq!(pipeline.processors[terminal].inputs, vec![0]);

    let schema = DataSchema::new(vec![DataField::new("number", DataType::UInt64, false)]);
    let source = vec![DataBlock::create(schema, vec![DataArray::from_u64(vec![0, 1])])];
    let mut merge = MergeState::new(1);
    let mut out: Vec<&DataBlock> = vec![];
    for b in &source {
        if merge.on_event(MergeEvent::Item(0)) == MergeAction::Emit {
            out.push(b);
        }
    }
    assert_eq!(merge.on_event(MergeEvent::End(0)), MergeAction::Done);
    let v = out[0];
    assert_eq!(v.column(0).values(), DataArray::from_u64(vec![0, 1]).values());
}

#[test]
fn pipeline_builds_branches_then_merges() {
    let mut p = Pipeline::create();
    assert_eq!(p.execute().unwrap_err(), DataError::Pipeline { terminals: 0 });
    p.add_source(0).unwrap();
    p.add_source(1).unwrap();
    p.add_simple_transform(7).unwrap();
    assert_eq!(p.nums(), 2);
    assert_eq!(p.execute().unwrap_err(), DataError::Pipeline { terminals: 2 });
    assert_eq!(p.add_source(2).unwrap_err(), DataError::Pipeline { terminals: 2 });
    p.merge_processor().unwrap();
    p.add_simple_transform(8).unwrap();
    let t = p.execute().unwrap();
    assert_eq!(p.processors[t].kind, ProcessorKind::Transform(8));
    let m = p.processors[t].inputs[0];
    assert_eq!(p.processors[m].kind, ProcessorKind::Merge);
    assert_eq!(p.processors[m].inputs, vec![2, 3]);
}

#[test]
fn merge_passes_each_item_once() {
    let mut merge = MergeState::new(3);
    let events = [
        MergeEvent::Item(1),
        MergeEvent::Item(0),
        MergeEvent::Item(1),
        MergeEvent::End(2),
        MergeEvent::End(1),
        MergeEvent::Item(0),
    ];
    let mut emitted = 0;
    for e in events {
        let a = merge.on_event(e);
        assert_ne!(a, MergeAction::Fail);
        if a == MergeAction::Emit {
            emitted += 1;
        }
    }
    assert_eq!(emitted, 4);
    assert_eq!(merge.on_event(MergeEvent::End(0)), MergeAction::Done);
    assert_eq!(merge.yielded, vec![2, 2, 0]);
    assert_eq!(merge.on_event(MergeEvent::Item(1)), MergeAction::Fail);
}

#[test]
fn merge_stops_at_first_error() {
    let mut merge = MergeState::new(2);
    assert_eq!(merge.on_event(MergeEvent::Item(0)), MergeAction::Emit);
    assert_eq!(merge.on_event(MergeEvent::Error(1)), MergeAction::Fail);
    assert_eq!(merge.on_event(MergeEvent::Item(0)), MergeAction::Fail);
    assert!(merge.failed);
}

#[test]
fn partition_queue_pops_from_the_back() {
    let mut ctx = FuseQueryContext::try_create().unwrap();
    ctx.try_set_partitions(vec![part("north"), part("south"), part("east")]).unwrap();
    let first = ctx.try_get_partitions(2).unwrap();
    assert_eq!(first, vec![part("east"), part("south")]);
    let second = ctx.try_get_partitions(5).unwrap();
    assert_eq!(second, vec![part("north")]);
    assert!(ctx.try_get_partitions(1).unwrap().is_empty());
    ctx.try_set_partitions(vec![part("south")]).unwrap();
    assert_eq!(ctx.try_get_partitions(0).unwrap(), vec![]);
    assert_eq!(ctx.try_get_partitions(3).unwrap(), vec![part("south")]);
}

#[test]
fn context_defaults_and_reset() {
    let ctx = FuseQueryContext::try_create().unwrap();
    assert_eq!(ctx.get_id().unwrap().len(), 36);
    let settings = ctx.get_settings().unwrap();
    assert_eq!(settings[1], DataValue::UInt64(10000));
    assert_eq!(settings[2], DataValue::String("default".to_string()));
    let mut ctx = ctx.with_id("cf6db5fe-7595-4d85-97ee-71f051b21cbe").unwrap();
    assert_eq!(ctx.get_id().unwrap(), "cf6db5fe-7595-4d85-97ee-71f051b21cbe");
    ctx.try_set_statistics(&Statistics { read_rows: 3, read_bytes: 24 }).unwrap();
    assert_eq!(ctx.try_get_statistics().unwrap(), Statistics { read_rows: 3, read_bytes: 24 });
    ctx.try_set_partitions(vec![part("x")]).unwrap();
    ctx.reset().unwrap();
    assert_eq!(ctx.try_get_statistics().unwrap(), Statistics { read_rows: 0, read_bytes: 0 });
    assert!(ctx.try_get_partitions(4).unwrap().is_empty());
}

#[test]
fn session_fetches_by_context_id() {
    let mut session = Session::create();
    let id = session.try_create_context().unwrap();
    session.try_set_partitions(&id, vec![part("a"), part("b")]).unwrap();
    assert_eq!(session.try_fetch_partitions(&id, 1).unwrap(), vec![part("b")]);
    assert_eq!(
        session.try_fetch_partitions("nope", 1).unwrap_err(),
        DataError::UnknownContext { id: "nope".to_string() }
    );
    session.try_remove_context(&id).unwrap();
    assert!(session.try_fetch_partitions(&id, 1).is_err());
}

#[test]
fn system_tables_read() {
    let one = OneTable::create();
    assert_eq!(one.name(), "one");
    let plan = one.read_plan().unwrap();
    assert_eq!(plan.description, "(Read from system.one table)");
    assert_eq!(plan.partitions, vec![part("")]);
    let blocks = one.read().unwrap();
    assert_eq!(blocks[0].column(0).values(), &vec![DataValue::UInt8(1)]);

    let nodes = vec![Node { name: "n1".to_string(), address: "127.0.0.1:9090".to_string(), cpus: 8 }];
    let ctx = FuseQueryContext::try_create().unwrap().with_cluster(Cluster { nodes }).unwrap();
    let clusters = ClustersTable::create();
    let blocks = clusters.read(&ctx).unwrap();
    assert_eq!(blocks[0].num_rows(), 1);
    assert_eq!(blocks[0].column(0).values(), &vec![DataValue::String("n1".to_string())]);
    assert_eq!(blocks[0].column(2).values(), &vec![DataValue::UInt32(8)]);

    let remote = RemoteTable::try_create("db".to_string(), "t".to_string(), one.schema().unwrap()).unwrap();
    assert_eq!(remote.engine(), "remote");
    assert!(remote.read().is_err());
}

#[test]
fn csv_test_data_describes_its_table() {
    let data = CsvTestData::create();
    let schema = data.csv_table_schema_for_test();
    assert_eq!(schema.fields().len(), 13);
    assert_eq!(schema.fields()[10].data_type, DataType::Float32);
    let parts = data.csv_table_partitions_for_test("/d");
    assert_eq!(parts[0].name, "/d/src/testdata/data/csv/part_0000_v0_0000100.csv");
    let source = data.csv_table_source_transform_for_test("/d").unwrap();
    assert_eq!(source.table, "t1");
    assert_eq!(data.csv_table_datasource_for_test("/d").batch_size, 20);
}

#[test]
fn remote_transform_connects() {
    let mut r = RemoteTransform::try_create("job".to_string(), "10.0.0.1:9090".to_string(), vec![1, 2]).unwrap();
    assert!(r.inputs().is_empty());
    r.connect_to(4).unwrap();
    assert_eq!(r.inputs(), vec![4]);
    assert_eq!(r.name(), "RemoteTransform");
}
