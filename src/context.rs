use vstd::prelude::*;

use std::collections::VecDeque;

use crate::data_value::DataValue;
use crate::error::DataError;

verus! {

/// An opaque unit of input data, claimed at most once per query.
#[derive(Debug, PartialEq, Eq)]
pub struct Partition {
    pub name: String,
    pub version: u64,
}

impl Clone for Partition {
    fn clone(&self) -> (r: Self)
        ensures
            r == *self,
    {
        Partition { name: self.name.clone(), version: self.version }
    }
}

/// Rows and bytes read so far by a query.
#[derive(Clone, Copy, Debug, PartialEq, Eq, Structural)]
pub struct Statistics {
    pub read_rows: usize,
    pub read_bytes: usize,
}

/// A node of the cluster.
#[derive(Debug)]
pub struct Node {
    pub name: String,
    pub address: String,
    pub cpus: u32,
}

impl Clone for Node {
    fn clone(&self) -> (r: Self)
        ensures
            r == *self,
    {
        Node { name: self.name.clone(), address: self.address.clone(), cpus: self.cpus }
    }
}

/// The nodes a query may run on.
#[derive(Debug)]
pub struct Cluster {
    pub nodes: Vec<Node>,
}

impl Cluster {
    pub fn empty() -> (r: Cluster)
        ensures
            r.nodes@.len() == 0,
    {
        Cluster { nodes: Vec::new() }
    }

    pub fn get_nodes(&self) -> (r: Result<Vec<Node>, DataError>)
        ensures
            r matches Ok(v) && v@ == self.nodes@,
    {
        let mut out: Vec<Node> = Vec::new();
        let mut i: usize = 0;
        while i < self.nodes.len()
            invariant
                i <= self.nodes@.len(),
                out@ == self.nodes@.subrange(0, i as int),
            decreases self.nodes@.len() - i,
        {
            out.push(self.nodes[i].clone());
            i = i + 1;
        }
        assert(out@ =~= self.nodes@);
        Ok(out)
    }
}

impl Clone for Cluster {
    fn clone(&self) -> (r: Self)
        ensures
            r.nodes@ == self.nodes@,
    {
        Cluster { nodes: self.get_nodes().unwrap() }
    }
}

/// The settings of a query.
#[derive(Debug)]
pub struct Settings {
    pub max_threads: u64,
    pub max_block_size: u64,
    pub default_db: String,
}

/// Relies on `uuid::Uuid::new_v4` and the hyphenated lower-case form its
/// `Display` writes, 36 characters long.
#[verifier::external_body]
fn new_query_id() -> (r: String)
    ensures
        r@.len() == 36,
{
    uuid::Uuid::new_v4().to_string()
}

/// Relies on `num_cpus::get`: the number of logical CPUs the process may use.
#[verifier::external_body]
fn cpu_count() -> (r: usize) {
    num_cpus::get()
}

/// The last `n` entries of a queue (all of them when it is shorter),
/// back first: what popping `n` times from the back gives.
pub open spec fn popped(q: Seq<Partition>, n: nat) -> Seq<Partition> {
    let k = if n <= q.len() { n } else { q.len() };
    Seq::new(k, |i: int| q[q.len() - 1 - i])
}

/// What stays in a queue after popping `n` entries from its back.
pub open spec fn remaining(q: Seq<Partition>, n: nat) -> Seq<Partition> {
    let k = if n <= q.len() { n } else { q.len() };
    q.subrange(0, q.len() - k)
}

/// The per-query state: its id, settings, statistics, cluster and the
/// queue of partitions not yet claimed.
#[derive(Debug)]
pub struct FuseQueryContext {
    pub uuid: String,
    pub settings: Settings,
    pub cluster: Cluster,
    pub statistics: Statistics,
    pub partition_queue: VecDeque<Partition>,
}

impl FuseQueryContext {
    /// A new context with a random id, default settings and an empty queue.
    pub fn try_create() -> (r: Result<FuseQueryContext, DataError>)
        ensures
            r matches Ok(c) && c.uuid@.len() == 36 && c.partition_queue@.len() == 0
                && c.statistics == (Statistics { read_rows: 0, read_bytes: 0 })
                && c.settings.max_block_size == 10000 && c.settings.default_db@ == "default"@
                && c.cluster.nodes@.len() == 0,
    {
        let settings = Settings {
            max_threads: cpu_count() as u64,
            max_block_size: 10000,
            default_db: String::from_str("default"),
        };
        Ok(
            FuseQueryContext {
                uuid: new_query_id(),
                settings,
                cluster: Cluster::empty(),
                statistics: Statistics { read_rows: 0, read_bytes: 0 },
                partition_queue: VecDeque::new(),
            },
        )
    }

    /// The same context on another cluster.
    pub fn with_cluster(self, cluster: Cluster) -> (r: Result<FuseQueryContext, DataError>)
        ensures
            r matches Ok(c) && c.cluster == cluster && c.uuid == self.uuid
                && c.partition_queue@ == self.partition_queue@ && c.statistics == self.statistics,
    {
        let mut c = self;
        c.cluster = cluster;
        Ok(c)
    }

    /// The same context under another id.
    pub fn with_id(self, uuid: &str) -> (r: Result<FuseQueryContext, DataError>)
        ensures
            r matches Ok(c) && c.uuid@ == uuid@ && c.cluster == self.cluster
                && c.partition_queue@ == self.partition_queue@ && c.statistics == self.statistics,
    {
        let mut c = self;
        c.uuid = String::from_str(uuid);
        Ok(c)
    }

    /// Clears the statistics and the partition queue.
    pub fn reset(&mut self) -> (r: Result<(), DataError>)
        ensures
            r is Ok,
            final(self).statistics == (Statistics { read_rows: 0, read_bytes: 0 }),
            final(self).partition_queue@.len() == 0,
            final(self).uuid == old(self).uuid,
    {
        self.statistics = Statistics { read_rows: 0, read_bytes: 0 };
        self.partition_queue.clear();
        Ok(())
    }

    /// Claims up to `num` partitions from the back of the queue; fewer when
    /// the queue runs out, none when it is empty.
    pub fn try_get_partitions(&mut self, num: usize) -> (r: Result<Vec<Partition>, DataError>)
        ensures
            r matches Ok(v) && v@ == popped(old(self).partition_queue@, num as nat),
            final(self).partition_queue@ == remaining(old(self).partition_queue@, num as nat),
            final(self).uuid == old(self).uuid,
            final(self).statistics == old(self).statistics,
            final(self).settings == old(self).settings,
            final(self).cluster == old(self).cluster,
    {
        let ghost q = self.partition_queue@;
        let mut partitions: Vec<Partition> = Vec::new();
        let mut i: usize = 0;
        while i < num
            invariant
                i <= num,
                i <= q.len(),
                self.uuid == old(self).uuid,
                self.statistics == old(self).statistics,
                self.settings == old(self).settings,
                self.cluster == old(self).cluster,
                q == old(self).partition_queue@,
                partitions@ == popped(q, i as nat),
                self.partition_queue@ == remaining(q, i as nat),
            decreases num - i,
        {
            match self.partition_queue.pop_back() {
                None => {
                    assert(popped(q, num as nat) =~= popped(q, i as nat));
                    assert(remaining(q, num as nat) =~= remaining(q, i as nat));
                    return Ok(partitions);
                },
                Some(p) => {
                    partitions.push(p);
                },
            }
            i = i + 1;
            assert(partitions@ =~= popped(q, i as nat));
            assert(self.partition_queue@ =~= remaining(q, i as nat));
        }
        Ok(partitions)
    }

    /// Appends partitions to the back of the queue.
    pub fn try_set_partitions(&mut self, partitions: Vec<Partition>) -> (r: Result<(), DataError>)
        ensures
            r is Ok,
            final(self).partition_queue@ == old(self).partition_queue@ + partitions@,
            final(self).uuid == old(self).uuid,
            final(self).statistics == old(self).statistics,
            final(self).settings == old(self).settings,
            final(self).cluster == old(self).cluster,
    {
        let mut i: usize = 0;
        let mut parts = partitions;
        let ghost ps = parts@;
        while i < parts.len()
            invariant
                i <= ps.len(),
                parts@ == ps,
                self.uuid == old(self).uuid,
                self.statistics == old(self).statistics,
                self.settings == old(self).settings,
                self.cluster == old(self).cluster,
                self.partition_queue@ == old(self).partition_queue@ + ps.subrange(0, i as int),
            decreases ps.len() - i,
        {
            self.partition_queue.push_back(parts[i].clone());
            i = i + 1;
            assert(self.partition_queue@ =~= old(self).partition_queue@ + ps.subrange(0, i as int));
        }
        assert(ps.subrange(0, i as int) =~= ps);
        Ok(())
    }

    pub fn try_get_statistics(&self) -> (r: Result<Statistics, DataError>)
        ensures
            r == Ok::<Statistics, DataError>(self.statistics),
    {
        Ok(Statistics {
            read_rows: self.statistics.read_rows,
            read_bytes: self.statistics.read_bytes,
        })
    }

    pub fn try_set_statistics(&mut self, val: &Statistics) -> (r: Result<(), DataError>)
        ensures
            r is Ok,
            final(self).statistics == *val,
            final(self).uuid == old(self).uuid,
            final(self).partition_queue@ == old(self).partition_queue@,
    {
        self.statistics = *val;
        Ok(())
    }

    pub fn try_get_cluster(&self) -> (r: Result<Cluster, DataError>)
        ensures
            r matches Ok(c) && c.nodes@ == self.cluster.nodes@,
    {
        Ok(self.cluster.clone())
    }

    /// The settings as values: max_threads, max_block_size, default_db.
    pub fn get_settings(&self) -> (r: Result<Vec<DataValue>, DataError>)
        ensures
            r matches Ok(v) && v@.len() == 3 && v@[0] == DataValue::UInt64(self.settings.max_threads)
                && v@[1] == DataValue::UInt64(self.settings.max_block_size) && v@[2] == DataValue::String(
                self.settings.default_db,
            ),
    {
        let mut v: Vec<DataValue> = Vec::new();
        v.push(DataValue::UInt64(self.settings.max_threads));
        v.push(DataValue::UInt64(self.settings.max_block_size));
        v.push(DataValue::String(self.settings.default_db.clone()));
        Ok(v)
    }

    pub fn get_id(&self) -> (r: Result<String, DataError>)
        ensures
            r == Ok::<String, DataError>(self.uuid),
    {
        Ok(self.uuid.clone())
    }
}

/// The position of the first context with this id, if any.
pub open spec fn context_index(cs: Seq<FuseQueryContext>, id: Seq<char>) -> Option<int>
    decreases cs.len(),
{
    if cs.len() == 0 {
        None
    } else {
        match context_index(cs.drop_last(), id) {
            Some(i) => Some(i),
            None => if cs.last().uuid@ == id {
                Some(cs.len() - 1)
            } else {
                None
            },
        }
    }
}

proof fn lemma_context_index_bound(cs: Seq<FuseQueryContext>, id: Seq<char>)
    ensures
        context_index(cs, id) matches Some(i) ==> 0 <= i < cs.len() && cs[i].uuid@ == id,
    decreases cs.len(),
{
    if cs.len() > 0 {
        lemma_context_index_bound(cs.drop_last(), id);
    }
}

proof fn lemma_context_index_extends(cs: Seq<FuseQueryContext>, id: Seq<char>, k: int)
    requires
        0 <= k <= cs.len(),
        context_index(cs.take(k), id) is Some,
    ensures
        context_index(cs, id) == context_index(cs.take(k), id),
    decreases cs.len() - k,
{
    if k < cs.len() {
        assert(cs.take(k + 1).drop_last() =~= cs.take(k));
        lemma_context_index_extends(cs, id, k + 1);
    } else {
        assert(cs.take(k) =~= cs);
    }
}

/// No context is found before the end when none has the id.
proof fn lemma_context_index_none(cs: Seq<FuseQueryContext>, id: Seq<char>)
    requires
        context_index(cs, id) is None,
    ensures
        forall|j: int| 0 <= j < cs.len() ==> (#[trigger] cs[j]).uuid@ != id,
    decreases cs.len(),
{
    if cs.len() > 0 {
        lemma_context_index_none(cs.drop_last(), id);
        assert forall|j: int| 0 <= j < cs.len() implies (#[trigger] cs[j]).uuid@ != id by {
            if j < cs.len() - 1 {
                assert(cs[j] == cs.drop_last()[j]);
            }
        }
    }
}

/// No two contexts share an id.
pub open spec fn unique_ids(cs: Seq<FuseQueryContext>) -> bool {
    forall|i: int, j: int| 0 <= i < j < cs.len() ==> (#[trigger] cs[i]).uuid@ != (#[trigger] cs[j]).uuid@
}

/// The claimed context keeps its id, statistics, settings and cluster; every
/// other context is untouched.
pub open spec fn others_kept(old_cs: Seq<FuseQueryContext>, new_cs: Seq<FuseQueryContext>, i: int) -> bool {
    &&& new_cs.len() == old_cs.len()
    &&& forall|j: int| 0 <= j < old_cs.len() && j != i ==> #[trigger] new_cs[j] == old_cs[j]
    &&& new_cs[i].uuid == old_cs[i].uuid
    &&& new_cs[i].statistics == old_cs[i].statistics
    &&& new_cs[i].settings == old_cs[i].settings
    &&& new_cs[i].cluster == old_cs[i].cluster
}

/// Replacing one context by one with the same id keeps the ids unique and
/// every other context as it was.
proof fn lemma_update_kept(old_cs: Seq<FuseQueryContext>, new_cs: Seq<FuseQueryContext>, i: int)
    requires
        0 <= i < old_cs.len(),
        unique_ids(old_cs),
        new_cs == old_cs.remove(i).insert(i, new_cs[i]),
        new_cs[i].uuid == old_cs[i].uuid,
    ensures
        unique_ids(new_cs),
        new_cs.len() == old_cs.len(),
        forall|j: int| 0 <= j < old_cs.len() && j != i ==> #[trigger] new_cs[j] == old_cs[j],
{
    assert forall|j: int| 0 <= j < old_cs.len() && j != i implies #[trigger] new_cs[j] == old_cs[j] by {
        if j < i {
            assert(new_cs[j] == old_cs.remove(i)[j]);
        } else {
            assert(new_cs[j] == old_cs.remove(i)[j - 1]);
        }
    }
    assert forall|a: int, b: int| 0 <= a < b < new_cs.len() implies (#[trigger] new_cs[a]).uuid@
        != (#[trigger] new_cs[b]).uuid@ by {
        if a != i {
            assert(new_cs[a] == old_cs[a]);
        }
        if b != i {
            assert(new_cs[b] == old_cs[b]);
        }
    }
}

/// The error for a new id that a live context already has.
pub open spec fn duplicate_of(e: DataError, cs: Seq<FuseQueryContext>) -> bool {
    match e {
        DataError::DuplicateContext { id } => context_index(cs, id@) is Some,
        _ => false,
    }
}

/// The error for an id that no context has.
pub open spec fn unknown_context(e: DataError, id: Seq<char>) -> bool {
    match e {
        DataError::UnknownContext { id: i } => i@ == id,
        _ => false,
    }
}

/// The live query contexts, by id.
#[derive(Debug)]
pub struct Session {
    pub contexts: Vec<FuseQueryContext>,
}

impl Session {
    pub open spec fn wf(&self) -> bool {
        unique_ids(self.contexts@)
    }

    pub fn create() -> (r: Session)
        ensures
            r.contexts@.len() == 0,
            r.wf(),
    {
        Session { contexts: Vec::new() }
    }

    fn find(&self, id: &str) -> (r: Option<usize>)
        ensures
            match context_index(self.contexts@, id@) {
                Some(i) => r == Some(i as usize) && 0 <= i < self.contexts@.len(),
                None => r is None,
            },
    {
        let wanted = String::from_str(id);
        let ghost cs = self.contexts@;
        proof {
            lemma_context_index_bound(cs, id@);
        }
        let mut i: usize = 0;
        assert(cs.take(0) =~= Seq::<FuseQueryContext>::empty());
        while i < self.contexts.len()
            invariant
                i <= cs.len(),
                cs == self.contexts@,
                wanted@ == id@,
                context_index(cs.take(i as int), id@) is None,
            decreases cs.len() - i,
        {
            assert(cs.take(i + 1).drop_last() =~= cs.take(i as int));
            if self.contexts[i].uuid == wanted {
                proof {
                    lemma_context_index_extends(cs, id@, i + 1);
                    lemma_context_index_bound(cs, id@);
                }
                return Some(i);
            }
            i = i + 1;
        }
        assert(cs.take(i as int) =~= cs);
        None
    }

    /// Creates a context, keeps it, and returns its id; an id that a live
    /// context already has is refused, so ids stay unique.
    pub fn try_create_context(&mut self) -> (r: Result<String, DataError>)
        requires
            old(self).wf(),
        ensures
            final(self).wf(),
            match r {
                Ok(id) => id@.len() == 36 && context_index(old(self).contexts@, id@) is None
                    && final(self).contexts@.len() == old(self).contexts@.len() + 1
                    && final(self).contexts@.last().uuid == id && final(self).contexts@.drop_last()
                    == old(self).contexts@,
                Err(e) => final(self).contexts@ == old(self).contexts@ && duplicate_of(
                    e,
                    old(self).contexts@,
                ),
            },
    {
        let ctx = FuseQueryContext::try_create().unwrap();
        let id = ctx.uuid.clone();
        if self.find(id.as_str()).is_some() {
            return Err(DataError::DuplicateContext { id });
        }
        proof {
            lemma_context_index_none(self.contexts@, id@);
        }
        let ghost before = self.contexts@;
        self.contexts.push(ctx);
        assert(self.contexts@.drop_last() =~= old(self).contexts@);
        proof {
            let cs = self.contexts@;
            assert forall|i: int, j: int| 0 <= i < j < cs.len() implies (#[trigger] cs[i]).uuid@
                != (#[trigger] cs[j]).uuid@ by {
                if j == cs.len() - 1 {
                    assert(cs[i] == before[i]);
                } else {
                    assert(cs[i] == before[i] && cs[j] == before[j]);
                }
            }
        }
        Ok(id)
    }

    /// Drops the context with this id, if there is one.
    pub fn try_remove_context(&mut self, id: &str) -> (r: Result<(), DataError>)
        requires
            old(self).wf(),
        ensures
            final(self).wf(),
            r is Ok,
            match context_index(old(self).contexts@, id@) {
                Some(i) => final(self).contexts@ == old(self).contexts@.remove(i),
                None => final(self).contexts@ == old(self).contexts@,
            },
    {
        match self.find(id) {
            Some(i) => {
                let ghost before = self.contexts@;
                self.contexts.remove(i);
                proof {
                    let cs = self.contexts@;
                    assert forall|a: int, b: int| 0 <= a < b < cs.len() implies (#[trigger] cs[a]).uuid@
                        != (#[trigger] cs[b]).uuid@ by {
                        let a0 = if a < i { a } else { a + 1 };
                        let b0 = if b < i { b } else { b + 1 };
                        assert(cs[a] == before[a0] && cs[b] == before[b0]);
                    }
                }
            },
            None => {},
        }
        Ok(())
    }

    /// Appends partitions to the queue of the context with this id.
    pub fn try_set_partitions(&mut self, ctx_id: &str, partitions: Vec<Partition>) -> (r: Result<
        (),
        DataError,
    >)
        requires
            old(self).wf(),
        ensures
            final(self).wf(),
            match context_index(old(self).contexts@, ctx_id@) {
                Some(i) => r is Ok && others_kept(old(self).contexts@, final(self).contexts@, i)
                    && final(self).contexts@[i].partition_queue@ == old(self).contexts@[i].partition_queue@
                    + partitions@,
                None => r is Err && unknown_context(r->Err_0, ctx_id@) && final(self).contexts@
                    == old(self).contexts@,
            },
    {
        match self.find(ctx_id) {
            Some(i) => {
                let ghost before = self.contexts@;
                let mut ctx = self.contexts.remove(i);
                let r = ctx.try_set_partitions(partitions);
                self.contexts.insert(i, ctx);
                proof {
                    lemma_update_kept(before, self.contexts@, i as int);
                }
                r
            },
            None => Err(DataError::UnknownContext { id: String::from_str(ctx_id) }),
        }
    }

    /// Claims up to `nums` partitions from the context with this id.
    pub fn try_fetch_partitions(&mut self, ctx_id: &str, nums: usize) -> (r: Result<
        Vec<Partition>,
        DataError,
    >)
        requires
            old(self).wf(),
        ensures
            final(self).wf(),
            match context_index(old(self).contexts@, ctx_id@) {
                Some(i) => r matches Ok(v) && v@ == popped(
                    old(self).contexts@[i].partition_queue@,
                    nums as nat,
                ) && others_kept(old(self).contexts@, final(self).contexts@, i)
                    && final(self).contexts@[i].partition_queue@ == remaining(
                    old(self).contexts@[i].partition_queue@,
                    nums as nat,
                ),
                None => r is Err && unknown_context(r->Err_0, ctx_id@) && final(self).contexts@
                    == old(self).contexts@,
            },
    {
        match self.find(ctx_id) {
            Some(i) => {
                let ghost before = self.contexts@;
                let mut ctx = self.contexts.remove(i);
                let r = ctx.try_get_partitions(nums);
                self.contexts.insert(i, ctx);
                proof {
                    lemma_update_kept(before, self.contexts@, i as int);
                }
                r
            },
            None => Err(DataError::UnknownContext { id: String::from_str(ctx_id) }),
        }
    }
}

} // verus!
