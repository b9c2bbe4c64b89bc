//! Flows: trees of jobs, possibly on several queues, where a parent runs only
//! after its children.
use vstd::prelude::*;

use crate::name::QueueName;
use crate::options::{default_job_options, JobOptions};

verus! {

/// A FlowJob is a temporary job, ready to be placed in a flow hierarchy.
pub struct PreparedFlowJob {
    /// The queue the job goes to.
    pub queue_name: QueueName,
    /// The name of the job.
    pub job_name: String,
    /// The data of the job, already serialized: flow jobs can target several queues,
    /// so each job remembers its payload as JSON together with the queue it goes to.
    pub data_json: String,
    /// The options of the job.
    pub job_options: JobOptions,
}

impl PreparedFlowJob {
    /// A job named `job_name` for queue `queue`, with the JSON text of its data and
    /// the default options.
    pub fn new(queue: &QueueName, job_name: &str, data_json: String) -> (r: PreparedFlowJob)
        ensures
            r.queue_name == *queue,
            r.job_name@ == job_name@,
            r.data_json == data_json,
            r.job_options == default_job_options(),
    {
        PreparedFlowJob {
            queue_name: queue.clone(),
            job_name: String::from_str(job_name),
            data_json,
            job_options: JobOptions::default(),
        }
    }
}

/// A job together with the jobs it waits for.
pub struct FlowJob {
    job: PreparedFlowJob,
    children: Vec<FlowJob>,
}

/// The jobs of a flow, every child before its parent: the children's jobs in the
/// order they were added, each subtree in the same order, and the root last.
pub closed spec fn children_first(f: FlowJob) -> Seq<PreparedFlowJob>
    decreases f, 1nat,
{
    forest_children_first(f.children@).push(f.job)
}

/// The jobs of a sequence of flows, one flow after the other, every child before
/// its parent.
pub closed spec fn forest_children_first(s: Seq<FlowJob>) -> Seq<PreparedFlowJob>
    decreases s, 0nat,
{
    if s.len() == 0 {
        Seq::empty()
    } else {
        forest_children_first(s.subrange(0, s.len() - 1)) + children_first(s[s.len() - 1])
    }
}

impl FlowJob {
    /// The job of this node.
    pub closed spec fn job_spec(&self) -> PreparedFlowJob {
        self.job
    }

    /// The children of this node.
    pub closed spec fn children_spec(&self) -> Seq<FlowJob> {
        self.children@
    }

    /// All jobs of this flow, every child before its parent.
    pub closed spec fn jobs(&self) -> Seq<PreparedFlowJob> {
        children_first(*self)
    }

    /// A flow of one job, with no children yet.
    pub fn new(job: PreparedFlowJob) -> (r: FlowJob)
        ensures
            r.job_spec() == job,
            r.children_spec() == Seq::<FlowJob>::empty(),
            r.jobs() == seq![job],
    {
        let r = FlowJob { job, children: Vec::new() };
        proof {
            assert(r.children@ =~= Seq::<FlowJob>::empty());
            assert(forest_children_first(r.children@) =~= Seq::<PreparedFlowJob>::empty());
            assert(children_first(r) =~= seq![job]);
        }
        r
    }

    /// Make `child` one more child of this job, after those added before.
    pub fn add(&mut self, child: FlowJob)
        ensures
            final(self).job_spec() == old(self).job_spec(),
            final(self).children_spec() == old(self).children_spec().push(child),
    {
        self.children.push(child);
    }

    /// This flow with `child` as one more child of its job.
    pub fn with(self, child: FlowJob) -> (r: FlowJob)
        ensures
            r.job_spec() == self.job_spec(),
            r.children_spec() == self.children_spec().push(child),
    {
        let mut r = self;
        r.children.push(child);
        r
    }

    /// Append the jobs of this flow to `v`, every child before its parent.
    pub fn collect_children_first<'a>(&'a self, v: &mut Vec<&'a PreparedFlowJob>)
        ensures
            final(v)@.map_values(|j: &PreparedFlowJob| *j) == old(v)@.map_values(
                |j: &PreparedFlowJob| *j,
            ) + children_first(*self),
        decreases self,
    {
        let ghost start = v@.map_values(|j: &PreparedFlowJob| *j);
        let mut i: usize = 0;
        while i < self.children.len()
            invariant
                i <= self.children@.len(),
                v@.map_values(|j: &PreparedFlowJob| *j) == start + forest_children_first(
                    self.children@.subrange(0, i as int),
                ),
            decreases self.children@.len() - i,
        {
            let child = &self.children[i];
            proof {
                assert(decreases_to!(self => self.children));
                assert(decreases_to!(self.children => self.children@));
                assert(decreases_to!(self.children@ => self.children@[i as int]));
            }
            child.collect_children_first(v);
            proof {
                let s = self.children@.subrange(0, i + 1);
                assert(s.subrange(0, s.len() - 1) =~= self.children@.subrange(0, i as int));
                assert(s[s.len() - 1] == self.children@[i as int]);
            }
            i = i + 1;
        }
        proof {
            assert(self.children@.subrange(0, self.children@.len() as int) =~= self.children@);
        }
        let ghost before = v@;
        v.push(&self.job);
        proof {
            assert(v@ =~= before.push(&self.job));
            assert(v@.map_values(|j: &PreparedFlowJob| *j) =~= before.map_values(
                |j: &PreparedFlowJob| *j,
            ).push(self.job));
        }
    }

    /// All jobs of this flow, every child before its parent.
    pub fn jobs_children_first(&self) -> (r: Vec<&PreparedFlowJob>)
        ensures
            r@.map_values(|j: &PreparedFlowJob| *j) == self.jobs(),
    {
        let mut v: Vec<&PreparedFlowJob> = Vec::new();
        proof {
            assert(v@.map_values(|j: &PreparedFlowJob| *j) =~= Seq::<PreparedFlowJob>::empty());
        }
        self.collect_children_first(&mut v);
        proof {
            assert(Seq::<PreparedFlowJob>::empty() + children_first(*self) =~= children_first(*self));
        }
        v
    }
}

/// In a flow, the jobs of the children come first, child after child, and the root
/// job last.
pub proof fn lemma_children_before_root(f: FlowJob)
    ensures
        f.jobs() == forest_children_first(f.children_spec()).push(f.job_spec()),
        f.jobs().len() >= 1,
        f.jobs().last() == f.job_spec(),
{
}

/// The jobs of several flows are those of all but the last flow, followed by the
/// jobs of the last one; no flows have no jobs.
pub proof fn lemma_forest_appends(s: Seq<FlowJob>, f: FlowJob)
    ensures
        forest_children_first(Seq::<FlowJob>::empty()) == Seq::<PreparedFlowJob>::empty(),
        forest_children_first(s.push(f)) == forest_children_first(s) + f.jobs(),
{
    assert(s.push(f).subrange(0, s.len() as int) =~= s);
}

/// The jobs of several flows, flow by flow, every child before its parent.
pub fn flatten_flows(flows: &Vec<FlowJob>) -> (r: Vec<&PreparedFlowJob>)
    ensures
        r@.map_values(|j: &PreparedFlowJob| *j) == forest_children_first(flows@),
{
    let mut v: Vec<&PreparedFlowJob> = Vec::new();
    let mut i: usize = 0;
    proof {
        assert(v@.map_values(|j: &PreparedFlowJob| *j) =~= Seq::<PreparedFlowJob>::empty());
        assert(forest_children_first(flows@.subrange(0, 0)) =~= Seq::<PreparedFlowJob>::empty());
    }
    while i < flows.len()
        invariant
            i <= flows@.len(),
            v@.map_values(|j: &PreparedFlowJob| *j) == forest_children_first(flows@.subrange(0, i as int)),
        decreases flows@.len() - i,
    {
        flows[i].collect_children_first(&mut v);
        proof {
            let s = flows@.subrange(0, i + 1);
            assert(s.subrange(0, s.len() - 1) =~= flows@.subrange(0, i as int));
            assert(s[s.len() - 1] == flows@[i as int]);
            assert(flows[i as int].jobs() == children_first(flows@[i as int]));
        }
        i = i + 1;
    }
    proof {
        assert(flows@.subrange(0, flows@.len() as int) =~= flows@);
    }
    v
}

} // verus!
