//! What happens to the processes of a running pipeline when it is released.
use vstd::prelude::*;

verus! {

/// What to do with processes that are still running when a pipeline is
/// released without an explicit join.
#[derive(Debug, Clone, Copy, PartialEq, Eq, Hash, Structural)]
pub enum OnDrop {
    /// Take no action: the processes keep running unmanaged.
    Forget,
    /// Block until every process has exited, ignoring statuses and errors.
    Wait,
    /// Request termination of every process; wait for each one whose request
    /// succeeded.
    Kill,
}

/// One clean-up step on one process, named by its position in spawn order
/// (the tail is last).
#[derive(Debug, Clone, Copy, PartialEq, Eq, Structural)]
pub enum ReleaseStep {
    /// Wait for the process to exit.
    Wait(usize),
    /// Request termination of the process and, if the request succeeds,
    /// wait for it to exit.
    Kill(usize),
}

impl ReleaseStep {
    /// Whether the process must then be waited on, given whether the
    /// termination request (sent for a `Kill` step only) succeeded.
    pub fn waits_after(self, request_ok: bool) -> (r: bool)
        ensures
            r == match self {
                ReleaseStep::Wait(_) => true,
                ReleaseStep::Kill(_) => request_ok,
            },
    {
        match self {
            ReleaseStep::Wait(_) => true,
            ReleaseStep::Kill(_) => request_ok,
        }
    }

    /// The position of the process this step acts on.
    pub fn process(self) -> (r: usize)
        ensures
            r == step_process(self),
    {
        match self {
            ReleaseStep::Wait(i) => i,
            ReleaseStep::Kill(i) => i,
        }
    }
}

/// The clean-up steps that `policy` calls for on `count` processes.
pub open spec fn release_plan_spec(policy: OnDrop, count: nat) -> Seq<ReleaseStep> {
    match policy {
        OnDrop::Forget => Seq::empty(),
        OnDrop::Wait => Seq::new(count, |i: int| ReleaseStep::Wait(i as usize)),
        OnDrop::Kill => Seq::new(count, |i: int| ReleaseStep::Kill(i as usize)),
    }
}

/// The clean-up steps, in order, that `policy` calls for on a pipeline of
/// `count` processes: nothing for `Forget`, one step per process in spawn
/// order otherwise.
pub fn release_plan(policy: OnDrop, count: usize) -> (r: Vec<ReleaseStep>)
    ensures
        r@ == release_plan_spec(policy, count as nat),
{
    let mut r: Vec<ReleaseStep> = Vec::new();
    if policy == OnDrop::Forget {
        proof {
            assert(r@ =~= release_plan_spec(policy, count as nat));
        }
        return r;
    }
    let mut i: usize = 0;
    while i < count
        invariant
            policy != OnDrop::Forget,
            i <= count,
            r@ =~= release_plan_spec(policy, i as nat),
        decreases count - i,
    {
        let step = if policy == OnDrop::Wait {
            ReleaseStep::Wait(i)
        } else {
            ReleaseStep::Kill(i)
        };
        r.push(step);
        i = i + 1;
    }
    r
}

/// The process a clean-up step acts on.
pub open spec fn step_process(s: ReleaseStep) -> usize {
    match s {
        ReleaseStep::Wait(i) => i,
        ReleaseStep::Kill(i) => i,
    }
}

/// The order in which a join waits on `count` processes: non-tail stages in
/// spawn order, then the tail.
pub open spec fn join_order_spec(count: nat) -> Seq<usize> {
    Seq::new(count, |i: int| i as usize)
}

/// What a running pipeline's manager knows.
pub struct LifecycleView {
    /// Number of processes, the tail included.
    pub count: nat,
    /// The clean-up policy chosen when the pipeline was built.
    pub policy: OnDrop,
    /// Whether the processes were already waited on by a join.
    pub settled: bool,
}

/// The clean-up steps on release: none once a join has waited on every
/// process, else those of the policy.
pub open spec fn release_spec(v: LifecycleView) -> Seq<ReleaseStep> {
    if v.settled { Seq::empty() } else { release_plan_spec(v.policy, v.count) }
}

/// Decides, for a running pipeline of `count` processes, who waits on them:
/// an explicit join or the clean-up on release, never both.
#[derive(Debug)]
pub struct Lifecycle {
    count: usize,
    policy: OnDrop,
    settled: bool,
}

impl View for Lifecycle {
    type V = LifecycleView;

    closed spec fn view(&self) -> LifecycleView {
        LifecycleView { count: self.count as nat, policy: self.policy, settled: self.settled }
    }
}

impl Lifecycle {
    /// A pipeline of `count` running processes, not joined yet.
    pub fn new(count: usize, policy: OnDrop) -> (r: Lifecycle)
        ensures
            r@ == (LifecycleView { count: count as nat, policy, settled: false }),
    {
        Lifecycle { count, policy, settled: false }
    }

    /// Whether a join has already waited on every process.
    pub fn is_settled(&self) -> (r: bool)
        ensures
            r == self@.settled,
    {
        self.settled
    }

    /// Starts a join: returns the positions to wait on, in order, and marks
    /// the processes as settled so that release does nothing more.
    pub fn join_order(&mut self) -> (r: Vec<usize>)
        requires
            !old(self)@.settled,
        ensures
            r@ == join_order_spec(old(self)@.count),
            final(self)@ == (LifecycleView { settled: true, ..old(self)@ }),
    {
        let mut r: Vec<usize> = Vec::new();
        let mut i: usize = 0;
        while i < self.count
            invariant
                i <= self.count,
                r@ =~= join_order_spec(i as nat),
            decreases self.count - i,
        {
            r.push(i);
            i = i + 1;
        }
        self.settled = true;
        r
    }

    /// Releases the pipeline: returns the clean-up steps still owed, in
    /// order, and marks the processes as settled.
    pub fn release(&mut self) -> (r: Vec<ReleaseStep>)
        ensures
            r@ == release_spec(old(self)@),
            final(self)@ == (LifecycleView { settled: true, ..old(self)@ }),
    {
        let r = if self.settled { Vec::new() } else { release_plan(self.policy, self.count) };
        proof {
            if old(self).settled {
                assert(r@ =~= release_spec(old(self)@));
            }
        }
        self.settled = true;
        r
    }
}

/// Once a pipeline has been joined, releasing it neither waits on nor kills
/// any process.
pub proof fn lemma_joined_pipeline_releases_nothing(v: LifecycleView)
    requires
        v.settled,
    ensures
        release_spec(v).len() == 0,
{
}

/// With `Kill` every process receives a termination request, with `Wait`
/// every process is waited on, in spawn order; with `Forget` nothing is done.
pub proof fn lemma_release_plan_covers_every_process(policy: OnDrop, count: nat)
    requires
        count <= usize::MAX,
    ensures
        policy == OnDrop::Forget ==> release_plan_spec(policy, count).len() == 0,
        policy == OnDrop::Wait ==> forall|i: int|
            0 <= i < count ==> #[trigger] release_plan_spec(policy, count)[i] == ReleaseStep::Wait(i as usize),
        policy == OnDrop::Kill ==> forall|i: int|
            0 <= i < count ==> #[trigger] release_plan_spec(policy, count)[i] == ReleaseStep::Kill(i as usize),
        policy != OnDrop::Forget ==> release_plan_spec(policy, count).len() == count,
{
}

/// The positions of the processes that the join (if `joined`) and then the
/// release of a pipeline act on, in order.
pub open spec fn reaps_over_life(count: nat, policy: OnDrop, joined: bool) -> Seq<usize> {
    let after = release_spec(LifecycleView { count, policy, settled: joined });
    (if joined { join_order_spec(count) } else { Seq::empty() }) + after.map_values(|s: ReleaseStep| step_process(s))
}

/// Over the whole life of a running pipeline, whether it was joined or not,
/// each process is acted on (waited on, or killed and then waited on) at
/// most once, and only processes of the pipeline are.
pub proof fn lemma_each_process_reaped_at_most_once(count: nat, policy: OnDrop, joined: bool)
    requires
        count <= usize::MAX,
    ensures
        forall|a: int, b: int|
            0 <= a < b < reaps_over_life(count, policy, joined).len() ==> reaps_over_life(count, policy, joined)[a]
                != reaps_over_life(count, policy, joined)[b],
        forall|a: int|
            0 <= a < reaps_over_life(count, policy, joined).len() ==> (#[trigger] reaps_over_life(count, policy, joined)[a]) < count,
{
    let s = reaps_over_life(count, policy, joined);
    if joined {
        assert(s =~= join_order_spec(count));
    } else {
        assert(s =~= Seq::new(if policy == OnDrop::Forget { 0 } else { count }, |i: int| i as usize));
    }
}

} // verus!
