//! Turning a builder into launch descriptions, and the decisions of the
//! spawn sequence: launch stages left to right, and on a failure reap every
//! stage already launched before reporting it.
use vstd::prelude::*;
use crate::builder::{CommandPipeline, PipelineModel};
use crate::release::OnDrop;
use crate::stage::{StageSpec, StageView, StreamSpec};

verus! {

/// Where a launched process reads its standard input from.
#[derive(Debug, Clone, Copy, PartialEq, Eq, Structural)]
pub enum Input {
    /// Whatever the process-creation primitive does when nothing is chosen.
    Default,
    /// The stream chosen for the head of the pipeline.
    Given(StreamSpec),
    /// The pipe that carries the previous stage's standard output.
    Previous,
}

/// One process to launch, with its standard streams wired.
#[derive(Debug)]
pub struct Launch {
    pub stage: StageSpec,
    pub stdin: Input,
    /// `None` leaves the primitive's default.
    pub stdout: Option<StreamSpec>,
    /// `None` leaves the primitive's default.
    pub stderr: Option<StreamSpec>,
}

/// What a launch says, over character sequences.
pub struct LaunchView {
    pub stage: StageView,
    pub stdin: Input,
    pub stdout: Option<StreamSpec>,
    pub stderr: Option<StreamSpec>,
}

impl View for Launch {
    type V = LaunchView;

    open spec fn view(&self) -> LaunchView {
        LaunchView { stage: self.stage@, stdin: self.stdin, stdout: self.stdout, stderr: self.stderr }
    }
}

/// Where the first stage of `m` reads from.
pub open spec fn head_input(m: PipelineModel) -> Input {
    match m.stdin {
        Some(s) => Input::Given(s),
        None => Input::Default,
    }
}

/// How stage `i` of `m` is launched. Every stage but the tail writes into a
/// fresh pipe, whatever was chosen before; the first stage reads the head
/// input and every later one the previous stage's pipe; only the tail gets
/// the chosen standard output and standard error.
pub open spec fn launch_spec(m: PipelineModel, i: int) -> LaunchView {
    let n = m.finished.len() as int;
    LaunchView {
        stage: if i < n { m.finished[i] } else { m.tail },
        stdin: if i == 0 { head_input(m) } else { Input::Previous },
        stdout: if i < n { Some(StreamSpec::Piped) } else { m.stdout },
        stderr: if i < n { None } else { m.stderr },
    }
}

/// The launches of a pipeline whose output is to be collected: those of the
/// builder with the tail's standard output piped unless it was chosen.
pub open spec fn output_launch_spec(m: PipelineModel, i: int) -> LaunchView {
    launch_spec(crate::builder::collecting(m), i)
}

/// Everything needed to start a pipeline and to manage it afterwards.
#[derive(Debug)]
pub struct SpawnPlan {
    /// One launch per stage, in spawn order; the tail is last.
    pub launches: Vec<Launch>,
    pub pipefail: bool,
    pub on_drop: OnDrop,
}

impl CommandPipeline {
    /// Consumes the builder and describes how each stage is launched when
    /// the tail's output is to be collected: as `launch_plan` does, with the
    /// tail's standard output a pipe unless a destination was chosen.
    pub fn output_plan(self) -> (r: SpawnPlan)
        ensures
            r.launches@.len() == self@.finished.len() + 1,
            forall|i: int| 0 <= i < r.launches@.len() ==> #[trigger] r.launches@[i]@ == output_launch_spec(self@, i),
            r.pipefail == self@.pipefail,
            r.on_drop == self@.on_drop,
    {
        let mut p = self;
        p.collect_output();
        p.launch_plan()
    }

    /// Consumes the builder and describes how each stage is launched: one
    /// launch per stage, wired as `launch_spec` says, together with the
    /// pipeline-wide options.
    pub fn launch_plan(self) -> (r: SpawnPlan)
        ensures
            r.launches@.len() == self@.finished.len() + 1,
            forall|i: int| 0 <= i < r.launches@.len() ==> #[trigger] r.launches@[i]@ == launch_spec(self@, i),
            r.pipefail == self@.pipefail,
            r.on_drop == self@.on_drop,
    {
        let ghost m = self@;
        let (mut piped, tail, config) = self.into_parts();
        let stdin = config.stdin;
        let ghost orig = piped@;
        let n = piped.len();
        let head = match stdin {
            Some(s) => Input::Given(s),
            None => Input::Default,
        };
        let mut launches: Vec<Launch> = Vec::new();
        let mut i: usize = 0;
        while i < n
            invariant
                n == orig.len(),
                m.finished == crate::builder::stages_view(orig),
                m.stdin == stdin,
                head == head_input(m),
                i <= n,
                piped@ == orig.subrange(i as int, n as int),
                launches@.len() == i,
                forall|j: int| 0 <= j < i ==> #[trigger] launches@[j]@ == launch_spec(m, j),
            decreases n - i,
        {
            let stage = piped.remove(0);
            proof {
                assert(orig[i as int] == stage);
                assert(piped@ =~= orig.subrange(i + 1, n as int));
            }
            let input = if i == 0 { head } else { Input::Previous };
            launches.push(Launch { stage, stdin: input, stdout: Some(StreamSpec::Piped), stderr: None });
            i = i + 1;
        }
        let input = if n == 0 { head } else { Input::Previous };
        launches.push(Launch { stage: tail, stdin: input, stdout: config.stdout, stderr: config.stderr });
        SpawnPlan { launches, pipefail: config.pipefail, on_drop: config.on_drop }
    }
}

/// For a builder on which `pipe` was never called, the one launch runs the
/// tail stage with the head input, the chosen standard output and the chosen
/// standard error: the streams the caller sees are that process's own.
pub proof fn lemma_single_stage_is_plain_process(m: PipelineModel)
    requires
        m.finished.len() == 0,
    ensures
        launch_spec(m, 0) == (LaunchView { stage: m.tail, stdin: head_input(m), stdout: m.stdout, stderr: m.stderr }),
{
}

/// What the caller reports after carrying out a spawn action.
#[derive(Debug, Clone, Copy, PartialEq, Eq, Structural)]
pub enum SpawnEvent {
    /// The stage asked for was started.
    Launched,
    /// The stage asked for could not be started.
    LaunchFailed,
    /// The process asked for was waited on (its outcome does not matter).
    Reaped,
}

/// What the caller does next while spawning.
#[derive(Debug, Clone, Copy, PartialEq, Eq, Structural)]
pub enum SpawnAction {
    /// Start the stage at this position, wired to the previous one.
    Launch(usize),
    /// Wait on the already started process at this position, discarding any
    /// pipe end that no stage consumed.
    Reap(usize),
    /// Every stage runs: hand the pipeline to the caller.
    Finish,
    /// Every started process has been reaped: report the launch error.
    Abort,
}

/// The decisions of the spawn sequence over `total` stages. Stages are
/// launched strictly left to right; after a failed launch every stage
/// started before it is reaped, in spawn order, and then the error is
/// reported.
#[derive(Debug, Clone, Copy, PartialEq, Eq, Structural)]
pub struct Spawner {
    /// Number of stages, the tail included.
    pub total: usize,
    /// Number of stages started so far.
    pub launched: usize,
    /// Whether a launch has failed.
    pub failed: bool,
    /// Number of started stages reaped after the failure.
    pub reaped: usize,
}

impl Spawner {
    /// The states the sequence can be in while it still expects an event.
    pub open spec fn well_formed(self) -> bool {
        &&& 1 <= self.total
        &&& self.reaped <= self.launched
        &&& if self.failed { self.reaped < self.launched } else { self.launched < self.total && self.reaped == 0 }
    }
}

/// The first state and action of a spawn sequence over `total` stages.
pub open spec fn start_spec(total: nat) -> Spawner {
    Spawner { total: total as usize, launched: 0, failed: false, reaped: 0 }
}

/// The next state and action after `e` in state `s`.
pub open spec fn step_spec(s: Spawner, e: SpawnEvent) -> (Spawner, SpawnAction) {
    if !s.failed {
        match e {
            SpawnEvent::Launched => {
                let l = s.launched + 1;
                (Spawner { launched: l as usize, ..s }, if l == s.total { SpawnAction::Finish } else { SpawnAction::Launch(l as usize) })
            },
            _ => {
                (Spawner { failed: true, ..s }, if 0 < s.launched { SpawnAction::Reap(0) } else { SpawnAction::Abort })
            },
        }
    } else {
        let r = s.reaped + 1;
        (Spawner { reaped: r as usize, ..s }, if r < s.launched { SpawnAction::Reap(r as usize) } else { SpawnAction::Abort })
    }
}

/// Whether `e` answers the action that led to state `s`.
pub open spec fn expects(s: Spawner, e: SpawnEvent) -> bool {
    if s.failed { e == SpawnEvent::Reaped } else { e != SpawnEvent::Reaped }
}

/// Whether `a` ends the sequence (no event is expected after it).
pub open spec fn is_final(a: SpawnAction) -> bool {
    a == SpawnAction::Finish || a == SpawnAction::Abort
}

impl Spawner {
    /// Starts a spawn sequence over `total` stages: the first action is to
    /// launch the first stage.
    pub fn start(total: usize) -> (r: (Spawner, SpawnAction))
        requires
            1 <= total,
        ensures
            r.0 == start_spec(total as nat),
            r.0.well_formed(),
            r.1 == SpawnAction::Launch(0),
    {
        (Spawner { total, launched: 0, failed: false, reaped: 0 }, SpawnAction::Launch(0))
    }

    /// Takes the caller's report on the last action and says what to do
    /// next. The state stays well formed exactly while an event is still
    /// expected.
    pub fn step(&mut self, e: SpawnEvent) -> (a: SpawnAction)
        requires
            old(self).well_formed(),
            expects(*old(self), e),
        ensures
            (*final(self), a) == step_spec(*old(self), e),
            final(self).well_formed() <==> !is_final(a),
    {
        if !self.failed {
            match e {
                SpawnEvent::Launched => {
                    self.launched = self.launched + 1;
                    if self.launched == self.total {
                        SpawnAction::Finish
                    } else {
                        SpawnAction::Launch(self.launched)
                    }
                },
                _ => {
                    self.failed = true;
                    if 0 < self.launched {
                        SpawnAction::Reap(0)
                    } else {
                        SpawnAction::Abort
                    }
                },
            }
        } else {
            self.reaped = self.reaped + 1;
            if self.reaped < self.launched {
                SpawnAction::Reap(self.reaped)
            } else {
                SpawnAction::Abort
            }
        }
    }
}

/// The actions that a sequence of events draws from state `s`.
pub open spec fn replay(s: Spawner, events: Seq<SpawnEvent>) -> Seq<SpawnAction>
    decreases events.len(),
{
    if events.len() == 0 {
        Seq::empty()
    } else {
        let (next, a) = step_spec(s, events[0]);
        seq![a] + replay(next, events.drop_first())
    }
}

/// `n` copies of one event.
pub open spec fn repeat(e: SpawnEvent, n: nat) -> Seq<SpawnEvent> {
    Seq::new(n, |i: int| e)
}

/// Launch actions for the stages `from .. from + n`.
pub open spec fn launches_from(from: int, n: nat) -> Seq<SpawnAction> {
    Seq::new(n, |i: int| SpawnAction::Launch((from + i) as usize))
}

/// Reap actions for the stages `from .. from + n`.
pub open spec fn reaps_from(from: int, n: nat) -> Seq<SpawnAction> {
    Seq::new(n, |i: int| SpawnAction::Reap((from + i) as usize))
}

proof fn lemma_rollback(s: Spawner)
    requires
        s.failed,
        s.reaped < s.launched,
    ensures
        replay(s, repeat(SpawnEvent::Reaped, (s.launched - s.reaped) as nat))
            == reaps_from(s.reaped + 1, (s.launched - s.reaped - 1) as nat) + seq![SpawnAction::Abort],
    decreases s.launched - s.reaped,
{
    let k = (s.launched - s.reaped) as nat;
    let ev = repeat(SpawnEvent::Reaped, k);
    let (next, a) = step_spec(s, ev[0]);
    assert(ev.len() > 0);
    assert(replay(s, ev) == seq![a] + replay(next, ev.drop_first()));
    assert(ev.drop_first() =~= repeat(SpawnEvent::Reaped, (k - 1) as nat));
    if next.reaped < next.launched {
        lemma_rollback(next);
        assert(reaps_from(s.reaped + 1, (k - 1) as nat) + seq![SpawnAction::Abort]
            =~= seq![a] + (reaps_from(next.reaped + 1, (k - 2) as nat) + seq![SpawnAction::Abort]));
    } else {
        assert(ev.drop_first() =~= Seq::<SpawnEvent>::empty());
        assert(reaps_from(s.reaped + 1, 0) + seq![SpawnAction::Abort] =~= seq![a]);
    }
}

proof fn lemma_launch_then_fail(s: Spawner, k: nat)
    requires
        !s.failed,
        s.reaped == 0,
        s.launched <= k < s.total,
    ensures
        replay(s, repeat(SpawnEvent::Launched, (k - s.launched) as nat) + seq![SpawnEvent::LaunchFailed] + repeat(SpawnEvent::Reaped, k))
            == launches_from(s.launched + 1, (k - s.launched) as nat) + reaps_from(0, k) + seq![SpawnAction::Abort],
    decreases k - s.launched,
{
    let ev = repeat(SpawnEvent::Launched, (k - s.launched) as nat) + seq![SpawnEvent::LaunchFailed] + repeat(SpawnEvent::Reaped, k);
    let (next, a) = step_spec(s, ev[0]);
    assert(ev.len() > 0);
    assert(replay(s, ev) == seq![a] + replay(next, ev.drop_first()));
    if s.launched < k {
        assert(ev.drop_first() =~= repeat(SpawnEvent::Launched, (k - next.launched) as nat) + seq![SpawnEvent::LaunchFailed] + repeat(SpawnEvent::Reaped, k));
        lemma_launch_then_fail(next, k);
        assert(launches_from(s.launched + 1, (k - s.launched) as nat) + reaps_from(0, k) + seq![SpawnAction::Abort]
            =~= seq![a] + (launches_from(next.launched + 1, (k - next.launched) as nat) + reaps_from(0, k) + seq![SpawnAction::Abort]));
    } else {
        assert(ev.drop_first() =~= repeat(SpawnEvent::Reaped, k));
        if 0 < k {
            lemma_rollback(next);
            assert(launches_from(s.launched + 1, 0) + reaps_from(0, k) + seq![SpawnAction::Abort]
                =~= seq![a] + (reaps_from(1, (k - 1) as nat) + seq![SpawnAction::Abort]));
        } else {
            assert(ev.drop_first() =~= Seq::<SpawnEvent>::empty());
            assert(launches_from(s.launched + 1, 0) + reaps_from(0, k) + seq![SpawnAction::Abort] =~= seq![a]);
        }
    }
}

/// When stage `k` of `total` cannot be launched, the sequence first launches
/// stages `1 .. k` (stage 0 is the first action of `start`), then reaps
/// every stage started before `k` exactly once, in spawn order, and only
/// then reports the failure: no started process is left unreaped.
pub proof fn lemma_failed_launch_reaps_started_stages(total: nat, k: nat)
    requires
        k < total,
        total <= usize::MAX,
    ensures
        replay(
            start_spec(total),
            repeat(SpawnEvent::Launched, k) + seq![SpawnEvent::LaunchFailed] + repeat(SpawnEvent::Reaped, k),
        ) == launches_from(1, k) + reaps_from(0, k) + seq![SpawnAction::Abort],
{
    lemma_launch_then_fail(start_spec(total), k);
}

proof fn lemma_launch_all(s: Spawner)
    requires
        !s.failed,
        s.reaped == 0,
        s.launched < s.total,
    ensures
        replay(s, repeat(SpawnEvent::Launched, (s.total - s.launched) as nat))
            == launches_from(s.launched + 1, (s.total - s.launched - 1) as nat) + seq![SpawnAction::Finish],
    decreases s.total - s.launched,
{
    let k = (s.total - s.launched) as nat;
    let ev = repeat(SpawnEvent::Launched, k);
    let (next, a) = step_spec(s, ev[0]);
    assert(ev.len() > 0);
    assert(replay(s, ev) == seq![a] + replay(next, ev.drop_first()));
    assert(ev.drop_first() =~= repeat(SpawnEvent::Launched, (k - 1) as nat));
    if next.launched < next.total {
        lemma_launch_all(next);
        assert(launches_from(s.launched + 1, (k - 1) as nat) + seq![SpawnAction::Finish]
            =~= seq![a] + (launches_from(next.launched + 1, (k - 2) as nat) + seq![SpawnAction::Finish]));
    } else {
        assert(ev.drop_first() =~= Seq::<SpawnEvent>::empty());
        assert(launches_from(s.launched + 1, 0) + seq![SpawnAction::Finish] =~= seq![a]);
    }
}

/// When every stage starts, the sequence launches the stages one by one,
/// left to right, and then hands the pipeline over; nothing is reaped.
pub proof fn lemma_all_launched_finishes(total: nat)
    requires
        1 <= total <= usize::MAX,
    ensures
        replay(start_spec(total), repeat(SpawnEvent::Launched, total))
            == launches_from(1, (total - 1) as nat) + seq![SpawnAction::Finish],
{
    lemma_launch_all(start_spec(total));
}

} // verus!
