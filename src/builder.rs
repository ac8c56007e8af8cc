//! The pipeline builder: finished stages, the stage under construction, and
//! the options that apply to the whole pipeline.
use vstd::prelude::*;
use crate::release::OnDrop;
use crate::stage::{
    EnvEdit, EnvEditView, StageSpec, StageView, StreamSpec, fresh_stage, lists_env, net_env_spec, strings_view,
};

verus! {

/// What a builder describes.
pub struct PipelineModel {
    /// The stages finished by `pipe`, in pipeline order.
    pub finished: Seq<StageView>,
    /// The stage under construction; it is the tail of the pipeline.
    pub tail: StageView,
    /// Whether the overall status is that of the first failing stage.
    pub pipefail: bool,
    /// What happens to running processes on release without a join.
    pub on_drop: OnDrop,
    /// Where the first stage reads from, if chosen.
    pub stdin: Option<StreamSpec>,
    /// Where the tail writes its standard output, if chosen.
    pub stdout: Option<StreamSpec>,
    /// Where the tail writes its standard error, if chosen.
    pub stderr: Option<StreamSpec>,
}

/// The views of a list of stages.
pub open spec fn stages_view(v: Seq<StageSpec>) -> Seq<StageView> {
    v.map_values(|s: StageSpec| s@)
}

/// A builder with a single stage for `program` and every option at its
/// default: no pipefail, `OnDrop::Wait`, no stream chosen.
pub open spec fn fresh_pipeline(program: Seq<char>) -> PipelineModel {
    PipelineModel {
        finished: Seq::empty(),
        tail: fresh_stage(program),
        pipefail: false,
        on_drop: OnDrop::Wait,
        stdin: None,
        stdout: None,
        stderr: None,
    }
}

/// The builder prepared for collecting output: the tail's standard output
/// is a pipe unless a destination was chosen.
pub open spec fn collecting(m: PipelineModel) -> PipelineModel {
    PipelineModel {
        stdout: match m.stdout {
            Some(s) => Some(s),
            None => Some(StreamSpec::Piped),
        },
        ..m
    }
}

/// The same builder with `tail` as its stage under construction.
pub open spec fn with_tail(m: PipelineModel, tail: StageView) -> PipelineModel {
    PipelineModel { tail, ..m }
}

/// The options that apply to the whole pipeline.
#[derive(Debug, Clone, Copy, PartialEq, Eq, Structural)]
pub struct CommandPipelineConfig {
    pub pipefail: bool,
    pub on_drop: OnDrop,
    /// Where the first stage reads from; `None` leaves the default.
    pub stdin: Option<StreamSpec>,
    /// Where the tail writes its standard output; `None` leaves the default.
    pub stdout: Option<StreamSpec>,
    /// Where the tail writes its standard error; `None` leaves the default.
    pub stderr: Option<StreamSpec>,
}

impl CommandPipelineConfig {
    /// The defaults: no pipefail, wait for running processes on release, no
    /// stream chosen.
    pub fn new() -> (r: CommandPipelineConfig)
        ensures
            r == (CommandPipelineConfig { pipefail: false, on_drop: OnDrop::Wait, stdin: None, stdout: None, stderr: None }),
    {
        CommandPipelineConfig { pipefail: false, on_drop: OnDrop::Wait, stdin: None, stdout: None, stderr: None }
    }
}

impl Default for CommandPipelineConfig {
    fn default() -> (r: CommandPipelineConfig)
        ensures
            r == (CommandPipelineConfig { pipefail: false, on_drop: OnDrop::Wait, stdin: None, stdout: None, stderr: None }),
    {
        CommandPipelineConfig::new()
    }
}

/// A chain of processes, each one's standard output feeding the next one's
/// standard input. Configuration calls apply to the last stage; `pipe`
/// finishes it and starts a new one.
#[derive(Debug)]
pub struct CommandPipeline {
    piped: Vec<StageSpec>,
    tail: StageSpec,
    config: CommandPipelineConfig,
}

impl View for CommandPipeline {
    type V = PipelineModel;

    closed spec fn view(&self) -> PipelineModel {
        PipelineModel {
            finished: stages_view(self.piped@),
            tail: self.tail@,
            pipefail: self.config.pipefail,
            on_drop: self.config.on_drop,
            stdin: self.config.stdin,
            stdout: self.config.stdout,
            stderr: self.config.stderr,
        }
    }
}

impl CommandPipeline {
    /// A pipeline of one stage that runs `program`.
    pub fn new(program: &str) -> (r: CommandPipeline)
        ensures
            r@ == fresh_pipeline(program@),
    {
        let r = CommandPipeline {
            piped: Vec::new(),
            tail: StageSpec::new(program),
            config: CommandPipelineConfig::new(),
        };
        proof {
            assert(r@.finished =~= Seq::<StageView>::empty());
        }
        r
    }

    /// Appends an argument to the last stage.
    pub fn arg(&mut self, arg: &str) -> (r: &mut CommandPipeline)
        ensures
            (*r)@ == with_tail(old(self)@, StageView { args: old(self)@.tail.args.push(arg@), ..old(self)@.tail }),
            *final(self) == *final(r),
    {
        self.tail.push_arg(arg);
        self
    }

    /// Appends arguments to the last stage, in order.
    pub fn args(&mut self, args: &[&str]) -> (r: &mut CommandPipeline)
        ensures
            (*r)@ == with_tail(old(self)@, StageView {
                args: old(self)@.tail.args + args@.map_values(|a: &str| a@),
                ..old(self)@.tail
            }),
            *final(self) == *final(r),
    {
        let mut i: usize = 0;
        while i < args.len()
            invariant
                i <= args@.len(),
                self@ == with_tail(old(self)@, StageView {
                    args: old(self)@.tail.args + args@.subrange(0, i as int).map_values(|a: &str| a@),
                    ..old(self)@.tail
                }),
            decreases args@.len() - i,
        {
            self.tail.push_arg(args[i]);
            proof {
                assert(args@.subrange(0, i + 1).map_values(|a: &str| a@)
                    =~= args@.subrange(0, i as int).map_values(|a: &str| a@).push(args@[i as int]@));
            }
            i = i + 1;
        }
        proof {
            assert(args@.subrange(0, args@.len() as int) =~= args@);
        }
        self
    }

    /// Sets an environment variable of the last stage.
    pub fn env(&mut self, key: &str, val: &str) -> (r: &mut CommandPipeline)
        ensures
            (*r)@ == with_tail(old(self)@, StageView {
                env: old(self)@.tail.env.push(EnvEditView::Assign(key@, val@)),
                ..old(self)@.tail
            }),
            *final(self) == *final(r),
    {
        self.tail.push_edit(EnvEdit::Assign(key.to_owned(), val.to_owned()));
        self
    }

    /// Sets environment variables of the last stage, in order.
    pub fn envs(&mut self, vars: &[(&str, &str)]) -> (r: &mut CommandPipeline)
        ensures
            (*r)@ == with_tail(old(self)@, StageView {
                env: old(self)@.tail.env + vars@.map_values(|kv: (&str, &str)| EnvEditView::Assign(kv.0@, kv.1@)),
                ..old(self)@.tail
            }),
            *final(self) == *final(r),
    {
        let mut i: usize = 0;
        while i < vars.len()
            invariant
                i <= vars@.len(),
                self@ == with_tail(old(self)@, StageView {
                    env: old(self)@.tail.env + vars@.subrange(0, i as int).map_values(
                        |kv: (&str, &str)| EnvEditView::Assign(kv.0@, kv.1@),
                    ),
                    ..old(self)@.tail
                }),
            decreases vars@.len() - i,
        {
            let (k, v) = vars[i];
            self.tail.push_edit(EnvEdit::Assign(k.to_owned(), v.to_owned()));
            proof {
                assert(vars@.subrange(0, i + 1).map_values(|kv: (&str, &str)| EnvEditView::Assign(kv.0@, kv.1@))
                    =~= vars@.subrange(0, i as int).map_values(
                        |kv: (&str, &str)| EnvEditView::Assign(kv.0@, kv.1@),
                    ).push(EnvEditView::Assign(k@, v@)));
            }
            i = i + 1;
        }
        proof {
            assert(vars@.subrange(0, vars@.len() as int) =~= vars@);
        }
        self
    }

    /// Removes an environment variable from the last stage's environment.
    pub fn env_remove(&mut self, key: &str) -> (r: &mut CommandPipeline)
        ensures
            (*r)@ == with_tail(old(self)@, StageView {
                env: old(self)@.tail.env.push(EnvEditView::Remove(key@)),
                ..old(self)@.tail
            }),
            *final(self) == *final(r),
    {
        self.tail.push_edit(EnvEdit::Remove(key.to_owned()));
        self
    }

    /// Starts the last stage with an empty environment, apart from variables
    /// set after this call.
    pub fn env_clear(&mut self) -> (r: &mut CommandPipeline)
        ensures
            (*r)@ == with_tail(old(self)@, StageView {
                env: old(self)@.tail.env.push(EnvEditView::Clear),
                ..old(self)@.tail
            }),
            *final(self) == *final(r),
    {
        self.tail.push_edit(EnvEdit::Clear);
        self
    }

    /// Sets the working directory of the last stage.
    pub fn current_dir(&mut self, dir: &str) -> (r: &mut CommandPipeline)
        ensures
            (*r)@ == with_tail(old(self)@, StageView { current_dir: Some(dir@), ..old(self)@.tail }),
            *final(self) == *final(r),
    {
        self.tail.set_current_dir(dir);
        self
    }

    /// Chooses where the first stage reads its standard input from.
    pub fn stdin(&mut self, cfg: StreamSpec) -> (r: &mut CommandPipeline)
        ensures
            (*r)@ == (PipelineModel { stdin: Some(cfg), ..old(self)@ }),
            *final(self) == *final(r),
    {
        self.config.stdin = Some(cfg);
        self
    }

    /// Chooses where the tail writes its standard output.
    pub fn stdout(&mut self, cfg: StreamSpec) -> (r: &mut CommandPipeline)
        ensures
            (*r)@ == (PipelineModel { stdout: Some(cfg), ..old(self)@ }),
            *final(self) == *final(r),
    {
        self.config.stdout = Some(cfg);
        self
    }

    /// Chooses where the tail writes its standard error.
    pub fn stderr(&mut self, cfg: StreamSpec) -> (r: &mut CommandPipeline)
        ensures
            (*r)@ == (PipelineModel { stderr: Some(cfg), ..old(self)@ }),
            *final(self) == *final(r),
    {
        self.config.stderr = Some(cfg);
        self
    }

    /// Chooses what happens to running processes when the pipeline is
    /// released without a join.
    pub fn on_drop(&mut self, cfg: OnDrop) -> (r: &mut CommandPipeline)
        ensures
            (*r)@ == (PipelineModel { on_drop: cfg, ..old(self)@ }),
            *final(self) == *final(r),
    {
        self.config.on_drop = cfg;
        self
    }

    /// Chooses whether the overall status is that of the first failing stage
    /// rather than that of the tail.
    pub fn pipefail(&mut self, enabled: bool) -> (r: &mut CommandPipeline)
        ensures
            (*r)@ == (PipelineModel { pipefail: enabled, ..old(self)@ }),
            *final(self) == *final(r),
    {
        self.config.pipefail = enabled;
        self
    }

    /// Finishes the last stage and starts a new one that runs `program` and
    /// reads what the finished one writes.
    pub fn pipe(&mut self, program: &str) -> (r: &mut CommandPipeline)
        ensures
            (*r)@ == (PipelineModel {
                finished: old(self)@.finished.push(old(self)@.tail),
                tail: fresh_stage(program@),
                ..old(self)@
            }),
            *final(self) == *final(r),
    {
        let mut next = StageSpec::new(program);
        std::mem::swap(&mut self.tail, &mut next);
        let ghost finished = next@;
        self.piped.push(next);
        proof {
            assert(stages_view(self.piped@) =~= stages_view(old(self).piped@).push(finished));
        }
        self
    }

    /// The program of the last stage.
    pub fn get_program(&self) -> (r: &str)
        ensures
            r@ == self@.tail.program,
    {
        self.tail.program.as_str()
    }

    /// The arguments of the last stage.
    pub fn get_args(&self) -> (r: &[String])
        ensures
            strings_view(r@) == self@.tail.args,
    {
        self.tail.args.as_slice()
    }

    /// The environment that the last stage sets explicitly: each variable
    /// once, `Some(value)` where set, `None` where removed from the
    /// inherited environment; nothing from before the last `env_clear`.
    pub fn get_envs(&self) -> (r: Vec<(String, Option<String>)>)
        ensures
            lists_env(r@, net_env_spec(self@.tail.env).vars),
    {
        self.tail.net_env()
    }

    /// The working directory of the last stage, if one was chosen.
    pub fn get_current_dir(&self) -> (r: Option<&str>)
        ensures
            match r {
                Some(d) => self@.tail.current_dir == Some(d@),
                None => self@.tail.current_dir.is_none(),
            },
    {
        match &self.tail.current_dir {
            Some(d) => Some(d.as_str()),
            None => None,
        }
    }

    /// Makes the tail's standard output a pipe unless a destination was
    /// chosen, so that a join can collect it.
    pub fn collect_output(&mut self) -> (r: &mut CommandPipeline)
        ensures
            (*r)@ == collecting(old(self)@),
            *final(self) == *final(r),
    {
        if self.config.stdout.is_none() {
            self.config.stdout = Some(StreamSpec::Piped);
        }
        self
    }

    /// The parts of the builder, moved out.
    pub(crate) fn into_parts(self) -> (r: (Vec<StageSpec>, StageSpec, CommandPipelineConfig))
        ensures
            stages_view(r.0@) == self@.finished,
            r.1@ == self@.tail,
            r.2.pipefail == self@.pipefail,
            r.2.on_drop == self@.on_drop,
            r.2.stdin == self@.stdin,
            r.2.stdout == self@.stdout,
            r.2.stderr == self@.stderr,
    {
        (self.piped, self.tail, self.config)
    }
}

} // verus!
