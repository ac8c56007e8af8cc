use command_pipeline::{CommandPipeline, CommandPipelineConfig, Input, OnDrop, StreamSpec};

fn sorted_envs(p: &CommandPipeline) -> Vec<(String, Option<String>)> {
    let mut v = p.get_envs();
    v.sort();
    v
}

fn entry(k: &str, v: Option<&str>) -> (String, Option<String>) {
    (k.to_string(), v.map(|s| s.to_string()))
}

#[test]
fn config_defaults() {
    let c = CommandPipelineConfig::new();
    assert!(!c.pipefail);
    assert_eq!(c.on_drop, OnDrop::Wait);
    assert_eq!(c.stdin, None);
    assert_eq!(c.stdout, None);
    assert_eq!(c.stderr, None);
    assert_eq!(CommandPipelineConfig::default(), c);
}

#[test]
fn new_pipeline_has_bare_stage() {
    let p = CommandPipeline::new("ls");
    assert_eq!(p.get_program(), "ls");
    assert!(p.get_args().is_empty());
    assert!(p.get_envs().is_empty());
    assert_eq!(p.get_current_dir(), None);
}

#[test]
fn configuration_applies_to_last_stage() {
    let mut p = CommandPipeline::new("grep");
    p.arg("-v").args(&["a", "b"]).env("K", "1").envs(&[("L", "2"), ("M", "3")]);
    p.env_remove("PATH").current_dir("/tmp");
    assert_eq!(p.get_program(), "grep");
    let args: Vec<&str> = p.get_args().iter().map(|s| s.as_str()).collect();
    assert_eq!(args, vec!["-v", "a", "b"]);
    assert_eq!(
        sorted_envs(&p),
        vec![entry("K", Some("1")), entry("L", Some("2")), entry("M", Some("3")), entry("PATH", None)]
    );
    assert_eq!(p.get_current_dir(), Some("/tmp"));
}

#[test]
fn env_last_write_wins() {
    let mut b = CommandPipeline::new("env");
    b.env("K", "V").env("K", "W");
    assert_eq!(b.get_envs(), vec![entry("K", Some("W"))]);
    b.env_remove("K");
    assert_eq!(b.get_envs(), vec![entry("K", None)]);
    b.env("K", "X");
    assert_eq!(b.get_envs(), vec![entry("K", Some("X"))]);
}

#[test]
fn env_clear_drops_earlier_edits() {
    let mut b = CommandPipeline::new("env");
    b.env("A", "1").env_remove("B");
    b.env_clear();
    assert!(b.get_envs().is_empty());
    b.env("C", "3").env("D", "4").env_remove("C").env_remove("E");
    assert_eq!(b.get_envs(), vec![entry("D", Some("4"))]);
}

#[test]
fn pipe_starts_a_fresh_stage() {
    let mut p = CommandPipeline::new("printf");
    p.arg("abc").env("X", "y").current_dir("/");
    p.pipe("cat");
    assert_eq!(p.get_program(), "cat");
    assert!(p.get_args().is_empty());
    assert!(p.get_envs().is_empty());
    assert_eq!(p.get_current_dir(), None);
}

#[test]
fn single_stage_launch_uses_its_own_streams() {
    let mut p = CommandPipeline::new("cat");
    p.arg("-n").stdin(StreamSpec::Null).stdout(StreamSpec::Piped).stderr(StreamSpec::Null);
    let plan = p.launch_plan();
    assert_eq!(plan.launches.len(), 1);
    let l = &plan.launches[0];
    assert_eq!(l.stage.program, "cat");
    assert_eq!(l.stage.args, vec!["-n".to_string()]);
    assert_eq!(l.stdin, Input::Given(StreamSpec::Null));
    assert_eq!(l.stdout, Some(StreamSpec::Piped));
    assert_eq!(l.stderr, Some(StreamSpec::Null));
    assert!(!plan.pipefail);
    assert_eq!(plan.on_drop, OnDrop::Wait);
}

#[test]
fn single_stage_launch_keeps_defaults() {
    let plan = CommandPipeline::new("true").launch_plan();
    assert_eq!(plan.launches.len(), 1);
    assert_eq!(plan.launches[0].stdin, Input::Default);
    assert_eq!(plan.launches[0].stdout, None);
    assert_eq!(plan.launches[0].stderr, None);
}

#[test]
fn three_stage_launches_are_chained() {
    let mut p = CommandPipeline::new("a");
    p.stdout(StreamSpec::Null).stderr(StreamSpec::Inherit).stdin(StreamSpec::Piped);
    p.pipe("b").arg("1");
    p.pipe("c").pipefail(true).on_drop(OnDrop::Kill).stdout(StreamSpec::Piped);
    let plan = p.launch_plan();
    assert_eq!(plan.launches.len(), 3);
    let names: Vec<&str> = plan.launches.iter().map(|l| l.stage.program.as_str()).collect();
    assert_eq!(names, vec!["a", "b", "c"]);
    assert_eq!(plan.launches[0].stdin, Input::Given(StreamSpec::Piped));
    assert_eq!(plan.launches[1].stdin, Input::Previous);
    assert_eq!(plan.launches[2].stdin, Input::Previous);
    assert_eq!(plan.launches[0].stdout, Some(StreamSpec::Piped));
    assert_eq!(plan.launches[1].stdout, Some(StreamSpec::Piped));
    assert_eq!(plan.launches[2].stdout, Some(StreamSpec::Piped));
    assert_eq!(plan.launches[0].stderr, None);
    assert_eq!(plan.launches[1].stderr, None);
    assert_eq!(plan.launches[2].stderr, Some(StreamSpec::Inherit));
    assert_eq!(plan.launches[1].stage.args, vec!["1".to_string()]);
    assert!(plan.pipefail);
    assert_eq!(plan.on_drop, OnDrop::Kill);
}

#[test]
fn tail_stdout_follows_choice() {
    let mut p = CommandPipeline::new("a");
    p.pipe("b").stdout(StreamSpec::Null);
    let plan = p.launch_plan();
    assert_eq!(plan.launches[0].stdout, Some(StreamSpec::Piped));
    assert_eq!(plan.launches[1].stdout, Some(StreamSpec::Null));
    assert_eq!(plan.launches[0].stdin, Input::Default);
}

#[test]
fn handles_pass_through_unchanged() {
    let mut p = CommandPipeline::new("a");
    p.stdin(StreamSpec::Handle(0));
    p.pipe("b").stdout(StreamSpec::Handle(1)).stderr(StreamSpec::Handle(2));
    let plan = p.launch_plan();
    assert_eq!(plan.launches[0].stdin, Input::Given(StreamSpec::Handle(0)));
    assert_eq!(plan.launches[1].stdout, Some(StreamSpec::Handle(1)));
    assert_eq!(plan.launches[1].stderr, Some(StreamSpec::Handle(2)));
}

#[test]
fn output_plan_pipes_tail_by_default() {
    // printf abc | cat
    let mut p = CommandPipeline::new("printf");
    p.arg("abc").pipe("cat");
    let plan = p.output_plan();
    assert_eq!(plan.launches.len(), 2);
    assert_eq!(plan.launches[0].stdout, Some(StreamSpec::Piped));
    assert_eq!(plan.launches[1].stdout, Some(StreamSpec::Piped));
    assert_eq!(plan.launches[1].stdin, Input::Previous);
    assert_eq!(plan.launches[1].stderr, None);
}

#[test]
fn output_plan_keeps_chosen_stdout() {
    let mut p = CommandPipeline::new("true");
    p.stdout(StreamSpec::Null);
    let plan = p.output_plan();
    assert_eq!(plan.launches[0].stdout, Some(StreamSpec::Null));
}
