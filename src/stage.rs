//! Plain-value descriptions of one process of a pipeline.
use vstd::prelude::*;

verus! {

/// Where a standard stream of a process is connected.
#[derive(Debug, Clone, Copy, PartialEq, Eq, Structural)]
pub enum StreamSpec {
    /// Share the corresponding stream of the calling process.
    Inherit,
    /// Connect the stream to the null device.
    Null,
    /// Create a new pipe whose other end is handed to the caller.
    Piped,
    /// A file or other handle that the caller holds, named by its position
    /// in the caller's list of handles.
    Handle(usize),
}

/// One edit of the environment that a process is started with.
#[derive(Debug)]
pub enum EnvEdit {
    /// Set a variable to a value.
    Assign(String, String),
    /// Remove a variable.
    Remove(String),
    /// Remove every variable, including inherited ones.
    Clear,
}

/// Everything that describes one process of a pipeline: the program, its
/// arguments, the edits of its environment in the order they were made, and
/// the working directory, if one was chosen.
#[derive(Debug)]
pub struct StageSpec {
    pub program: String,
    pub args: Vec<String>,
    pub env: Vec<EnvEdit>,
    pub current_dir: Option<String>,
}

/// What an environment edit says, over character sequences.
pub enum EnvEditView {
    Assign(Seq<char>, Seq<char>),
    Remove(Seq<char>),
    Clear,
}

impl View for EnvEdit {
    type V = EnvEditView;

    open spec fn view(&self) -> EnvEditView {
        match self {
            EnvEdit::Assign(k, v) => EnvEditView::Assign(k@, v@),
            EnvEdit::Remove(k) => EnvEditView::Remove(k@),
            EnvEdit::Clear => EnvEditView::Clear,
        }
    }
}

/// What a stage says, over character sequences.
pub struct StageView {
    pub program: Seq<char>,
    pub args: Seq<Seq<char>>,
    pub env: Seq<EnvEditView>,
    pub current_dir: Option<Seq<char>>,
}

/// The character sequences of a list of strings.
pub open spec fn strings_view(v: Seq<String>) -> Seq<Seq<char>> {
    v.map_values(|s: String| s@)
}

/// The views of a list of environment edits.
pub open spec fn edits_view(v: Seq<EnvEdit>) -> Seq<EnvEditView> {
    v.map_values(|e: EnvEdit| e@)
}

pub open spec fn opt_string_view(o: Option<String>) -> Option<Seq<char>> {
    match o {
        Some(s) => Some(s@),
        None => None,
    }
}

impl View for StageSpec {
    type V = StageView;

    open spec fn view(&self) -> StageView {
        StageView {
            program: self.program@,
            args: strings_view(self.args@),
            env: edits_view(self.env@),
            current_dir: opt_string_view(self.current_dir),
        }
    }
}

/// A stage that runs `program` with no arguments, no environment edits and
/// the caller's working directory.
pub open spec fn fresh_stage(program: Seq<char>) -> StageView {
    StageView { program, args: Seq::empty(), env: Seq::empty(), current_dir: None }
}

/// What the environment edits made so far amount to: whether the inherited
/// environment was cleared, and the value (`None`: removed) of each variable
/// set or removed since.
pub struct NetEnv {
    pub cleared: bool,
    pub vars: Map<Seq<char>, Option<Seq<char>>>,
}

/// The effect of one more edit. After a clear, removing a variable only
/// forgets an earlier assignment: there is nothing inherited left to remove.
pub open spec fn apply_edit(n: NetEnv, e: EnvEditView) -> NetEnv {
    match e {
        EnvEditView::Assign(k, v) => NetEnv { vars: n.vars.insert(k, Some(v)), ..n },
        EnvEditView::Remove(k) => if n.cleared {
            NetEnv { vars: n.vars.remove(k), ..n }
        } else {
            NetEnv { vars: n.vars.insert(k, None), ..n }
        },
        EnvEditView::Clear => NetEnv { cleared: true, vars: Map::empty() },
    }
}

/// The effect of a list of edits applied in order.
pub open spec fn net_env_spec(edits: Seq<EnvEditView>) -> NetEnv
    decreases edits.len(),
{
    if edits.len() == 0 {
        NetEnv { cleared: false, vars: Map::empty() }
    } else {
        apply_edit(net_env_spec(edits.drop_last()), edits.last())
    }
}

/// `r` lists the entries of `m`, each key once.
pub open spec fn lists_env(r: Seq<(String, Option<String>)>, m: Map<Seq<char>, Option<Seq<char>>>) -> bool {
    &&& forall|i: int, j: int| 0 <= i < j < r.len() ==> (#[trigger] r[i]).0@ != (#[trigger] r[j]).0@
    &&& forall|i: int| 0 <= i < r.len() ==> m.contains_key((#[trigger] r[i]).0@) && m[r[i].0@] == opt_string_view(r[i].1)
    &&& forall|k: Seq<char>| #[trigger] m.contains_key(k) ==> exists|i: int| 0 <= i < r.len() && (#[trigger] r[i]).0@ == k
}

proof fn lemma_push_new_key(r: Seq<(String, Option<String>)>, p: (String, Option<String>), m: Map<Seq<char>, Option<Seq<char>>>)
    requires
        lists_env(r, m),
        !m.contains_key(p.0@),
    ensures
        lists_env(r.push(p), m.insert(p.0@, opt_string_view(p.1))),
{
    let r2 = r.push(p);
    let m2 = m.insert(p.0@, opt_string_view(p.1));
    assert forall|k: Seq<char>| #[trigger] m2.contains_key(k) implies exists|i: int| 0 <= i < r2.len() && (#[trigger] r2[i]).0@ == k by {
        if k == p.0@ {
            assert(r2[r.len() as int] == p);
        } else {
            assert(m.contains_key(k));
            let i = choose|i: int| 0 <= i < r.len() && (#[trigger] r[i]).0@ == k;
            assert(r2[i] == r[i]);
        }
    }
    assert forall|i: int| 0 <= i < r2.len() implies m2.contains_key((#[trigger] r2[i]).0@) && m2[r2[i].0@] == opt_string_view(r2[i].1) by {
        if i < r.len() {
            assert(r2[i] == r[i]);
            assert(m.contains_key(r[i].0@));
        }
    }
    assert forall|i: int, j: int| 0 <= i < j < r2.len() implies (#[trigger] r2[i]).0@ != (#[trigger] r2[j]).0@ by {
        if j < r.len() {
            assert(r2[i] == r[i] && r2[j] == r[j]);
        } else {
            assert(r2[i] == r[i]);
            assert(m.contains_key(r[i].0@));
        }
    }
}

/// Takes the entry for `k` out of `out`, if there is one.
fn remove_key(out: &mut Vec<(String, Option<String>)>, k: &String, Ghost(m): Ghost<Map<Seq<char>, Option<Seq<char>>>>)
    requires
        lists_env(old(out)@, m),
    ensures
        lists_env(final(out)@, m.remove(k@)),
{
    let mut j: usize = 0;
    while j < out.len()
        invariant
            j <= out@.len(),
            lists_env(out@, m),
            forall|x: int| 0 <= x < j ==> (#[trigger] out@[x]).0@ != k@,
        decreases out@.len() - j,
    {
        if out[j].0 == *k {
            let ghost prev = out@;
            out.remove(j);
            proof {
                let m2 = m.remove(k@);
                let r2 = out@;
                assert(r2 =~= prev.remove(j as int));
                assert forall|i: int| 0 <= i < r2.len() implies m2.contains_key((#[trigger] r2[i]).0@) && m2[r2[i].0@] == opt_string_view(r2[i].1) by {
                    if i < j {
                        assert(r2[i] == prev[i]);
                    } else {
                        assert(r2[i] == prev[i + 1]);
                        assert(prev[j as int].0@ != prev[i + 1].0@);
                    }
                }
                assert forall|i: int, l: int| 0 <= i < l < r2.len() implies (#[trigger] r2[i]).0@ != (#[trigger] r2[l]).0@ by {
                    let a = if i < j { i } else { i + 1 };
                    let b = if l < j { l } else { l + 1 };
                    assert(r2[i] == prev[a] && r2[l] == prev[b]);
                }
                assert forall|key: Seq<char>| #[trigger] m2.contains_key(key) implies exists|i: int| 0 <= i < r2.len() && (#[trigger] r2[i]).0@ == key by {
                    assert(m.contains_key(key));
                    let x = choose|x: int| 0 <= x < prev.len() && (#[trigger] prev[x]).0@ == key;
                    assert(x != j);
                    if x < j {
                        assert(r2[x] == prev[x]);
                    } else {
                        assert(r2[x - 1] == prev[x]);
                    }
                }
            }
            return;
        }
        j = j + 1;
    }
    proof {
        let m2 = m.remove(k@);
        assert(!m.contains_key(k@));
        assert(m2 =~= m);
    }
}

impl StageSpec {
    /// A stage for `program`, with nothing else configured.
    pub fn new(program: &str) -> (r: StageSpec)
        ensures
            r@ == fresh_stage(program@),
    {
        let r = StageSpec { program: program.to_owned(), args: Vec::new(), env: Vec::new(), current_dir: None };
        proof {
            assert(r@.args =~= Seq::<Seq<char>>::empty());
            assert(r@.env =~= Seq::<EnvEditView>::empty());
        }
        r
    }

    /// Appends one argument.
    pub fn push_arg(&mut self, arg: &str)
        ensures
            final(self)@ == (StageView { args: old(self)@.args.push(arg@), ..old(self)@ }),
    {
        let a = arg.to_owned();
        self.args.push(a);
        proof {
            assert(strings_view(self.args@) =~= strings_view(old(self).args@).push(arg@));
        }
    }

    /// Records one environment edit.
    pub fn push_edit(&mut self, edit: EnvEdit)
        ensures
            final(self)@ == (StageView { env: old(self)@.env.push(edit@), ..old(self)@ }),
    {
        let ghost e = edit@;
        self.env.push(edit);
        proof {
            assert(edits_view(self.env@) =~= edits_view(old(self).env@).push(e));
        }
    }

    /// Chooses the working directory.
    pub fn set_current_dir(&mut self, dir: &str)
        ensures
            final(self)@ == (StageView { current_dir: Some(dir@), ..old(self)@ }),
    {
        self.current_dir = Some(dir.to_owned());
    }

    /// The environment this stage sets explicitly: each variable at most
    /// once, with `Some(value)` where it is set and `None` where it is
    /// removed from an inherited environment. Edits made before the last
    /// `Clear` leave nothing behind.
    pub fn net_env(&self) -> (r: Vec<(String, Option<String>)>)
        ensures
            lists_env(r@, net_env_spec(self@.env).vars),
    {
        let mut out: Vec<(String, Option<String>)> = Vec::new();
        let mut cleared = false;
        let mut i: usize = 0;
        proof {
            assert(self@.env.subrange(0, 0) =~= Seq::<EnvEditView>::empty());
        }
        while i < self.env.len()
            invariant
                i <= self.env@.len(),
                self@.env == edits_view(self.env@),
                lists_env(out@, net_env_spec(self@.env.subrange(0, i as int)).vars),
                cleared == net_env_spec(self@.env.subrange(0, i as int)).cleared,
            decreases self.env@.len() - i,
        {
            let ghost before = net_env_spec(self@.env.subrange(0, i as int));
            proof {
                assert(self@.env.subrange(0, i + 1).drop_last() =~= self@.env.subrange(0, i as int));
                assert(self@.env.subrange(0, i + 1).last() == self.env@[i as int]@);
            }
            match &self.env[i] {
                EnvEdit::Assign(k, v) => {
                    remove_key(&mut out, k, Ghost(before.vars));
                    let ghost prev = out@;
                    out.push((k.clone(), Some(v.clone())));
                    proof {
                        lemma_push_new_key(prev, out@.last(), before.vars.remove(k@));
                        assert(before.vars.remove(k@).insert(k@, Some(v@)) =~= before.vars.insert(k@, Some(v@)));
                        assert(out@ =~= prev.push(out@.last()));
                    }
                },
                EnvEdit::Remove(k) => {
                    remove_key(&mut out, k, Ghost(before.vars));
                    if !cleared {
                        let ghost prev = out@;
                        out.push((k.clone(), None));
                        proof {
                            lemma_push_new_key(prev, out@.last(), before.vars.remove(k@));
                            assert(before.vars.remove(k@).insert(k@, None) =~= before.vars.insert(k@, None));
                            assert(out@ =~= prev.push(out@.last()));
                        }
                    }
                },
                EnvEdit::Clear => {
                    out = Vec::new();
                    cleared = true;
                    proof {
                        assert(out@ =~= Seq::<(String, Option<String>)>::empty());
                    }
                },
            }
            i = i + 1;
        }
        proof {
            assert(self@.env.subrange(0, self@.env.len() as int) =~= self@.env);
        }
        out
    }
}

} // verus!
