//! The per-node step pipeline: goals, steps, the context a node's run
//! accumulates, and the decisions of the evaluate step.
use vstd::prelude::*;
use vstd::string::*;
use crate::error::HiveLibError;
use crate::eval::{EvalGoal, get_eval_command, eval_args_of};
use crate::key::UploadKeyAt;
use crate::log::{NixLog, LogLine, line_text};

verus! {

/// What a deployment is meant to achieve.
#[derive(Clone, Copy, Debug, PartialEq, Eq, Structural)]
pub enum Goal {
    /// Build, push, activate now and make the boot default.
    Switch,
    /// Build system profiles.
    Build,
    /// Copy closures to remote hosts.
    Push,
    /// Push deployment keys to remote hosts.
    Keys,
    /// Activate system profile on next boot.
    Boot,
    /// Activate now without making the boot default.
    Test,
    /// Show what activation would do.
    DryActivate,
}

/// The name a goal is shown under.
pub open spec fn goal_name(g: Goal) -> Seq<char> {
    match g {
        Goal::Switch => "Switch"@,
        Goal::Build => "Build"@,
        Goal::Push => "Push"@,
        Goal::Keys => "Keys"@,
        Goal::Boot => "Boot"@,
        Goal::Test => "Test"@,
        Goal::DryActivate => "DryActivate"@,
    }
}

impl Goal {
    /// The goal's name.
    pub fn name(&self) -> (r: String)
        ensures
            r@ == goal_name(*self),
    {
        match self {
            Goal::Switch => String::from_str("Switch"),
            Goal::Build => String::from_str("Build"),
            Goal::Push => String::from_str("Push"),
            Goal::Keys => String::from_str("Keys"),
            Goal::Boot => String::from_str("Boot"),
            Goal::Test => String::from_str("Test"),
            Goal::DryActivate => String::from_str("DryActivate"),
        }
    }
}

impl Default for Goal {
    fn default() -> (r: Goal)
        ensures
            r == Goal::Switch,
    {
        Goal::Switch
    }
}

/// The phases of a node's deployment.
#[derive(Clone, Copy, Debug, PartialEq, Eq, Structural)]
pub enum StepKind {
    Evaluate,
    Build,
    Push,
    Keys(UploadKeyAt),
    Activate,
}

/// The verb that tells the host's activation script what `goal` asks for.
pub open spec fn activation_verb(goal: Goal) -> Seq<char> {
    match goal {
        Goal::Boot => "boot"@,
        Goal::Test => "test"@,
        Goal::DryActivate => "dry-activate"@,
        _ => "switch"@,
    }
}

/// The verb passed to the host's activation script for `goal`.
pub fn activation_action(goal: Goal) -> (r: String)
    ensures
        r@ == activation_verb(goal),
{
    match goal {
        Goal::Boot => String::from_str("boot"),
        Goal::Test => String::from_str("test"),
        Goal::DryActivate => String::from_str("dry-activate"),
        _ => String::from_str("switch"),
    }
}

/// Whether the goal activates the new configuration on the host.
pub open spec fn activates(goal: Goal) -> bool {
    goal == Goal::Switch || goal == Goal::Boot || goal == Goal::Test
}

/// Whether `step` runs for `goal`; `no_keys` leaves out the key pushes that
/// surround activation.
pub open spec fn step_runs(step: StepKind, goal: Goal, no_keys: bool) -> bool {
    match step {
        StepKind::Evaluate => goal != Goal::Keys,
        StepKind::Build => goal != Goal::Keys,
        StepKind::Push => goal != Goal::Keys && goal != Goal::Build,
        StepKind::Keys(at) => if at == UploadKeyAt::All {
            goal == Goal::Keys
        } else {
            !no_keys && activates(goal)
        },
        StepKind::Activate => activates(goal) || goal == Goal::DryActivate,
    }
}

/// Every step, in the order they run.
pub open spec fn all_steps() -> Seq<StepKind> {
    seq![
        StepKind::Evaluate,
        StepKind::Build,
        StepKind::Push,
        StepKind::Keys(UploadKeyAt::All),
        StepKind::Keys(UploadKeyAt::PreActivation),
        StepKind::Activate,
        StepKind::Keys(UploadKeyAt::PostActivation),
    ]
}

/// The steps among the first `n` of `steps` that run for `goal`, in order.
pub open spec fn steps_for(steps: Seq<StepKind>, goal: Goal, no_keys: bool, n: int) -> Seq<StepKind>
    decreases n,
{
    if n <= 0 {
        seq![]
    } else if step_runs(steps[n - 1], goal, no_keys) {
        steps_for(steps, goal, no_keys, n - 1).push(steps[n - 1])
    } else {
        steps_for(steps, goal, no_keys, n - 1)
    }
}

/// The steps a node's run takes for `goal`, in order.
pub open spec fn planned(goal: Goal, no_keys: bool) -> Seq<StepKind> {
    steps_for(all_steps(), goal, no_keys, 7)
}

/// Whether `step` runs for `goal`.
pub fn should_run(step: StepKind, goal: Goal, no_keys: bool) -> (r: bool)
    ensures
        r == step_runs(step, goal, no_keys),
{
    let activating = goal == Goal::Switch || goal == Goal::Boot || goal == Goal::Test;
    match step {
        StepKind::Evaluate => goal != Goal::Keys,
        StepKind::Build => goal != Goal::Keys,
        StepKind::Push => goal != Goal::Keys && goal != Goal::Build,
        StepKind::Keys(at) => if at == UploadKeyAt::All {
            goal == Goal::Keys
        } else {
            !no_keys && activating
        },
        StepKind::Activate => activating || goal == Goal::DryActivate,
    }
}

/// The steps of a node's run for `goal`, in the order they run.
pub fn plan(goal: Goal, no_keys: bool) -> (r: Vec<StepKind>)
    ensures
        r@ == planned(goal, no_keys),
{
    let all: Vec<StepKind> = vec![
        StepKind::Evaluate,
        StepKind::Build,
        StepKind::Push,
        StepKind::Keys(UploadKeyAt::All),
        StepKind::Keys(UploadKeyAt::PreActivation),
        StepKind::Activate,
        StepKind::Keys(UploadKeyAt::PostActivation),
    ];
    assert(all@ =~= all_steps());
    let mut r: Vec<StepKind> = Vec::new();
    let mut i: usize = 0;
    while i < all.len()
        invariant
            all@ == all_steps(),
            i <= all@.len(),
            r@ == steps_for(all_steps(), goal, no_keys, i as int),
        decreases all@.len() - i,
    {
        if should_run(all[i], goal, no_keys) {
            r.push(all[i]);
        }
        i = i + 1;
    }
    r
}

/// A keys-only deployment takes one step, the push of every key: nothing is
/// evaluated, built or activated.
pub proof fn lemma_keys_goal_only_pushes_keys(no_keys: bool)
    ensures
        planned(Goal::Keys, no_keys) == seq![StepKind::Keys(UploadKeyAt::All)],
        !planned(Goal::Keys, no_keys).contains(StepKind::Evaluate),
{
    reveal_with_fuel(steps_for, 8);
    assert(planned(Goal::Keys, no_keys) =~= seq![StepKind::Keys(UploadKeyAt::All)]);
    assert(seq![StepKind::Keys(UploadKeyAt::All)][0] != StepKind::Evaluate);
}

/// Every goal but a keys-only one evaluates the node first.
pub proof fn lemma_other_goals_evaluate_first(goal: Goal, no_keys: bool)
    requires
        goal != Goal::Keys,
    ensures
        planned(goal, no_keys).len() > 0,
        planned(goal, no_keys)[0] == StepKind::Evaluate,
{
    reveal_with_fuel(steps_for, 8);
    let s = all_steps();
    assert(steps_for(s, goal, no_keys, 1) =~= seq![StepKind::Evaluate]);
    lemma_steps_for_extends(s, goal, no_keys, 1, 7);
}

proof fn lemma_steps_for_extends(s: Seq<StepKind>, goal: Goal, no_keys: bool, i: int, j: int)
    requires
        0 <= i <= j <= s.len(),
    ensures
        steps_for(s, goal, no_keys, i).len() <= steps_for(s, goal, no_keys, j).len(),
        forall|k: int| 0 <= k < steps_for(s, goal, no_keys, i).len()
            ==> #[trigger] steps_for(s, goal, no_keys, j)[k] == steps_for(s, goal, no_keys, i)[k],
    decreases j - i,
{
    if i < j {
        lemma_steps_for_extends(s, goal, no_keys, i, j - 1);
    }
}

/// The derivation that evaluating a node produced: a JSON value.
#[derive(Debug)]
pub struct Derivation {
    pub json: serde_json::Value,
}

/// What the evaluate step hands to later steps.
#[derive(Debug)]
pub struct Output(pub Derivation);

/// The outputs that a node's run has produced so far, at most one of each kind.
#[derive(Debug)]
pub struct StepState {
    pub evaluation: Option<Output>,
}

/// The state of one node's run.
#[derive(Debug)]
pub struct Context {
    pub name: String,
    pub hive_path: String,
    pub goal: Goal,
    pub show_trace: bool,
    pub state: StepState,
}

impl Context {
    /// A fresh context for node `name`, with no outputs yet.
    pub fn new(name: String, hive_path: String, goal: Goal, show_trace: bool) -> (r: Context)
        ensures
            r.name@ == name@,
            r.hive_path@ == hive_path@,
            r.goal == goal,
            r.show_trace == show_trace,
            r.state.evaluation is None,
    {
        Context { name, hive_path, goal, show_trace, state: StepState { evaluation: None } }
    }
}

/// JSON text that `serde_json` parses as a value.
pub uninterp spec fn is_json(s: Seq<char>) -> bool;

/// Relies on serde_json::from_str: it yields a value exactly when the text
/// is JSON.
#[verifier::external_body]
fn parse_json(s: &str) -> (r: Option<serde_json::Value>)
    ensures
        r is Some <==> is_json(s@),
{
    serde_json::from_str::<serde_json::Value>(s).ok()
}

#[verifier::external_type_specification]
#[verifier::external_body]
pub struct ExValue(serde_json::Value);

/// The non-empty texts of `lines`, joined by newlines.
pub open spec fn joined_text(lines: Seq<LogLine>) -> Seq<char>
    decreases lines.len(),
{
    if lines.len() == 0 {
        seq![]
    } else {
        let rest = joined_text(lines.drop_last());
        let t = line_text(lines.last());
        if t.len() == 0 {
            rest
        } else if rest.len() == 0 {
            t
        } else {
            rest + seq!['\n'] + t
        }
    }
}

/// Joins the non-empty texts of the evaluator's output lines by newlines.
pub fn join_output(lines: &Vec<NixLog>) -> (r: String)
    ensures
        r@ == joined_text(lines@.map_values(|l: NixLog| l@)),
{
    proof {
        reveal_strlit("\n");
        assert("\n"@ =~= seq!['\n']);
    }
    let ghost ls = lines@.map_values(|l: NixLog| l@);
    let mut r = String::new();
    let mut i: usize = 0;
    while i < lines.len()
        invariant
            i <= lines@.len(),
            ls == lines@.map_values(|l: NixLog| l@),
            r@ == joined_text(ls.subrange(0, i as int)),
        decreases lines@.len() - i,
    {
        let t: &str = match &lines[i] {
            NixLog::Raw(s) => s.as_str(),
            NixLog::Internal(e) => e.fields.as_str(),
        };
        assert(ls.subrange(0, i + 1).drop_last() =~= ls.subrange(0, i as int));
        assert(t@ == line_text(ls.subrange(0, i + 1).last()));
        let ghost rest = r@;
        assert(rest == joined_text(ls.subrange(0, i + 1).drop_last()));
        if t.unicode_len() > 0 {
            if r.as_str().unicode_len() > 0 {
                proof {
                    reveal_strlit("\n");
                    assert("\n"@ =~= seq!['\n']);
                }
                r.append("\n");
                r.append(t);
                assert(r@ =~= rest + seq!['\n'] + t@);
            } else {
                r.append(t);
                assert(r@ =~= t@);
            }
        }
        i = i + 1;
    }
    assert(ls.subrange(0, lines@.len() as int) =~= ls);
    r
}

/// The step that evaluates a node's configuration.
#[derive(Debug)]
pub struct Step;

impl Step {
    /// What the step does, as shown to the user.
    pub fn description(&self) -> (r: String)
        ensures
            r@ == "Evaluate the node"@,
    {
        String::from_str("Evaluate the node")
    }

    /// A node's configuration is evaluated for every goal but a keys-only one.
    pub fn should_execute(&self, ctx: &Context) -> (r: bool)
        ensures
            r == (ctx.goal != Goal::Keys),
    {
        ctx.goal != Goal::Keys
    }

    /// The evaluator's arguments for this node, given its configuration's
    /// canonical path and the runtime support tree.
    pub fn command(&self, ctx: &Context, canonical_path: &str, runtime: &str) -> (r: Vec<String>)
        ensures
            r@.map_values(|a: String| a@) == eval_args_of(
                canonical_path@,
                runtime@,
                EvalGoal::GetTopLevel(ctx.name),
                ctx.show_trace,
            ),
    {
        let goal = EvalGoal::GetTopLevel(ctx.name.clone());
        get_eval_command(canonical_path, runtime, &goal, ctx.show_trace)
    }

    /// Takes in the evaluator's outcome for this node: whether it exited
    /// successfully and its classified output. On success its output lines,
    /// joined, must parse as the derivation, which is stored in the context.
    pub fn finish(&self, ctx: &mut Context, success: bool, stdout: Vec<NixLog>, stderr: Vec<NixLog>) -> (r: Result<(), HiveLibError>)
        requires
            old(ctx).state.evaluation is None,
        ensures
            final(ctx).name == old(ctx).name,
            final(ctx).hive_path == old(ctx).hive_path,
            final(ctx).goal == old(ctx).goal,
            final(ctx).show_trace == old(ctx).show_trace,
            r is Ok <==> success && is_json(joined_text(stdout@.map_values(|l: NixLog| l@))),
            r is Ok <==> final(ctx).state.evaluation is Some,
            !success ==> (r matches Err(HiveLibError::NixEvalInteralError(n, e))
                && n@ == old(ctx).name@ && e@ == stderr@),
            success && !is_json(joined_text(stdout@.map_values(|l: NixLog| l@))) ==> (r matches Err(
                HiveLibError::ParseEvaluateError(n, e),
            ) && n@ == old(ctx).name@ && e@ == stderr@),
    {
        if !success {
            return Err(HiveLibError::NixEvalInteralError(ctx.name.clone(), stderr));
        }
        let text = join_output(&stdout);
        match parse_json(text.as_str()) {
            Some(json) => {
                ctx.state.evaluation = Some(Output(Derivation { json }));
                Ok(())
            },
            None => Err(HiveLibError::ParseEvaluateError(ctx.name.clone(), stderr)),
        }
    }
}

/// One node's run through its steps: the planned steps, how many have
/// completed, and whether one failed.
#[derive(Debug)]
pub struct NodeRun {
    pub steps: Vec<StepKind>,
    pub done: usize,
    pub failed: bool,
}

impl NodeRun {
    /// Whether the counts fit the plan.
    pub open spec fn wf(&self) -> bool {
        self.done <= self.steps@.len()
    }

    /// Whether the run is over: a step failed, or every step completed.
    pub open spec fn is_over(&self) -> bool {
        self.failed || self.done == self.steps@.len()
    }

    /// A run of `goal` that has taken no step yet.
    pub fn new(goal: Goal, no_keys: bool) -> (r: NodeRun)
        ensures
            r.wf(),
            r.steps@ == planned(goal, no_keys),
            r.done == 0,
            !r.failed,
    {
        NodeRun { steps: plan(goal, no_keys), done: 0, failed: false }
    }

    /// The step to run next, or `None` once the run is over.
    pub fn next_step(&self) -> (r: Option<StepKind>)
        requires
            self.wf(),
        ensures
            self.is_over() <==> r is None,
            r matches Some(s) ==> s == self.steps@[self.done as int],
    {
        if self.failed || self.done == self.steps.len() {
            None
        } else {
            Some(self.steps[self.done])
        }
    }

    /// Records the outcome of the step that `next_step` gave: a failure ends
    /// the run, and no later step is attempted.
    pub fn record(&mut self, ok: bool)
        requires
            old(self).wf(),
            !old(self).is_over(),
        ensures
            final(self).wf(),
            final(self).steps == old(self).steps,
            final(self).done == old(self).done + 1,
            final(self).failed == !ok,
    {
        let n = self.steps.len();
        assert(self.done < n);
        self.done = self.done + 1;
        self.failed = !ok;
    }

    /// Whether every planned step completed.
    pub fn succeeded(&self) -> (r: bool)
        ensures
            r == (!self.failed && self.done == self.steps@.len()),
    {
        !self.failed && self.done == self.steps.len()
    }
}

} // verus!
