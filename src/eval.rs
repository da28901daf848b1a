//! The evaluator's command line for a fleet inspection or for one node's
//! top-level artifact.
use vstd::prelude::*;
use vstd::string::*;
use crate::text::{has_suffix, ends_with, substring};

verus! {

/// What the evaluator is asked for.
#[derive(Debug)]
pub enum EvalGoal {
    /// The whole fleet's structure.
    Inspect,
    /// The top-level artifact of the named node.
    GetTopLevel(String),
}

/// The file name that marks a flake entry point.
pub open spec fn flake_suffix() -> Seq<char> {
    "/flake.nix"@
}

/// Whether the canonical path `p` names a flake entry point.
pub open spec fn is_flake(p: Seq<char>) -> bool {
    has_suffix(p, flake_suffix())
}

/// The directory that holds the flake entry point `p`.
pub open spec fn flake_dir(p: Seq<char>) -> Seq<char> {
    let d = p.subrange(0, p.len() - flake_suffix().len());
    if d.len() == 0 { "/"@ } else { d }
}

/// The expression's reference to the goal.
pub open spec fn goal_expr(goal: EvalGoal) -> Seq<char> {
    match goal {
        EvalGoal::Inspect => "hive.inspect"@,
        EvalGoal::GetTopLevel(n) => "hive.getTopLevel \""@ + n@ + "\""@,
    }
}

/// The expression that evaluates `goal` for the configuration at the
/// canonical path `p`, with the runtime support tree at `runtime`. A flake
/// brings its own inputs; a plain file is imported and the flake-only inputs
/// are left empty.
pub open spec fn eval_expr(p: Seq<char>, runtime: Seq<char>, goal: EvalGoal) -> Seq<char> {
    let flake = if is_flake(p) {
        "(builtins.getFlake \"git+file://"@ + flake_dir(p) + "\")"@
    } else {
        "null"@
    };
    let hive = if is_flake(p) { "flake.colmena"@ } else { "import "@ + p };
    let configurations = if is_flake(p) { "flake.nixosConfigurations or {}"@ } else { "{}"@ };
    let nixpkgs = if is_flake(p) { "flake.inputs.nixpkgs.outPath or null"@ } else { "null"@ };
    "let flake = "@ + flake + "; evaluate = import "@ + runtime + "/evaluate.nix; hive = evaluate {hive = "@
        + hive + "; path = "@ + p + "; nixosConfigurations = "@ + configurations + "; nixpkgs = "@
        + nixpkgs + ";}; in "@ + goal_expr(goal)
}

/// The evaluator's arguments.
pub open spec fn eval_args_of(p: Seq<char>, runtime: Seq<char>, goal: EvalGoal, show_trace: bool) -> Seq<Seq<char>> {
    seq![
        "--extra-experimental-features"@, "nix-command"@,
        "--extra-experimental-features"@, "flakes"@,
        "eval"@, "--json"@, "--impure"@,
    ] + (if show_trace { seq!["--show-trace"@] } else { seq![] })
      + seq!["--expr"@, eval_expr(p, runtime, goal)]
}

fn goal_text(goal: &EvalGoal) -> (r: String)
    ensures
        r@ == goal_expr(*goal),
{
    match goal {
        EvalGoal::Inspect => String::from_str("hive.inspect"),
        EvalGoal::GetTopLevel(n) => {
            let mut r = String::from_str("hive.getTopLevel \"");
            r.append(n.as_str());
            r.append("\"");
            r
        },
    }
}

fn expression(p: &str, runtime: &str, goal: &EvalGoal) -> (r: String)
    ensures
        r@ == eval_expr(p@, runtime@, *goal),
{
    proof {
        reveal_strlit("/flake.nix");
        reveal_strlit("/");
    }
    let flake = ends_with(p, "/flake.nix");
    let mut head = String::from_str("null");
    let mut hive = String::from_str("import ");
    hive.append(p);
    let mut configurations = String::from_str("{}");
    let mut nixpkgs = String::from_str("null");
    if flake {
        head = String::from_str("(builtins.getFlake \"git+file://");
        let n = p.unicode_len() - 10;
        if n == 0 {
            head.append("/");
        } else {
            let d = substring(p, 0, n);
            head.append(d.as_str());
        }
        head.append("\")");
        hive = String::from_str("flake.colmena");
        configurations = String::from_str("flake.nixosConfigurations or {}");
        nixpkgs = String::from_str("flake.inputs.nixpkgs.outPath or null");
    }
    let g = goal_text(goal);
    let mut r = String::from_str("let flake = ");
    r.append(head.as_str());
    r.append("; evaluate = import ");
    r.append(runtime);
    r.append("/evaluate.nix; hive = evaluate {hive = ");
    r.append(hive.as_str());
    r.append("; path = ");
    r.append(p);
    r.append("; nixosConfigurations = ");
    r.append(configurations.as_str());
    r.append("; nixpkgs = ");
    r.append(nixpkgs.as_str());
    r.append(";}; in ");
    r.append(g.as_str());
    r
}

/// The arguments of the evaluator that computes `goal` for the configuration
/// at the canonical path `path`, given the runtime support tree `runtime`.
pub fn get_eval_command(path: &str, runtime: &str, goal: &EvalGoal, show_trace: bool) -> (r: Vec<String>)
    ensures
        r@.map_values(|a: String| a@) == eval_args_of(path@, runtime@, *goal, show_trace),
{
    let mut r: Vec<String> = Vec::new();
    r.push(String::from_str("--extra-experimental-features"));
    r.push(String::from_str("nix-command"));
    r.push(String::from_str("--extra-experimental-features"));
    r.push(String::from_str("flakes"));
    r.push(String::from_str("eval"));
    r.push(String::from_str("--json"));
    r.push(String::from_str("--impure"));
    if show_trace {
        r.push(String::from_str("--show-trace"));
    }
    r.push(String::from_str("--expr"));
    r.push(expression(path, runtime, goal));
    assert(r@.map_values(|a: String| a@) =~= eval_args_of(path@, runtime@, *goal, show_trace));
    r
}

} // verus!
