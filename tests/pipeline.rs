use wire::error::HiveLibError;
use wire::eval::{get_eval_command, EvalGoal};
use wire::key::UploadKeyAt;
use wire::log::{classify_line, classify_lines, progress_message, strip_log_prefix, Internal, NixLog};
use wire::schedule::Scheduler;
use wire::select::{is_selected, select_nodes, ApplyTarget, Node};
use wire::step::{activation_action, plan, Context, Goal, NodeRun, Step, StepKind};

fn fleet_node(name: &str, tags: &[&str]) -> Node {
    Node {
        name: name.to_string(),
        host: format!("{name}.example"),
        user: "root".to_string(),
        tags: tags.iter().map(|t| t.to_string()).collect(),
        keys: vec![],
    }
}

fn action_of(text: &str) -> Option<String> {
    let v: serde_json::Value = serde_json::from_str(text).ok()?;
    v.get("action")?.as_str().map(|a| a.to_string())
}

#[test]
fn selection_is_a_union_of_names_and_tags() {
    let fleet = vec![
        fleet_node("a", &["web"]),
        fleet_node("b", &["db"]),
        fleet_node("c", &["web", "db"]),
    ];
    let on = vec![ApplyTarget::from_arg("b"), ApplyTarget::from_arg("@web")];
    assert_eq!(select_nodes(&fleet, &on), vec![0, 1, 2]);
    let on = vec![ApplyTarget::from_arg("@db"), ApplyTarget::from_arg("c")];
    assert_eq!(select_nodes(&fleet, &on), vec![1, 2]);
}

#[test]
fn empty_targets_select_every_node() {
    let fleet = vec![fleet_node("a", &[]), fleet_node("b", &["x"])];
    assert_eq!(select_nodes(&fleet, &vec![]), vec![0, 1]);
    assert!(is_selected(&vec![], &fleet[0]));
}

#[test]
fn unmatched_targets_select_nothing() {
    let fleet = vec![fleet_node("a", &["web"])];
    let on = vec![ApplyTarget::from_arg("zz"), ApplyTarget::from_arg("@db")];
    assert_eq!(select_nodes(&fleet, &on), Vec::<usize>::new());
}

#[test]
fn target_arguments() {
    assert!(matches!(ApplyTarget::from_arg("@web"), ApplyTarget::Tag(t) if t == "web"));
    assert!(matches!(ApplyTarget::from_arg("web"), ApplyTarget::Node(n) if n == "web"));
    assert!(matches!(ApplyTarget::from_arg("@"), ApplyTarget::Tag(t) if t.is_empty()));
}

fn peak_in_flight(total: usize, bound: usize) -> (usize, Vec<usize>) {
    let mut s = Scheduler::new(total, bound);
    let mut running: Vec<usize> = Vec::new();
    let mut order = Vec::new();
    let mut peak = 0;
    while !s.is_done() {
        while let Some(i) = s.start() {
            running.push(i);
            order.push(i);
        }
        peak = peak.max(running.len());
        running.remove(0);
        s.finish(Ok(()));
    }
    assert!(s.outcome().is_ok());
    (peak, order)
}

#[test]
fn scheduler_keeps_the_bound() {
    assert_eq!(peak_in_flight(3, 1), (1, vec![0, 1, 2]));
    assert_eq!(peak_in_flight(3, 3), (3, vec![0, 1, 2]));
    assert_eq!(peak_in_flight(0, 2), (0, vec![]));
}

#[test]
fn failure_of_one_node_does_not_stop_another() {
    let mut s = Scheduler::new(2, 2);
    assert_eq!(s.start(), Some(0));
    assert_eq!(s.start(), Some(1));
    let mut ctx = Context::new("x".to_string(), "/hive".to_string(), Goal::Switch, false);
    let stderr = vec![NixLog::Raw("error: boom".to_string())];
    let x = Step.finish(&mut ctx, false, vec![], stderr);
    s.finish(x);
    let mut y_done = false;
    let mut ctx_y = Context::new("y".to_string(), "/hive".to_string(), Goal::Switch, false);
    let y = Step.finish(&mut ctx_y, true, vec![NixLog::Raw("{\"drv\":1}".to_string())], vec![]);
    if y.is_ok() {
        y_done = true;
    }
    s.finish(y);
    assert!(y_done);
    assert!(s.is_done());
    assert_eq!(s.failures, 1);
    match s.outcome() {
        Err(HiveLibError::NixEvalInteralError(name, lines)) => {
            assert_eq!(name, "x");
            assert_eq!(lines.len(), 1);
        }
        other => panic!("unexpected {other:?}"),
    }
}

#[test]
fn later_failures_do_not_replace_the_first() {
    let mut s = Scheduler::new(2, 1);
    assert_eq!(s.start(), Some(0));
    assert_eq!(s.start(), None);
    s.finish(Err(HiveLibError::ParseEvaluateError("first".to_string(), vec![])));
    assert_eq!(s.start(), Some(1));
    s.finish(Err(HiveLibError::ParseEvaluateError("second".to_string(), vec![])));
    match s.outcome() {
        Err(HiveLibError::ParseEvaluateError(n, _)) => assert_eq!(n, "first"),
        other => panic!("unexpected {other:?}"),
    }
}

#[test]
fn keys_goal_skips_evaluation() {
    assert_eq!(plan(Goal::Keys, false), vec![StepKind::Keys(UploadKeyAt::All)]);
    let ctx = Context::new("n".to_string(), "/hive".to_string(), Goal::Keys, false);
    assert!(!Step.should_execute(&ctx));
    let mut run = NodeRun::new(Goal::Keys, false);
    assert_eq!(run.next_step(), Some(StepKind::Keys(UploadKeyAt::All)));
    run.record(true);
    assert_eq!(run.next_step(), None);
    assert!(run.succeeded());
}

#[test]
fn switch_plan_and_first_failure_stops() {
    assert_eq!(
        plan(Goal::Switch, false),
        vec![
            StepKind::Evaluate,
            StepKind::Build,
            StepKind::Push,
            StepKind::Keys(UploadKeyAt::PreActivation),
            StepKind::Activate,
            StepKind::Keys(UploadKeyAt::PostActivation),
        ]
    );
    assert_eq!(plan(Goal::Build, true), vec![StepKind::Evaluate, StepKind::Build]);
    assert_eq!(
        plan(Goal::Boot, true),
        vec![StepKind::Evaluate, StepKind::Build, StepKind::Push, StepKind::Activate]
    );
    let ctx = Context::new("n".to_string(), "/hive".to_string(), Goal::Switch, false);
    assert!(Step.should_execute(&ctx));
    let mut run = NodeRun::new(Goal::Switch, false);
    assert_eq!(run.next_step(), Some(StepKind::Evaluate));
    run.record(false);
    assert_eq!(run.next_step(), None);
    assert!(!run.succeeded());
}

#[test]
fn goal_names() {
    assert_eq!(Goal::default(), Goal::Switch);
    assert_eq!(Goal::DryActivate.name(), "DryActivate");
    assert_eq!(Goal::Keys.name(), "Keys");
    assert_eq!(Step.description(), "Evaluate the node");
    assert_eq!(activation_action(Goal::Switch), "switch");
    assert_eq!(activation_action(Goal::DryActivate), "dry-activate");
    assert_eq!(activation_action(Goal::Boot), "boot");
}

#[test]
fn evaluation_parses_joined_output() {
    let mut ctx = Context::new("n".to_string(), "/hive".to_string(), Goal::Switch, false);
    let out = vec![
        NixLog::Raw("{\"a\":".to_string()),
        NixLog::Raw(String::new()),
        NixLog::Raw("1}".to_string()),
    ];
    assert!(Step.finish(&mut ctx, true, out, vec![]).is_ok());
    let d = ctx.state.evaluation.as_ref().unwrap();
    assert_eq!(d.0.json["a"], 1);

    let mut ctx = Context::new("n".to_string(), "/hive".to_string(), Goal::Switch, false);
    let out = vec![NixLog::Raw("not json".to_string())];
    let err = vec![NixLog::Raw("warning: w".to_string())];
    match Step.finish(&mut ctx, true, out, err) {
        Err(HiveLibError::ParseEvaluateError(n, lines)) => {
            assert_eq!(n, "n");
            assert_eq!(lines.len(), 1);
            assert!(matches!(&lines[0], NixLog::Raw(s) if s == "warning: w"));
        }
        other => panic!("unexpected {other:?}"),
    }
    assert!(ctx.state.evaluation.is_none());
}

#[test]
fn stop_events_are_dropped_and_text_kept() {
    let line = "@nix {\"action\":\"stop\"}".to_string();
    let stripped = strip_log_prefix(&line);
    assert_eq!(stripped, "{\"action\":\"stop\"}");
    let action = action_of(&stripped);
    assert_eq!(action.as_deref(), Some("stop"));
    assert!(classify_line(line, action).is_none());

    let raw = "building foo".to_string();
    let action = action_of(&strip_log_prefix(&raw));
    match classify_line(raw, action) {
        Some(NixLog::Raw(s)) => assert_eq!(s, "building foo"),
        other => panic!("unexpected {other:?}"),
    }

    let event = "@nix {\"action\":\"msg\",\"msg\":\"hi\"}".to_string();
    let action = action_of(&strip_log_prefix(&event));
    match classify_line(event, action) {
        Some(NixLog::Internal(Internal { action, fields })) => {
            assert_eq!(action, "msg");
            assert_eq!(fields, "{\"action\":\"msg\",\"msg\":\"hi\"}");
        }
        other => panic!("unexpected {other:?}"),
    }
}

#[test]
fn classify_lines_keeps_order() {
    let lines = vec!["a".to_string(), "@nix {\"action\":\"stop\"}".to_string(), "b".to_string()];
    let actions = vec![None, Some("stop".to_string()), None];
    let out = classify_lines(lines, actions);
    assert_eq!(out.len(), 2);
    assert!(matches!(&out[0], NixLog::Raw(s) if s == "a"));
    assert!(matches!(&out[1], NixLog::Raw(s) if s == "b"));
}

#[test]
fn digests_are_masked_for_progress() {
    let log = NixLog::Raw("/nix/store/0123456789abcdef0123456789abcdef-foo".to_string());
    assert_eq!(progress_message(&log), "/nix/store/\u{2026}-foo");
    let hex = "0123456789abcdef0123456789abcdef";
    let twice = NixLog::Raw(format!("{hex}{hex}"));
    assert_eq!(progress_message(&twice), "\u{2026}\u{2026}");
    let longer = NixLog::Raw(format!("x{hex}a"));
    assert_eq!(progress_message(&longer), "x\u{2026}a");
    let upper = NixLog::Raw(hex.to_uppercase());
    assert_eq!(progress_message(&upper), hex.to_uppercase());
    let short = NixLog::Raw("abc123".to_string());
    assert_eq!(progress_message(&short), "abc123");
}

#[test]
fn eval_command_for_plain_file() {
    let args = get_eval_command("/srv/hive.nix", "/rt", &EvalGoal::GetTopLevel("web1".to_string()), true);
    assert_eq!(
        &args[..9],
        &[
            "--extra-experimental-features", "nix-command",
            "--extra-experimental-features", "flakes",
            "eval", "--json", "--impure", "--show-trace", "--expr",
        ]
    );
    assert_eq!(
        args[9],
        "let flake = null; evaluate = import /rt/evaluate.nix; hive = evaluate {hive = import \
         /srv/hive.nix; path = /srv/hive.nix; nixosConfigurations = {}; nixpkgs = null;}; in \
         hive.getTopLevel \"web1\""
    );
}

#[test]
fn eval_command_for_flake() {
    let args = get_eval_command("/srv/flake.nix", "/rt", &EvalGoal::Inspect, false);
    assert_eq!(args.len(), 9);
    assert_eq!(
        args[8],
        "let flake = (builtins.getFlake \"git+file:///srv\"); evaluate = import \
         /rt/evaluate.nix; hive = evaluate {hive = flake.colmena; path = /srv/flake.nix; \
         nixosConfigurations = flake.nixosConfigurations or {}; nixpkgs = \
         flake.inputs.nixpkgs.outPath or null;}; in hive.inspect"
    );
    let root = get_eval_command("/flake.nix", "/rt", &EvalGoal::Inspect, false);
    assert!(root[8].starts_with("let flake = (builtins.getFlake \"git+file:///\");"));
}
