use grm::pipeline::{error_line, PipelineAction, PipelineEvent, PipelineRun, RunPhase};
use grm::registry::TaskRegistry;
use grm::types::{
    EngineRequirement, ExecutionProfile, IODefinitions, PipelineTask, RegisteredTask, TaskDependencies,
    TaskManifest, TaskMetadata,
};

fn manifest(id: &str, entry: &str) -> TaskManifest {
    TaskManifest {
        id: id.to_string(),
        entrypoint: entry.to_string(),
        metadata: TaskMetadata {
            name: format!("{id} task"),
            description: String::new(),
            author: None,
            manifest_version: "1.0".to_string(),
        },
        execution: ExecutionProfile {
            target_platforms: vec![],
            min_nu_version: "0.1".to_string(),
            engine_requirement: EngineRequirement::InternalPreferred,
        },
        dependencies: TaskDependencies { system_packages: vec![] },
        io: IODefinitions { expected_env_vars: vec![], timeout_seconds: 1 },
    }
}

fn registry() -> TaskRegistry {
    let mut r = TaskRegistry::new();
    r.insert(RegisteredTask { manifest: manifest("a", "a.nu"), directory: "/tasks/a".to_string() });
    r.insert(RegisteredTask { manifest: manifest("b", "b.nu"), directory: "/tasks/b".to_string() });
    r
}

fn steps(ids: &[&str]) -> Vec<PipelineTask> {
    ids.iter().map(|i| PipelineTask { task_id: i.to_string() }).collect()
}

/// Drives a run the way the window does, with the manifest check answered by `check`.
fn drive(ids: &[&str], check: impl Fn(&str) -> Result<String, String>) -> Vec<String> {
    let reg = registry();
    let mut run = PipelineRun::new("o/r".to_string(), steps(ids));
    let mut event = PipelineEvent::Proceed;
    let mut log = Vec::new();
    for _ in 0..100 {
        match run.step(event, &reg) {
            PipelineAction::ValidateManifest { directory, entrypoint } => {
                log.push(format!("validate {directory} {entrypoint}"));
                event = PipelineEvent::ManifestChecked(check(&directory));
            }
            PipelineAction::RunScript { task_name, directory, entrypoint } => {
                log.push(format!("run {task_name} {directory}/{entrypoint}"));
                event = PipelineEvent::Proceed;
            }
            PipelineAction::Log { line } => {
                log.push(line);
                event = PipelineEvent::Proceed;
            }
            PipelineAction::Complete => {
                log.push("complete".to_string());
                assert!(matches!(run.phase, RunPhase::Finished));
                return log;
            }
        }
    }
    panic!("the run did not end");
}

#[test]
fn runs_every_step_in_order() {
    let log = drive(&["a", "b", "a"], |d| Ok(format!("checked {d}")));
    assert_eq!(
        log,
        vec![
            "validate /tasks/a a.nu",
            "run checked /tasks/a /tasks/a/a.nu",
            "validate /tasks/b b.nu",
            "run checked /tasks/b /tasks/b/b.nu",
            "validate /tasks/a a.nu",
            "run checked /tasks/a /tasks/a/a.nu",
            "complete",
        ]
    );
}

#[test]
fn stops_at_missing_task() {
    let log = drive(&["a", "zzz", "b"], |d| Ok(d.to_string()));
    assert_eq!(
        log,
        vec![
            "validate /tasks/a a.nu",
            "run /tasks/a /tasks/a/a.nu",
            "ERROR: Task 'zzz' not found in registry.",
            "complete",
        ]
    );
}

#[test]
fn stops_at_invalid_manifest() {
    let log = drive(&["a", "b"], |d| if d.ends_with('b') { Err("bad field".to_string()) } else { Ok("ok".to_string()) });
    assert_eq!(
        log,
        vec![
            "validate /tasks/a a.nu",
            "run ok /tasks/a/a.nu",
            "validate /tasks/b b.nu",
            "ERROR: Manifest Validation Failed: bad field",
            "complete",
        ]
    );
}

#[test]
fn empty_pipeline_completes_at_once() {
    assert_eq!(drive(&[], |_| Ok(String::new())), vec!["complete"]);
}

#[test]
fn finished_run_keeps_answering_complete() {
    let reg = registry();
    let mut run = PipelineRun::new("o/r".to_string(), vec![]);
    assert!(matches!(run.step(PipelineEvent::Proceed, &reg), PipelineAction::Complete));
    assert!(matches!(run.step(PipelineEvent::Proceed, &reg), PipelineAction::Complete));
    assert_eq!(run.next, 0);
}

#[test]
fn waiting_run_asks_again() {
    let reg = registry();
    let mut run = PipelineRun::new("o/r".to_string(), steps(&["b"]));
    let first = run.step(PipelineEvent::Proceed, &reg);
    let again = run.step(PipelineEvent::Proceed, &reg);
    match (first, again) {
        (
            PipelineAction::ValidateManifest { directory: d1, .. },
            PipelineAction::ValidateManifest { directory: d2, entrypoint },
        ) => {
            assert_eq!(d1, "/tasks/b");
            assert_eq!(d2, "/tasks/b");
            assert_eq!(entrypoint, "b.nu");
        }
        _ => panic!("expected the manifest to be asked for twice"),
    }
}

#[test]
fn stderr_lines_are_marked() {
    assert_eq!(error_line("boom"), "ERROR: boom");
    assert_eq!(error_line(""), "ERROR: ");
}
