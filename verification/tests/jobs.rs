use grm::jobs::{log_tone, plan_job, succeeded_stages, update_stages, JobBoard, LogTone, StageUpdate, MAX_LOG_LINES};
use grm::registry::TaskRegistry;
use grm::types::{
    ActiveJob, EngineRequirement, ExecutionProfile, IODefinitions, JobStage, JobStatus, PipelineTask,
    RegisteredTask, TaskDependencies, TaskManifest, TaskMetadata, PROGRESS_COMPLETE,
};

fn manifest(id: &str, name: &str) -> TaskManifest {
    TaskManifest {
        id: id.to_string(),
        entrypoint: "main.nu".to_string(),
        metadata: TaskMetadata {
            name: name.to_string(),
            description: String::new(),
            author: None,
            manifest_version: "1.0".to_string(),
        },
        execution: ExecutionProfile {
            target_platforms: vec![],
            min_nu_version: "0.1".to_string(),
            engine_requirement: EngineRequirement::SystemRequired,
        },
        dependencies: TaskDependencies { system_packages: vec![] },
        io: IODefinitions { expected_env_vars: vec![], timeout_seconds: 1 },
    }
}

fn registry() -> TaskRegistry {
    let mut r = TaskRegistry::new();
    r.insert(RegisteredTask { manifest: manifest("core.extract", "Standard Extractor"), directory: "/t".to_string() });
    r.insert(RegisteredTask { manifest: manifest("core.patch", "Patcher"), directory: "/p".to_string() });
    r
}

fn script(name: &str, status: JobStatus) -> JobStage {
    JobStage::Script { task_name: name.to_string(), logs: vec![], status }
}

fn status_at(stages: &[JobStage], i: usize) -> JobStatus {
    *stages[i].status()
}

fn logs_at(stages: &[JobStage], i: usize) -> Vec<String> {
    match &stages[i] {
        JobStage::Script { logs, .. } => logs.clone(),
        JobStage::Download { .. } => vec![],
    }
}

#[test]
fn plan_lists_registered_steps_only() {
    let pipeline = vec![
        PipelineTask { task_id: "core.extract".to_string() },
        PipelineTask { task_id: "ghost".to_string() },
        PipelineTask { task_id: "core.patch".to_string() },
    ];
    let job = plan_job("a/b", "v1", "b-v1.zip", &pipeline, &registry());
    assert_eq!(job.repo_name, "a/b");
    assert_eq!(job.target_version, "v1");
    assert_eq!(job.stages.len(), 3);
    match &job.stages[0] {
        JobStage::Download { file_name, progress, status } => {
            assert_eq!(file_name, "b-v1.zip");
            assert_eq!(*progress, 0);
            assert_eq!(*status, JobStatus::Pending);
        }
        _ => panic!("first stage must be the download"),
    }
    match (&job.stages[1], &job.stages[2]) {
        (JobStage::Script { task_name: a, .. }, JobStage::Script { task_name: b, .. }) => {
            assert_eq!(a, "Standard Extractor");
            assert_eq!(b, "Patcher");
        }
        _ => panic!("script stages expected"),
    }
}

#[test]
fn download_reports_move_first_stage() {
    let mut stages = plan_job("r", "v", "f", &vec![], &registry()).stages;
    update_stages(&mut stages, StageUpdate::DownloadStarted);
    assert_eq!(status_at(&stages, 0), JobStatus::Running);
    update_stages(&mut stages, StageUpdate::DownloadProgress(4200));
    match &stages[0] {
        JobStage::Download { progress, status, .. } => {
            assert_eq!(*progress, 4200);
            assert_eq!(*status, JobStatus::Running);
        }
        _ => unreachable!(),
    }
    update_stages(&mut stages, StageUpdate::DownloadComplete);
    match &stages[0] {
        JobStage::Download { progress, status, .. } => {
            assert_eq!(*progress, PROGRESS_COMPLETE);
            assert_eq!(*status, JobStatus::Success);
        }
        _ => unreachable!(),
    }
}

#[test]
fn download_reports_ignore_script_only_jobs() {
    let mut stages = vec![script("A", JobStatus::Pending)];
    update_stages(&mut stages, StageUpdate::DownloadComplete);
    assert_eq!(status_at(&stages, 0), JobStatus::Pending);
    let mut empty: Vec<JobStage> = vec![];
    update_stages(&mut empty, StageUpdate::DownloadStarted);
    assert!(empty.is_empty());
}

#[test]
fn task_lifecycle_on_first_matching_stage() {
    let mut stages = vec![
        JobStage::Download { file_name: "f".to_string(), progress: PROGRESS_COMPLETE, status: JobStatus::Success },
        script("A", JobStatus::Pending),
        script("A", JobStatus::Pending),
    ];
    update_stages(&mut stages, StageUpdate::TaskStarted("A".to_string()));
    assert_eq!(status_at(&stages, 1), JobStatus::Running);
    assert_eq!(status_at(&stages, 2), JobStatus::Pending);
    assert_eq!(logs_at(&stages, 1), vec!["--- Starting Task: A ---".to_string()]);
    update_stages(&mut stages, StageUpdate::TaskLog("hello".to_string()));
    assert_eq!(logs_at(&stages, 1).last().unwrap(), "hello");
    update_stages(&mut stages, StageUpdate::TaskComplete(false));
    assert_eq!(status_at(&stages, 1), JobStatus::Failed);
    assert_eq!(logs_at(&stages, 1).last().unwrap(), "--- FAILED ---");
    update_stages(&mut stages, StageUpdate::TaskStarted("A".to_string()));
    assert_eq!(status_at(&stages, 2), JobStatus::Running);
    update_stages(&mut stages, StageUpdate::TaskComplete(true));
    assert_eq!(status_at(&stages, 2), JobStatus::Success);
    assert_eq!(logs_at(&stages, 2).last().unwrap(), "--- Success ---");
    assert_eq!(stages.len(), 3);
}

#[test]
fn unknown_task_changes_nothing() {
    let mut stages = vec![script("A", JobStatus::Pending)];
    update_stages(&mut stages, StageUpdate::TaskStarted("B".to_string()));
    update_stages(&mut stages, StageUpdate::TaskLog("x".to_string()));
    update_stages(&mut stages, StageUpdate::TaskComplete(true));
    assert_eq!(status_at(&stages, 0), JobStatus::Pending);
    assert!(logs_at(&stages, 0).is_empty());
}

#[test]
fn streamed_log_is_capped() {
    let mut stages = vec![script("A", JobStatus::Running)];
    for i in 0..(MAX_LOG_LINES + 20) {
        update_stages(&mut stages, StageUpdate::TaskLog(format!("line {i}")));
    }
    let logs = logs_at(&stages, 0);
    assert_eq!(logs.len(), MAX_LOG_LINES);
    assert_eq!(logs[0], "line 20");
    assert_eq!(logs.last().unwrap(), &format!("line {}", MAX_LOG_LINES + 19));
}

#[test]
fn status_never_goes_back_without_late_start() {
    let mut stages = vec![
        JobStage::Download { file_name: "f".to_string(), progress: 0, status: JobStatus::Pending },
        script("A", JobStatus::Pending),
    ];
    let rank = |s: JobStatus| match s {
        JobStatus::Pending => 0,
        JobStatus::Running => 1,
        _ => 2,
    };
    let updates = vec![
        StageUpdate::DownloadProgress(10),
        StageUpdate::DownloadComplete,
        StageUpdate::TaskStarted("A".to_string()),
        StageUpdate::TaskLog("x".to_string()),
        StageUpdate::TaskComplete(true),
        StageUpdate::DownloadProgress(5),
    ];
    for u in updates {
        let before: Vec<JobStatus> = stages.iter().map(|s| *s.status()).collect();
        update_stages(&mut stages, u);
        for (i, b) in before.iter().enumerate() {
            assert!(rank(*stages[i].status()) >= rank(*b));
        }
    }
}

#[test]
fn board_keeps_one_card_per_project() {
    let mut board = JobBoard::new();
    assert!(board.is_empty());
    board.insert(ActiveJob { repo_name: "a/b".to_string(), target_version: "v1".to_string(), stages: vec![] });
    board.insert(ActiveJob { repo_name: "c/d".to_string(), target_version: "v2".to_string(), stages: vec![] });
    board.insert(ActiveJob { repo_name: "a/b".to_string(), target_version: "v3".to_string(), stages: vec![] });
    assert_eq!(board.len(), 2);
    assert_eq!(board.get("a/b").unwrap().target_version, "v3");
    assert_eq!(board.entries()[0].repo_name, "a/b");
    assert!(board.get("x").is_none());
}

#[test]
fn board_update_reaches_only_its_card() {
    let mut board = JobBoard::new();
    board.insert(plan_job("a/b", "v1", "f1", &vec![], &registry()));
    board.insert(plan_job("c/d", "v2", "f2", &vec![], &registry()));
    board.update("a/b", StageUpdate::DownloadStarted);
    board.update("nobody", StageUpdate::DownloadComplete);
    assert_eq!(*board.get("a/b").unwrap().stages[0].status(), JobStatus::Running);
    assert_eq!(*board.get("c/d").unwrap().stages[0].status(), JobStatus::Pending);
}

#[test]
fn succeeded_stages_counts_successes() {
    let stages = vec![
        JobStage::Download { file_name: "f".to_string(), progress: PROGRESS_COMPLETE, status: JobStatus::Success },
        script("A", JobStatus::Success),
        script("B", JobStatus::Failed),
        script("C", JobStatus::Running),
    ];
    assert_eq!(succeeded_stages(&stages), 2);
    assert_eq!(succeeded_stages(&vec![]), 0);
}

#[test]
fn log_tones() {
    assert_eq!(log_tone("ERROR: boom"), LogTone::Error);
    assert_eq!(log_tone("--- FAILED ---"), LogTone::Error);
    assert_eq!(log_tone("--- Success ---"), LogTone::Success);
    assert_eq!(log_tone("ERROR: but Success"), LogTone::Error);
    assert_eq!(log_tone("progress 50%"), LogTone::Plain);
    assert_eq!(log_tone("error: lower case"), LogTone::Plain);
}
