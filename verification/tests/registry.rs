use grm::registry::{ScannedTask, TaskRegistry};
use grm::types::{
    EngineRequirement, ExecutionProfile, IODefinitions, RegisteredTask, TaskDependencies,
    TaskManifest, TaskMetadata,
};

fn manifest(id: &str, name: &str, entry: &str) -> TaskManifest {
    TaskManifest {
        id: id.to_string(),
        entrypoint: entry.to_string(),
        metadata: TaskMetadata {
            name: name.to_string(),
            description: "test task".to_string(),
            author: None,
            manifest_version: "1.0".to_string(),
        },
        execution: ExecutionProfile {
            target_platforms: vec!["linux".to_string()],
            min_nu_version: "0.100.0".to_string(),
            engine_requirement: EngineRequirement::InternalPreferred,
        },
        dependencies: TaskDependencies { system_packages: vec![] },
        io: IODefinitions { expected_env_vars: vec![], timeout_seconds: 60 },
    }
}

#[test]
fn insert_then_lookup() {
    let mut r = TaskRegistry::new();
    assert!(r.is_empty());
    r.insert(RegisteredTask { manifest: manifest("core.extract", "Extractor", "main.nu"), directory: "/t/a".to_string() });
    r.insert(RegisteredTask { manifest: manifest("bob.patch", "Patcher", "run.nu"), directory: "/t/b".to_string() });
    assert_eq!(r.len(), 2);
    assert_eq!(r.get("core.extract").unwrap().directory, "/t/a");
    assert_eq!(r.get("bob.patch").unwrap().manifest.metadata.name, "Patcher");
    assert!(r.get("missing").is_none());
    assert!(r.contains("bob.patch"));
    assert!(!r.contains("core"));
}

#[test]
fn insert_same_id_replaces() {
    let mut r = TaskRegistry::new();
    r.insert(RegisteredTask { manifest: manifest("x", "First", "a.nu"), directory: "/one".to_string() });
    r.insert(RegisteredTask { manifest: manifest("y", "Other", "b.nu"), directory: "/two".to_string() });
    r.insert(RegisteredTask { manifest: manifest("x", "Second", "c.nu"), directory: "/three".to_string() });
    assert_eq!(r.len(), 2);
    assert_eq!(r.get("x").unwrap().manifest.metadata.name, "Second");
    assert_eq!(r.get("y").unwrap().directory, "/two");
    let ids: Vec<String> = r.entries().iter().map(|t| t.manifest.id.clone()).collect();
    assert_eq!(ids, vec!["x".to_string(), "y".to_string()]);
}

#[test]
fn scan_keeps_runnable_tasks_and_warns_about_others() {
    let found = vec![
        ScannedTask { manifest: manifest("core.extract", "A", "main.nu"), directory: "/t/1".to_string(), entrypoint_exists: true },
        ScannedTask { manifest: manifest("broken", "B", "gone.nu"), directory: "/t/2".to_string(), entrypoint_exists: false },
        ScannedTask { manifest: manifest("core.extract", "C", "main.nu"), directory: "/t/3".to_string(), entrypoint_exists: true },
    ];
    let (r, warnings) = TaskRegistry::from_scan(found);
    assert_eq!(r.len(), 1);
    assert_eq!(r.get("core.extract").unwrap().manifest.metadata.name, "C");
    assert_eq!(r.get("core.extract").unwrap().directory, "/t/3");
    assert!(r.get("broken").is_none());
    assert_eq!(warnings, vec!["Warning: Task 'broken' is missing its entrypoint script 'gone.nu'".to_string()]);
}

#[test]
fn scan_of_nothing_is_empty() {
    let (r, warnings) = TaskRegistry::from_scan(vec![]);
    assert!(r.is_empty());
    assert!(warnings.is_empty());
}
