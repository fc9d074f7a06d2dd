use grm::registry::TaskRegistry;
use grm::session::{AppState, AutoDownload, Effect, UserAction};
use grm::types::{
    AppTab, Asset, AsyncMessage, EngineRequirement, ExecutionProfile, HomeState, IODefinitions,
    JobStage, JobStatus, PipelineTask, Project, RegisteredTask, ReleaseMetadata, TaskDependencies,
    TaskManifest, TaskMetadata, PROGRESS_COMPLETE,
};

fn release(tag: &str, draft: bool, prerelease: bool) -> ReleaseMetadata {
    ReleaseMetadata {
        tag_name: tag.to_string(),
        target_commitish: "main".to_string(),
        name: None,
        draft,
        immutable: false,
        prerelease,
        created_at: String::new(),
        updated_at: String::new(),
        published_at: String::new(),
    }
}

fn asset(name: &str, size: u64) -> Asset {
    Asset { name: name.to_string(), download_url: format!("https://dl/{name}"), size }
}

fn project(repo: &str, pattern: Option<&str>, pipeline: &[&str]) -> Project {
    Project {
        repo_name: repo.to_string(),
        version: "v0".to_string(),
        owner: "o".to_string(),
        last_updated: "Updated: 2024-01-01".to_string(),
        readme: "readme".to_string(),
        is_expanded: false,
        release_info: None,
        allow_prerelease: false,
        asset_regex: pattern.map(|p| p.to_string()),
        current_asset_name: None,
        pipeline: pipeline.iter().map(|t| PipelineTask { task_id: t.to_string() }).collect(),
    }
}

fn registry() -> TaskRegistry {
    let mut r = TaskRegistry::new();
    r.insert(RegisteredTask {
        manifest: TaskManifest {
            id: "core.extract".to_string(),
            entrypoint: "main.nu".to_string(),
            metadata: TaskMetadata {
                name: "Standard Extractor".to_string(),
                description: String::new(),
                author: None,
                manifest_version: "1.0".to_string(),
            },
            execution: ExecutionProfile {
                target_platforms: vec![],
                min_nu_version: "0.1".to_string(),
                engine_requirement: EngineRequirement::InternalPreferred,
            },
            dependencies: TaskDependencies { system_packages: vec![] },
            io: IODefinitions { expected_env_vars: vec![], timeout_seconds: 60 },
        },
        directory: "/tasks/core".to_string(),
    });
    r
}

fn state(projects: Vec<Project>) -> AppState {
    AppState::new(projects, registry())
}

fn handle(s: &mut AppState, msg: AsyncMessage) -> Vec<Effect> {
    let mut auto = None;
    let effects = s.handle_message(msg, &mut auto);
    assert!(auto.is_none());
    effects
}

#[test]
fn new_state_shows_overview() {
    let s = state(vec![project("a/b", None, &[])]);
    assert_eq!(s.active_tab, AppTab::Home);
    assert!(s.home_state.is_overview());
    assert!(s.jobs.is_empty());
    assert_eq!(s.projects.len(), 1);
}

#[test]
fn update_button_fetches_latest() {
    let mut s = state(vec![project("a/b", None, &[])]);
    let effects = s.apply_action(UserAction::UpdateProject(0));
    assert!(matches!(&s.home_state, HomeState::FetchingLatest { repo_name, allow_prerelease: false } if repo_name == "a/b"));
    assert!(matches!(&effects[..], [Effect::FetchReleases { repo_name }] if repo_name == "a/b"));
    assert!(s.apply_action(UserAction::UpdateProject(5)).is_empty());
}

#[test]
fn latest_fetch_picks_first_stable_release() {
    let mut s = state(vec![project("a/b", None, &[])]);
    s.apply_action(UserAction::UpdateProject(0));
    let effects = handle(&mut s, AsyncMessage::FetchComplete {
        repo_name: "a/b".to_string(),
        releases: vec![release("v3-rc", false, true), release("v2", false, false), release("v1", false, false)],
    });
    match &s.home_state {
        HomeState::FetchingAssets { repo_name, release, auto_update } => {
            assert_eq!(repo_name, "a/b");
            assert_eq!(release.tag_name, "v2");
            assert!(*auto_update);
        }
        other => panic!("unexpected state {other:?}"),
    }
    assert!(matches!(&effects[..], [Effect::FetchAssets { release, auto_update: true, .. }] if release.tag_name == "v2"));
}

#[test]
fn latest_fetch_without_candidate_is_an_error() {
    let mut s = state(vec![project("a/b", None, &[])]);
    s.apply_action(UserAction::UpdateProject(0));
    let effects = handle(&mut s, AsyncMessage::FetchComplete {
        repo_name: "a/b".to_string(),
        releases: vec![release("d", true, false)],
    });
    assert!(effects.is_empty());
    assert!(matches!(&s.home_state, HomeState::Error { message } if message == "No suitable releases found on GitHub."));
}

#[test]
fn plain_fetch_shows_version_list() {
    let mut s = state(vec![]);
    handle(&mut s, AsyncMessage::FetchComplete { repo_name: "x/y".to_string(), releases: vec![release("v1", false, false)] });
    assert!(matches!(&s.home_state, HomeState::Selection { available_releases, .. } if available_releases.len() == 1));
    s.apply_action(UserAction::ChooseRelease(0));
    assert!(matches!(&s.home_state, HomeState::PromptAssetReuse { release, .. } if release.tag_name == "v1"));
    let effects = s.apply_action(UserAction::ReuseAssetPattern(false));
    assert!(matches!(&s.home_state, HomeState::FetchingAssets { auto_update: false, .. }));
    assert_eq!(effects.len(), 1);
}

#[test]
fn fetch_error_shows_message() {
    let mut s = state(vec![]);
    handle(&mut s, AsyncMessage::FetchError("Network error: down".to_string()));
    assert!(matches!(&s.home_state, HomeState::Error { message } if message == "Network error: down"));
    s.apply_action(UserAction::BackToOverview);
    assert!(s.home_state.is_overview());
}

#[test]
fn auto_update_picks_asset_by_pattern() {
    let mut s = state(vec![project("a/b", Some("^tool-(.*?)-linux\\.zip$"), &[])]);
    let mut auto = None;
    let effects = s.handle_message(
        AsyncMessage::FetchAssetsComplete {
            repo_name: "a/b".to_string(),
            release: release("v2", false, false),
            assets: vec![asset("tool-v2-mac.zip", 5), asset("tool-v2-linux.zip", 7)],
            auto_update: true,
        },
        &mut auto,
    );
    assert!(effects.is_empty());
    let picked = auto.expect("the pattern matches an asset");
    assert_eq!(picked.file_name, "tool-v2-linux.zip");
    assert_eq!(picked.url, "https://dl/tool-v2-linux.zip");
    assert_eq!(picked.size, 7);
    assert!(s.home_state.is_overview());
    let effects = s.start_auto_download(picked);
    assert_eq!(s.active_tab, AppTab::Tasks);
    assert!(matches!(&effects[..], [Effect::Download { file_name, .. }] if file_name == "tool-v2-linux.zip"));
    assert_eq!(s.jobs.get("a/b").unwrap().target_version, "v2");
}

#[test]
fn auto_update_without_match_lists_assets() {
    let mut s = state(vec![project("a/b", Some("windows"), &[])]);
    let mut auto = None;
    s.handle_message(
        AsyncMessage::FetchAssetsComplete {
            repo_name: "a/b".to_string(),
            release: release("v2", false, false),
            assets: vec![asset("tool-linux.zip", 1)],
            auto_update: true,
        },
        &mut auto,
    );
    assert!(auto.is_none());
    assert!(matches!(&s.home_state, HomeState::AssetSelection { assets, .. } if assets.len() == 1));
}

#[test]
fn invalid_pattern_lists_assets() {
    let mut s = state(vec![project("a/b", Some("(broken"), &[])]);
    let mut auto = None;
    s.handle_message(
        AsyncMessage::FetchAssetsComplete {
            repo_name: "a/b".to_string(),
            release: release("v2", false, false),
            assets: vec![asset("(broken", 1)],
            auto_update: true,
        },
        &mut auto,
    );
    assert!(auto.is_none());
    assert!(matches!(&s.home_state, HomeState::AssetSelection { .. }));
}

#[test]
fn manual_choice_then_confirm_downloads() {
    let mut s = state(vec![project("a/b", None, &["core.extract", "ghost"])]);
    handle(&mut s, AsyncMessage::FetchAssetsComplete {
        repo_name: "a/b".to_string(),
        release: release("v2.0", false, false),
        assets: vec![asset("tool-v2.0-linux.zip", 100)],
        auto_update: false,
    });
    s.apply_action(UserAction::ChooseAsset(0));
    match &s.home_state {
        HomeState::ConfirmDownload { regex_string, asset, .. } => {
            assert_eq!(regex_string, "^tool-(.*?)-linux.zip$");
            assert_eq!(asset.size, 100);
        }
        other => panic!("unexpected state {other:?}"),
    }
    s.apply_action(UserAction::EditProposedPattern("^tool-.*-linux\\.zip$".to_string()));
    let effects = s.apply_action(UserAction::ConfirmDownload);
    assert!(matches!(&effects[..], [Effect::SaveManifest, Effect::Download { url, size: 100, .. }] if url == "https://dl/tool-v2.0-linux.zip"));
    assert_eq!(s.projects[0].asset_regex.as_deref(), Some("^tool-.*-linux\\.zip$"));
    assert_eq!(s.active_tab, AppTab::Tasks);
    assert!(s.home_state.is_overview());
    let job = s.jobs.get("a/b").unwrap();
    assert_eq!(job.stages.len(), 2);
    assert!(matches!(&job.stages[1], JobStage::Script { task_name, status: JobStatus::Pending, .. } if task_name == "Standard Extractor"));
}

#[test]
fn download_of_untracked_repo_starts_without_card() {
    let mut s = state(vec![]);
    handle(&mut s, AsyncMessage::FetchAssetsComplete {
        repo_name: "new/one".to_string(),
        release: release("v1", false, false),
        assets: vec![asset("one.zip", 3)],
        auto_update: false,
    });
    s.apply_action(UserAction::ChooseAsset(0));
    let effects = s.apply_action(UserAction::ConfirmDownload);
    assert!(matches!(&effects[..], [Effect::Download { .. }]));
    assert!(s.jobs.is_empty());
}

#[test]
fn finished_download_updates_project_and_runs_pipeline() {
    let mut s = state(vec![project("a/b", None, &["core.extract"])]);
    handle(&mut s, AsyncMessage::FetchAssetsComplete {
        repo_name: "a/b".to_string(),
        release: release("v2", false, false),
        assets: vec![asset("a.zip", 10)],
        auto_update: false,
    });
    s.apply_action(UserAction::ChooseAsset(0));
    s.apply_action(UserAction::ConfirmDownload);
    handle(&mut s, AsyncMessage::DownloadStarted { repo_name: "a/b".to_string(), file_name: "a.zip".to_string() });
    let effects = handle(&mut s, AsyncMessage::DownloadProgress { repo_name: "a/b".to_string(), file_name: "a.zip".to_string(), progress: 5000 });
    assert!(matches!(&effects[..], [Effect::Repaint]));
    let effects = handle(&mut s, AsyncMessage::DownloadComplete {
        file_name: "a.zip".to_string(),
        repo_name: "a/b".to_string(),
        release: release("v2", false, false),
    });
    assert!(matches!(&effects[..], [Effect::SaveManifest, Effect::RunPipeline { pipeline, file_name, .. }] if pipeline.len() == 1 && file_name == "a.zip"));
    assert_eq!(s.projects[0].version, "v2");
    assert_eq!(s.projects[0].current_asset_name.as_deref(), Some("a.zip"));
    match &s.jobs.get("a/b").unwrap().stages[0] {
        JobStage::Download { progress, status, .. } => {
            assert_eq!(*progress, PROGRESS_COMPLETE);
            assert_eq!(*status, JobStatus::Success);
        }
        _ => panic!(),
    }
    handle(&mut s, AsyncMessage::PipelineTaskStarted { repo_name: "a/b".to_string(), task_name: "Standard Extractor".to_string() });
    handle(&mut s, AsyncMessage::PipelineTaskLog { repo_name: "a/b".to_string(), log_line: "working".to_string() });
    handle(&mut s, AsyncMessage::PipelineTaskComplete { repo_name: "a/b".to_string(), success: true });
    assert_eq!(*s.jobs.get("a/b").unwrap().stages[1].status(), JobStatus::Success);
    let effects = handle(&mut s, AsyncMessage::PipelineSequenceComplete { repo_name: "a/b".to_string() });
    assert!(effects.is_empty());
}

#[test]
fn finished_download_of_new_repo_tracks_it() {
    let mut s = state(vec![]);
    let effects = handle(&mut s, AsyncMessage::DownloadComplete {
        file_name: "z.tar".to_string(),
        repo_name: "zig/zig".to_string(),
        release: release("0.13", false, false),
    });
    assert!(matches!(&effects[..], [Effect::SaveManifest]));
    assert_eq!(s.projects.len(), 1);
    let p = &s.projects[0];
    assert_eq!(p.repo_name, "zig/zig");
    assert_eq!(p.owner, "zig");
    assert_eq!(p.version, "0.13");
    assert_eq!(p.last_updated, "Just now");
    assert_eq!(p.readme, "# zig/zig\n\nDownloaded version: 0.13");
    assert_eq!(p.current_asset_name.as_deref(), Some("z.tar"));
    assert!(p.pipeline.is_empty());
    assert_eq!(s.active_tab, AppTab::Home);
}

#[test]
fn download_error_is_reported() {
    let mut s = state(vec![]);
    let effects = handle(&mut s, AsyncMessage::DownloadError { file_name: "f".to_string(), error: "404".to_string() });
    assert!(matches!(&effects[..], [Effect::ReportDownloadError { file_name, error }] if file_name == "f" && error == "404"));
}

#[test]
fn pipeline_editor_edits_and_saves() {
    let mut s = state(vec![project("a/b", None, &["core.extract"])]);
    s.apply_action(UserAction::OpenPipelineEditor(0));
    assert!(s.home_state.is_pipeline_editor());
    s.apply_action(UserAction::AddPipelineStep("core.extract".to_string()));
    assert_eq!(s.projects[0].pipeline.len(), 2);
    s.apply_action(UserAction::RemovePipelineStep(0));
    assert_eq!(s.projects[0].pipeline.len(), 1);
    s.apply_action(UserAction::RemovePipelineStep(7));
    assert_eq!(s.projects[0].pipeline.len(), 1);
    let effects = s.apply_action(UserAction::SavePipeline);
    assert!(matches!(&effects[..], [Effect::SaveManifest]));
    assert!(s.home_state.is_overview());
}

#[test]
fn pipeline_cancel_reloads() {
    let mut s = state(vec![project("a/b", None, &[])]);
    s.apply_action(UserAction::OpenPipelineEditor(0));
    let effects = s.apply_action(UserAction::CancelPipelineEdit);
    assert!(matches!(&effects[..], [Effect::ReloadManifest]));
    assert!(s.home_state.is_overview());
}

#[test]
fn edit_tasks_first_then_save_downloads() {
    let mut s = state(vec![project("a/b", None, &[])]);
    handle(&mut s, AsyncMessage::FetchAssetsComplete {
        repo_name: "a/b".to_string(),
        release: release("v1", false, false),
        assets: vec![asset("b-v1.bin", 9)],
        auto_update: false,
    });
    s.apply_action(UserAction::ChooseAsset(0));
    s.apply_action(UserAction::EditTasksFirst);
    assert_eq!(s.projects[0].asset_regex.as_deref(), Some("^b-(.*?).bin$"));
    assert!(matches!(&s.home_state, HomeState::PipelineEditor { pending_download: Some((_, name, 9, _)), .. } if name == "b-v1.bin"));
    s.apply_action(UserAction::AddPipelineStep("core.extract".to_string()));
    let effects = s.apply_action(UserAction::SavePipeline);
    assert!(matches!(&effects[..], [Effect::SaveManifest, Effect::Download { file_name, .. }] if file_name == "b-v1.bin"));
    assert_eq!(s.jobs.get("a/b").unwrap().stages.len(), 2);
    assert_eq!(s.active_tab, AppTab::Tasks);
}

#[test]
fn project_settings() {
    let mut p = project("a/b", None, &[]);
    p.release_info = Some(release("v5", false, false));
    let mut s = state(vec![p, project("c/d", None, &[])]);
    s.apply_action(UserAction::OpenProjectConfig(0));
    assert!(matches!(&s.home_state, HomeState::ProjectConfig { repo_name } if repo_name == "a/b"));
    let effects = s.apply_action(UserAction::SetAssetPattern("x".to_string()));
    assert!(matches!(&effects[..], [Effect::SaveManifest]));
    assert_eq!(s.projects[0].asset_regex.as_deref(), Some("x"));
    s.apply_action(UserAction::SetAllowPrerelease(true));
    assert!(s.projects[0].allow_prerelease);
    assert!(!s.projects[1].allow_prerelease);
    let effects = s.apply_action(UserAction::ChangeAsset);
    assert!(matches!(&effects[..], [Effect::FetchAssets { release, auto_update: false, .. }] if release.tag_name == "v5"));
    assert!(s.apply_action(UserAction::BackToOverview).is_empty());
    assert!(matches!(&s.home_state, HomeState::FetchingAssets { .. }));
    handle(&mut s, AsyncMessage::FetchError("offline".to_string()));
    s.apply_action(UserAction::BackToOverview);
    assert!(s.home_state.is_overview());
    s.apply_action(UserAction::OpenProjectConfig(1));
    let effects = s.apply_action(UserAction::ChangeAsset);
    assert!(matches!(&effects[..], [Effect::FetchReleases { repo_name }] if repo_name == "c/d"));
    assert!(matches!(&s.home_state, HomeState::Fetching { .. }));
}

#[test]
fn tabs_and_cards() {
    let mut s = state(vec![project("a/b", None, &[])]);
    s.apply_action(UserAction::ToggleExpanded(0));
    assert!(s.projects[0].is_expanded);
    s.apply_action(UserAction::ToggleExpanded(0));
    assert!(!s.projects[0].is_expanded);
    assert!(s.apply_action(UserAction::OpenTab(AppTab::Home)).is_empty());
    assert!(s.apply_action(UserAction::OpenTab(AppTab::Settings)).is_empty());
    let effects = s.apply_action(UserAction::OpenTab(AppTab::Home));
    assert!(matches!(&effects[..], [Effect::ReloadManifest]));
    assert_eq!(s.active_tab, AppTab::Home);
}

#[test]
fn actions_outside_their_page_do_nothing() {
    let mut s = state(vec![project("a/b", None, &[])]);
    assert!(s.apply_action(UserAction::ConfirmDownload).is_empty());
    assert!(s.apply_action(UserAction::ChooseRelease(0)).is_empty());
    assert!(s.apply_action(UserAction::SavePipeline).is_empty());
    assert!(s.apply_action(UserAction::ChangeVersion).is_empty());
    assert!(s.apply_action(UserAction::BackToOverview).is_empty());
    assert!(s.home_state.is_overview());
    let _unused: Option<AutoDownload> = None;
}

fn picked_download() -> AutoDownload {
    AutoDownload {
        url: "https://dl/tool-v2-linux.zip".to_string(),
        file_name: "tool-v2-linux.zip".to_string(),
        size: 7,
        repo_name: "a/b".to_string(),
        release: release("v2", false, false),
    }
}

#[test]
fn frame_on_home_starts_chosen_download() {
    let mut s = state(vec![project("a/b", Some("linux"), &[])]);
    let effects = s.finish_frame(AppTab::Home, Some(picked_download()));
    assert_eq!(s.active_tab, AppTab::Tasks);
    assert!(matches!(&effects[..], [Effect::Download { file_name, size: 7, .. }] if file_name == "tool-v2-linux.zip"));
    assert_eq!(s.jobs.get("a/b").unwrap().target_version, "v2");
}

#[test]
fn frame_on_other_tab_drops_chosen_download() {
    let mut s = state(vec![project("a/b", Some("linux"), &[])]);
    s.active_tab = AppTab::Tasks;
    let effects = s.finish_frame(AppTab::Tasks, Some(picked_download()));
    assert!(effects.is_empty());
    assert!(s.jobs.is_empty());
    assert_eq!(s.active_tab, AppTab::Tasks);
    let effects = s.finish_frame(AppTab::Home, None);
    assert!(effects.is_empty());
    assert!(s.jobs.is_empty());
}

#[test]
fn task_records_compare_and_copy() {
    let a = release("v1", false, false);
    assert_eq!(a.clone(), a);
    assert_ne!(release("v2", false, false), a);
    assert_eq!(PipelineTask { task_id: "x".to_string() }, PipelineTask { task_id: "x".to_string() });
    assert_eq!(HomeState::Overview, HomeState::Overview);
    let r = registry();
    let task = r.entries()[0].clone();
    assert_eq!(task.manifest, r.entries()[0].manifest);
    assert_eq!(task.directory, "/tasks/core");
}
