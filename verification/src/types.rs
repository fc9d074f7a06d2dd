//! The data the release manager works with: releases and their assets as GitHub
//! describes them, the tracked projects, the task manifests, and the job cards
//! that follow a download and its post-download tasks.
use vstd::prelude::*;

verus! {

/// Download progress is kept in ten-thousandths: `PROGRESS_COMPLETE` is a
/// finished download.
pub const PROGRESS_COMPLETE: u32 = 10_000;

/// The three tabs of the main window.
#[derive(Debug, PartialEq, Eq, Structural, Clone, Copy)]
pub enum AppTab {
    Home,
    Tasks,
    Settings,
}

impl Default for AppTab {
    fn default() -> (t: AppTab)
        ensures
            t == AppTab::Home,
    {
        AppTab::Home
    }
}

/// A file attached to a release.
#[derive(Debug, PartialEq)]
pub struct Asset {
    pub name: String,
    pub download_url: String,
    /// Size in bytes.
    pub size: u64,
}

impl Clone for Asset {
    fn clone(&self) -> (r: Asset)
        ensures
            r == *self,
    {
        Asset { name: self.name.clone(), download_url: self.download_url.clone(), size: self.size }
    }
}

/// A release as the GitHub release API describes it.
#[derive(Debug, PartialEq)]
pub struct ReleaseMetadata {
    pub tag_name: String,
    pub target_commitish: String,
    pub name: Option<String>,
    pub draft: bool,
    pub immutable: bool,
    pub prerelease: bool,
    pub created_at: String,
    pub updated_at: String,
    pub published_at: String,
}

impl Clone for ReleaseMetadata {
    fn clone(&self) -> (r: ReleaseMetadata)
        ensures
            r == *self,
    {
        let name = match &self.name {
            Some(n) => Some(n.clone()),
            None => None,
        };
        ReleaseMetadata {
            tag_name: self.tag_name.clone(),
            target_commitish: self.target_commitish.clone(),
            name,
            draft: self.draft,
            immutable: self.immutable,
            prerelease: self.prerelease,
            created_at: self.created_at.clone(),
            updated_at: self.updated_at.clone(),
            published_at: self.published_at.clone(),
        }
    }
}

/// One step of a project's post-download pipeline, naming a registered task.
#[derive(Debug, PartialEq)]
pub struct PipelineTask {
    pub task_id: String,
}

impl Clone for PipelineTask {
    fn clone(&self) -> (r: PipelineTask)
        ensures
            r == *self,
    {
        PipelineTask { task_id: self.task_id.clone() }
    }
}

/// A tracked GitHub project as the home page shows it.
#[derive(Debug)]
pub struct Project {
    pub repo_name: String,
    pub version: String,
    pub owner: String,
    pub last_updated: String,
    pub readme: String,
    pub is_expanded: bool,
    pub release_info: Option<ReleaseMetadata>,
    pub allow_prerelease: bool,
    pub asset_regex: Option<String>,
    pub current_asset_name: Option<String>,
    pub pipeline: Vec<PipelineTask>,
}

/// A download that waits in the pipeline editor until the user saves:
/// the asset's URL, its file name, its size and the release it belongs to.
pub type PendingDownload = (String, String, u64, ReleaseMetadata);

/// What the home page is showing.
#[derive(Debug, PartialEq)]
pub enum HomeState {
    Overview,
    Fetching { repo_name: String },
    FetchingLatest { repo_name: String, allow_prerelease: bool },
    Selection { repo_name: String, available_releases: Vec<ReleaseMetadata> },
    PromptAssetReuse { repo_name: String, release: ReleaseMetadata },
    FetchingAssets { repo_name: String, release: ReleaseMetadata, auto_update: bool },
    AssetSelection { repo_name: String, release: ReleaseMetadata, assets: Vec<Asset> },
    ConfirmDownload {
        repo_name: String,
        release: ReleaseMetadata,
        asset: Asset,
        regex_string: String,
    },
    ProjectConfig { repo_name: String },
    PipelineEditor { repo_name: String, pending_download: Option<PendingDownload> },
    Error { message: String },
}

impl Default for HomeState {
    fn default() -> (h: HomeState)
        ensures
            h is Overview,
    {
        HomeState::Overview
    }
}

/// What the background work reports back to the window.
#[derive(Debug)]
pub enum AsyncMessage {
    FetchComplete { repo_name: String, releases: Vec<ReleaseMetadata> },
    FetchAssetsComplete {
        repo_name: String,
        release: ReleaseMetadata,
        assets: Vec<Asset>,
        auto_update: bool,
    },
    FetchError(String),
    DownloadStarted { repo_name: String, file_name: String },
    /// `progress` is in ten-thousandths (see `PROGRESS_COMPLETE`).
    DownloadProgress { repo_name: String, file_name: String, progress: u32 },
    DownloadComplete { file_name: String, repo_name: String, release: ReleaseMetadata },
    DownloadError { file_name: String, error: String },
    PipelineTaskStarted { repo_name: String, task_name: String },
    PipelineTaskLog { repo_name: String, log_line: String },
    PipelineTaskComplete { repo_name: String, success: bool },
    PipelineSequenceComplete { repo_name: String },
}

/// The `task.toml` of an installed task.
#[derive(Debug, Clone, PartialEq)]
pub struct TaskManifest {
    pub id: String,
    pub entrypoint: String,
    pub metadata: TaskMetadata,
    pub execution: ExecutionProfile,
    pub dependencies: TaskDependencies,
    pub io: IODefinitions,
}

#[derive(Debug, Clone, PartialEq)]
pub struct TaskMetadata {
    pub name: String,
    pub description: String,
    pub author: Option<String>,
    pub manifest_version: String,
}

#[derive(Debug, PartialEq, Eq, Structural, Clone, Copy)]
pub enum EngineRequirement {
    InternalPreferred,
    SystemRequired,
}

#[derive(Debug, Clone, PartialEq)]
pub struct ExecutionProfile {
    pub target_platforms: Vec<String>,
    pub min_nu_version: String,
    pub engine_requirement: EngineRequirement,
}

#[derive(Debug, Clone, PartialEq)]
pub struct TaskDependencies {
    pub system_packages: Vec<String>,
}

#[derive(Debug, Clone, PartialEq)]
pub struct IODefinitions {
    pub expected_env_vars: Vec<String>,
    pub timeout_seconds: u64,
}

/// Where a stage of a job stands.
#[derive(Debug, PartialEq, Eq, Structural, Clone, Copy)]
pub enum JobStatus {
    Pending,
    Running,
    Success,
    Failed,
}

/// One stage of a job card: the download, or one post-download script.
#[derive(Debug, Clone)]
pub enum JobStage {
    /// `progress` is in ten-thousandths (see `PROGRESS_COMPLETE`).
    Download { file_name: String, progress: u32, status: JobStatus },
    Script { task_name: String, logs: Vec<String>, status: JobStatus },
}

impl JobStage {
    pub open spec fn status_of(&self) -> JobStatus {
        match self {
            JobStage::Download { status, .. } => *status,
            JobStage::Script { status, .. } => *status,
        }
    }

    /// The status of the stage, whatever its kind.
    pub fn status(&self) -> (r: &JobStatus)
        ensures
            *r == self.status_of(),
    {
        match self {
            JobStage::Download { status, .. } => status,
            JobStage::Script { status, .. } => status,
        }
    }
}

/// The job card of one project: a download followed by its scripts.
#[derive(Debug)]
pub struct ActiveJob {
    pub repo_name: String,
    pub target_version: String,
    pub stages: Vec<JobStage>,
}

/// An installed task: its manifest and the directory that holds it.
#[derive(Debug, Clone)]
pub struct RegisteredTask {
    pub manifest: TaskManifest,
    pub directory: String,
}

} // verus!
