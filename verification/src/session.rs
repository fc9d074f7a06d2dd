//! The state of the window and the decisions it takes: what each report of the
//! background work and each choice of the user change, and which work is started
//! in reply. Whoever drives the window performs the effects that come back.
use vstd::prelude::*;
use vstd::string::*;
use crate::github::{is_update_candidate, latest_release_index, proposed_asset_pattern, proposed_pattern_text};
use crate::jobs::{board_updated, is_fresh_job, plan_job, planned_scripts, JobBoard, StageUpdate};
use crate::manifest::{clone_pipeline, owner_of, owner_text};
use crate::asset_regex::{regex_accepts, regex_finds};
use crate::pattern::{first_matching_asset, AssetPattern};
use crate::registry::TaskRegistry;
use crate::types::{
    ActiveJob, AppTab, Asset, AsyncMessage, HomeState, PipelineTask, Project, ReleaseMetadata,
};

verus! {

broadcast use vstd::string::group_string_axioms;

/// Work the window starts in reply to a report or a choice.
#[derive(Debug)]
pub enum Effect {
    /// Fetch the release list of `repo_name`.
    FetchReleases { repo_name: String },
    /// Fetch the assets of `release` of `repo_name`.
    FetchAssets { repo_name: String, release: ReleaseMetadata, auto_update: bool },
    /// Download the asset at `url` as `file_name` into the install folder.
    Download {
        url: String,
        file_name: String,
        size: u64,
        repo_name: String,
        release: ReleaseMetadata,
    },
    /// Write the tracked projects to the manifest.
    SaveManifest,
    /// Read the tracked projects back from the manifest.
    ReloadManifest,
    /// Run `pipeline` of `repo_name` on the downloaded `file_name`.
    RunPipeline { repo_name: String, pipeline: Vec<PipelineTask>, file_name: String },
    /// Tell the user that downloading `file_name` failed.
    ReportDownloadError { file_name: String, error: String },
    /// Draw the window again.
    Repaint,
}

/// An asset chosen by its project's pattern, to be downloaded once the reports
/// of the current frame are handled.
#[derive(Debug)]
pub struct AutoDownload {
    pub url: String,
    pub file_name: String,
    pub size: u64,
    pub repo_name: String,
    pub release: ReleaseMetadata,
}

/// The state of the window.
#[derive(Debug)]
pub struct AppState {
    pub active_tab: AppTab,
    pub home_state: HomeState,
    pub projects: Vec<Project>,
    pub jobs: JobBoard,
    pub registry: TaskRegistry,
}

/// `i` is the first project tracking `repo`.
pub open spec fn is_first_project(projects: Seq<Project>, repo: Seq<char>, i: int) -> bool {
    &&& 0 <= i < projects.len()
    &&& projects[i].repo_name@ == repo
    &&& forall|j: int| 0 <= j < i ==> (#[trigger] projects[j]).repo_name@ != repo
}

/// The first project tracking `repo`, if any.
pub open spec fn project_index(projects: Seq<Project>, repo: Seq<char>) -> Option<int> {
    if exists|i: int| is_first_project(projects, repo, i) {
        Some(choose|i: int| is_first_project(projects, repo, i))
    } else {
        None
    }
}

proof fn lemma_first_project_unique(projects: Seq<Project>, repo: Seq<char>, i: int)
    requires
        is_first_project(projects, repo, i),
    ensures
        project_index(projects, repo) == Some(i),
{
    let k = choose|k: int| is_first_project(projects, repo, k);
    if k < i {
        assert(projects[k].repo_name@ != repo);
    } else if i < k {
        assert(projects[i].repo_name@ != repo);
    }
}

/// The position of the first project tracking `repo`.
pub fn find_project(projects: &Vec<Project>, repo: &str) -> (r: Option<usize>)
    ensures
        match r {
            Some(k) => project_index(projects@, repo@) == Some(k as int),
            None => project_index(projects@, repo@) is None && forall|j: int|
                0 <= j < projects@.len() ==> (#[trigger] projects@[j]).repo_name@ != repo@,
        },
{
    let n = projects.len();
    for k in 0..n
        invariant
            n == projects@.len(),
            forall|j: int| 0 <= j < k ==> (#[trigger] projects@[j]).repo_name@ != repo@,
    {
        if projects[k].repo_name == repo.to_string() {
            proof {
                lemma_first_project_unique(projects@, repo@, k as int);
            }
            return Some(k);
        }
    }
    None
}

/// `i` is the first asset whose name `pattern` matches.
pub open spec fn is_first_match(assets: Seq<Asset>, pattern: Seq<char>, i: int) -> bool {
    &&& 0 <= i < assets.len()
    &&& regex_finds(pattern, assets[i].name@)
    &&& forall|j: int| 0 <= j < i ==> !regex_finds(pattern, (#[trigger] assets[j]).name@)
}

/// The first asset whose name `pattern` matches, if any.
pub open spec fn first_match(assets: Seq<Asset>, pattern: Seq<char>) -> Option<int> {
    if exists|i: int| is_first_match(assets, pattern, i) {
        Some(choose|i: int| is_first_match(assets, pattern, i))
    } else {
        None
    }
}

proof fn lemma_first_match_unique(assets: Seq<Asset>, pattern: Seq<char>, i: int)
    requires
        is_first_match(assets, pattern, i),
    ensures
        first_match(assets, pattern) == Some(i),
{
    let k = choose|k: int| is_first_match(assets, pattern, k);
    if k < i {
        assert(!regex_finds(pattern, assets[k].name@));
    } else if i < k {
        assert(!regex_finds(pattern, assets[i].name@));
    }
}

/// The asset an automatic update picks for `repo`: the first one whose name the
/// project's asset pattern matches, when the first project tracking `repo` has a
/// pattern and the pattern is a valid regular expression.
pub open spec fn auto_pick(projects: Seq<Project>, repo: Seq<char>, assets: Seq<Asset>) -> Option<int> {
    match project_index(projects, repo) {
        Some(k) => match projects[k].asset_regex {
            Some(p) => if regex_accepts(p@) {
                first_match(assets, p@)
            } else {
                None
            },
            None => None,
        },
        None => None,
    }
}

/// `p` is project `old` after `file_name` of `release` was downloaded for it.
pub open spec fn project_downloaded(p: Project, old: Project, release: ReleaseMetadata, file_name: String) -> bool {
    p == Project {
        version: release.tag_name,
        release_info: Some(release),
        current_asset_name: Some(file_name),
        ..old
    }
}

/// The readme of a project first downloaded in this session.
pub open spec fn downloaded_readme_text(repo: Seq<char>, tag: Seq<char>) -> Seq<char> {
    "# "@ + repo + "\n\nDownloaded version: "@ + tag
}

/// `p` is the project that starts being tracked when `file_name` of `release` of
/// `repo` is downloaded.
pub open spec fn project_started(p: Project, repo: String, release: ReleaseMetadata, file_name: String) -> bool {
    &&& p.repo_name == repo
    &&& p.version == release.tag_name
    &&& p.owner@ == owner_text(repo@)
    &&& p.last_updated@ == "Just now"@
    &&& p.readme@ == downloaded_readme_text(repo@, release.tag_name@)
    &&& !p.is_expanded
    &&& p.release_info == Some(release)
    &&& !p.allow_prerelease
    &&& p.asset_regex is None
    &&& p.current_asset_name == Some(file_name)
    &&& p.pipeline@.len() == 0
}

/// The projects after `file_name` of `release` of `repo` was downloaded: the first
/// project tracking `repo` is brought up to date, or a new one is added.
pub open spec fn projects_after_download(new: Seq<Project>, old: Seq<Project>, repo: String, release: ReleaseMetadata, file_name: String) -> bool {
    match project_index(old, repo@) {
        Some(k) => new.len() == old.len() && (forall|j: int|
            0 <= j < old.len() && j != k ==> #[trigger] new[j] == old[j]) && project_downloaded(
            new[k],
            old[k],
            release,
            file_name,
        ),
        None => new.len() == old.len() + 1 && new.take(old.len() as int) == old && project_started(
            new[old.len() as int],
            repo,
            release,
            file_name,
        ),
    }
}

/// The effects of a finished download: the manifest is saved, then the pipeline
/// of the downloaded project runs when it has steps.
pub open spec fn download_effects(effects: Seq<Effect>, projects: Seq<Project>, repo: String, file_name: String) -> bool {
    let k = project_index(projects, repo@).unwrap();
    if projects[k].pipeline@.len() > 0 {
        &&& effects.len() == 2
        &&& effects[0] is SaveManifest
        &&& effects[1] matches Effect::RunPipeline { repo_name, pipeline, file_name: f }
            && repo_name == repo && pipeline@ == projects[k].pipeline@ && f == file_name
    } else {
        effects == seq![Effect::SaveManifest]
    }
}

/// What a report does to the state, when it leaves the home page, the tab and the
/// projects alone.
pub open spec fn only_jobs_changed(new: AppState, old: AppState) -> bool {
    &&& new.active_tab == old.active_tab
    &&& new.home_state == old.home_state
    &&& new.projects == old.projects
    &&& new.registry == old.registry
}

/// The stage update a report makes, if it is one that moves a job card along.
pub open spec fn stage_update_of(msg: AsyncMessage) -> Option<(String, StageUpdate)> {
    match msg {
        AsyncMessage::DownloadStarted { repo_name, .. } => Some(
            (repo_name, StageUpdate::DownloadStarted),
        ),
        AsyncMessage::DownloadProgress { repo_name, progress, .. } => Some(
            (repo_name, StageUpdate::DownloadProgress(progress)),
        ),
        AsyncMessage::DownloadComplete { repo_name, .. } => Some(
            (repo_name, StageUpdate::DownloadComplete),
        ),
        AsyncMessage::PipelineTaskStarted { repo_name, task_name } => Some(
            (repo_name, StageUpdate::TaskStarted(task_name)),
        ),
        AsyncMessage::PipelineTaskLog { repo_name, log_line } => Some(
            (repo_name, StageUpdate::TaskLog(log_line)),
        ),
        AsyncMessage::PipelineTaskComplete { repo_name, success } => Some(
            (repo_name, StageUpdate::TaskComplete(success)),
        ),
        _ => None,
    }
}

/// What handling the report `msg` does: the new state, the effects started, and
/// the automatic download it leaves for the end of the frame.
pub open spec fn message_handled(
    new: AppState,
    old: AppState,
    msg: AsyncMessage,
    effects: Seq<Effect>,
    auto_new: Option<AutoDownload>,
    auto_old: Option<AutoDownload>,
) -> bool {
    match msg {
        AsyncMessage::FetchComplete { repo_name, releases } => {
            &&& new.active_tab == old.active_tab
            &&& new.projects == old.projects
            &&& new.jobs == old.jobs
            &&& new.registry == old.registry
            &&& auto_new == auto_old
            &&& match old.home_state {
                HomeState::FetchingLatest { allow_prerelease, .. } => {
                    if exists|i: int|
                        0 <= i < releases@.len() && is_update_candidate(
                            #[trigger] releases@[i],
                            allow_prerelease,
                        ) {
                        exists|i: int|
                            0 <= i < releases@.len() && is_update_candidate(
                                #[trigger] releases@[i],
                                allow_prerelease,
                            ) && (forall|j: int|
                                0 <= j < i ==> !is_update_candidate(
                                    #[trigger] releases@[j],
                                    allow_prerelease,
                                )) && new.home_state == (HomeState::FetchingAssets {
                                repo_name,
                                release: releases@[i],
                                auto_update: true,
                            }) && effects == seq![
                                Effect::FetchAssets {
                                    repo_name,
                                    release: releases@[i],
                                    auto_update: true,
                                },
                            ]
                    } else {
                        &&& new.home_state matches HomeState::Error { message } && message@
                            == "No suitable releases found on GitHub."@
                        &&& effects.len() == 0
                    }
                },
                _ => {
                    &&& new.home_state == (HomeState::Selection {
                        repo_name,
                        available_releases: releases,
                    })
                    &&& effects.len() == 0
                },
            }
        },
        AsyncMessage::FetchAssetsComplete { repo_name, release, assets, auto_update } => {
            &&& new.active_tab == old.active_tab
            &&& new.projects == old.projects
            &&& new.jobs == old.jobs
            &&& new.registry == old.registry
            &&& effects.len() == 0
            &&& match (if auto_update {
                auto_pick(old.projects@, repo_name@, assets@)
            } else {
                None
            }) {
                Some(i) => {
                    &&& new.home_state == old.home_state
                    &&& auto_new == Some(
                        AutoDownload {
                            url: assets@[i].download_url,
                            file_name: assets@[i].name,
                            size: assets@[i].size,
                            repo_name,
                            release,
                        },
                    )
                },
                None => {
                    &&& new.home_state == (HomeState::AssetSelection { repo_name, release, assets })
                    &&& auto_new == auto_old
                },
            }
        },
        AsyncMessage::FetchError(message) => {
            &&& new.active_tab == old.active_tab
            &&& new.projects == old.projects
            &&& new.jobs == old.jobs
            &&& new.registry == old.registry
            &&& new.home_state == (HomeState::Error { message })
            &&& effects.len() == 0
            &&& auto_new == auto_old
        },
        AsyncMessage::DownloadComplete { file_name, repo_name, release } => {
            &&& new.active_tab == old.active_tab
            &&& new.home_state == old.home_state
            &&& new.registry == old.registry
            &&& board_updated(new.jobs@, old.jobs@, repo_name@, StageUpdate::DownloadComplete)
            &&& projects_after_download(new.projects@, old.projects@, repo_name, release, file_name)
            &&& download_effects(effects, new.projects@, repo_name, file_name)
            &&& auto_new == auto_old
        },
        AsyncMessage::DownloadError { file_name, error } => {
            &&& new == old
            &&& effects == seq![Effect::ReportDownloadError { file_name, error }]
            &&& auto_new == auto_old
        },
        AsyncMessage::PipelineSequenceComplete { .. } => {
            &&& new == old
            &&& effects.len() == 0
            &&& auto_new == auto_old
        },
        AsyncMessage::DownloadProgress { repo_name, progress, .. } => {
            &&& only_jobs_changed(new, old)
            &&& board_updated(new.jobs@, old.jobs@, repo_name@, StageUpdate::DownloadProgress(progress))
            &&& effects == seq![Effect::Repaint]
            &&& auto_new == auto_old
        },
        _ => {
            &&& only_jobs_changed(new, old)
            &&& board_updated(
                new.jobs@,
                old.jobs@,
                stage_update_of(msg).unwrap().0@,
                stage_update_of(msg).unwrap().1,
            )
            &&& effects.len() == 0
            &&& auto_new == auto_old
        },
    }
}

impl AppState {
    /// The state of a window that has just opened: the home page's overview of
    /// `projects`, no job, and the tasks of `registry`.
    pub fn new(projects: Vec<Project>, registry: TaskRegistry) -> (s: AppState)
        ensures
            s.active_tab == AppTab::Home,
            s.home_state is Overview,
            s.projects == projects,
            s.jobs@ == Map::<Seq<char>, ActiveJob>::empty(),
            s.registry == registry,
    {
        AppState {
            active_tab: AppTab::Home,
            home_state: HomeState::Overview,
            projects,
            jobs: JobBoard::new(),
            registry,
        }
    }

    /// Brings the tracked projects up to date after `file_name` of `release` of
    /// `repo` was downloaded.
    fn record_download(&mut self, repo: &String, release: &ReleaseMetadata, file_name: &String)
        ensures
            projects_after_download(final(self).projects@, old(self).projects@, *repo, *release, *file_name),
            final(self).active_tab == old(self).active_tab,
            final(self).home_state == old(self).home_state,
            final(self).jobs == old(self).jobs,
            final(self).registry == old(self).registry,
    {
        match find_project(&self.projects, repo.as_str()) {
            Some(k) => {
                let mut projects: Vec<Project> = Vec::new();
                std::mem::swap(&mut projects, &mut self.projects);
                let ghost before = projects@;
                let p = projects.remove(k);
                let updated = Project {
                    version: release.tag_name.clone(),
                    release_info: Some(release.clone()),
                    current_asset_name: Some(file_name.clone()),
                    ..p
                };
                projects.insert(k, updated);
                proof {
                    assert(projects@ =~= before.update(k as int, updated));
                }
                self.projects = projects;
            },
            None => {
                let mut readme = "# ".to_string();
                readme.append(repo.as_str());
                readme.append("\n\nDownloaded version: ");
                readme.append(release.tag_name.as_str());
                let p = Project {
                    repo_name: repo.clone(),
                    version: release.tag_name.clone(),
                    owner: owner_of(repo.as_str()),
                    last_updated: "Just now".to_string(),
                    readme,
                    is_expanded: false,
                    release_info: Some(release.clone()),
                    allow_prerelease: false,
                    asset_regex: None,
                    current_asset_name: Some(file_name.clone()),
                    pipeline: Vec::new(),
                };
                let mut projects: Vec<Project> = Vec::new();
                std::mem::swap(&mut projects, &mut self.projects);
                let ghost before = projects@;
                projects.push(p);
                proof {
                    assert(projects@.take(before.len() as int) =~= before);
                }
                self.projects = projects;
            },
        }
    }

    /// Handles one report of the background work. `auto` holds the automatic
    /// download the frame will start once its reports are handled; a later
    /// report may replace it.
    pub fn handle_message(&mut self, msg: AsyncMessage, auto: &mut Option<AutoDownload>) -> (effects: Vec<Effect>)
        ensures
            message_handled(*final(self), *old(self), msg, effects@, *final(auto), *old(auto)),
    {
        let ghost msg0 = msg;
        let mut effects: Vec<Effect> = Vec::new();
        match msg {
            AsyncMessage::FetchComplete { repo_name, releases } => {
                let latest_rule = match &self.home_state {
                    HomeState::FetchingLatest { allow_prerelease, .. } => Some(*allow_prerelease),
                    _ => None,
                };
                match latest_rule {
                    Some(allow_prerelease) => {
                        match latest_release_index(&releases, allow_prerelease) {
                            Some(i) => {
                                let release = releases[i].clone();
                                self.home_state =
                                HomeState::FetchingAssets {
                                    repo_name: repo_name.clone(),
                                    release: release.clone(),
                                    auto_update: true,
                                };
                                effects.push(
                                    Effect::FetchAssets { repo_name, release, auto_update: true },
                                );
                                proof {
                                    assert(effects@ =~= seq![
                                        Effect::FetchAssets {
                                            repo_name,
                                            release: releases@[i as int],
                                            auto_update: true,
                                        },
                                    ]);
                                }
                            },
                            None => {
                                self.home_state =
                                HomeState::Error {
                                    message: "No suitable releases found on GitHub.".to_string(),
                                };
                            },
                        }
                    },
                    None => {
                        self.home_state =
                        HomeState::Selection { repo_name, available_releases: releases };
                    },
                }
            },
            AsyncMessage::FetchAssetsComplete { repo_name, release, assets, auto_update } => {
                let mut picked: Option<usize> = None;
                if auto_update {
                    match find_project(&self.projects, repo_name.as_str()) {
                        Some(k) => {
                            match &self.projects[k].asset_regex {
                                Some(pattern) => {
                                    match AssetPattern::compile(pattern.as_str()) {
                                        Some(compiled) => {
                                            picked = first_matching_asset(&compiled, &assets);
                                            proof {
                                                match picked {
                                                    Some(i) => {
                                                        lemma_first_match_unique(
                                                            assets@,
                                                            pattern@,
                                                            i as int,
                                                        );
                                                    },
                                                    None => {
                                                        assert(!exists|i: int|
                                                            is_first_match(
                                                                assets@,
                                                                pattern@,
                                                                i,
                                                            ));
                                                    },
                                                }
                                            }
                                        },
                                        None => {},
                                    }
                                },
                                None => {},
                            }
                        },
                        None => {},
                    }
                }
                match picked {
                    Some(i) => {
                        *auto =
                        Some(
                            AutoDownload {
                                url: assets[i].download_url.clone(),
                                file_name: assets[i].name.clone(),
                                size: assets[i].size,
                                repo_name,
                                release,
                            },
                        );
                    },
                    None => {
                        self.home_state = HomeState::AssetSelection { repo_name, release, assets };
                    },
                }
            },
            AsyncMessage::FetchError(message) => {
                self.home_state = HomeState::Error { message };
            },
            AsyncMessage::DownloadStarted { repo_name, .. } => {
                self.jobs.update(repo_name.as_str(), StageUpdate::DownloadStarted);
            },
            AsyncMessage::DownloadProgress { repo_name, progress, .. } => {
                self.jobs.update(repo_name.as_str(), StageUpdate::DownloadProgress(progress));
                effects.push(Effect::Repaint);
                proof {
                    assert(effects@ =~= seq![Effect::Repaint]);
                }
            },
            AsyncMessage::DownloadComplete { file_name, repo_name, release } => {
                self.jobs.update(repo_name.as_str(), StageUpdate::DownloadComplete);
                self.record_download(&repo_name, &release, &file_name);
                effects.push(Effect::SaveManifest);
                let ghost projects_now = self.projects@;
                match find_project(&self.projects, repo_name.as_str()) {
                    Some(k) => {
                        if self.projects[k].pipeline.len() > 0 {
                            let pipeline = clone_pipeline(&self.projects[k].pipeline);
                            effects.push(
                                Effect::RunPipeline { repo_name, pipeline, file_name },
                            );
                        } else {
                            proof {
                                assert(effects@ =~= seq![Effect::SaveManifest]);
                            }
                        }
                    },
                    None => {
                        proof {
                            let old_ps = old(self).projects@;
                            match project_index(old_ps, repo_name@) {
                                Some(k) => {
                                    assert(projects_now[k].repo_name@ == repo_name@);
                                },
                                None => {
                                    assert(projects_now[old_ps.len() as int].repo_name@
                                        == repo_name@);
                                },
                            }
                        }
                    },
                }
            },
            AsyncMessage::DownloadError { file_name, error } => {
                effects.push(Effect::ReportDownloadError { file_name, error });
                proof {
                    assert(effects@ =~= seq![Effect::ReportDownloadError { file_name, error }]);
                }
            },
            AsyncMessage::PipelineTaskStarted { repo_name, task_name } => {
                self.jobs.update(repo_name.as_str(), StageUpdate::TaskStarted(task_name));
            },
            AsyncMessage::PipelineTaskLog { repo_name, log_line } => {
                self.jobs.update(repo_name.as_str(), StageUpdate::TaskLog(log_line));
            },
            AsyncMessage::PipelineTaskComplete { repo_name, success } => {
                self.jobs.update(repo_name.as_str(), StageUpdate::TaskComplete(success));
            },
            AsyncMessage::PipelineSequenceComplete { .. } => {},
        }
        effects
    }
}

} // verus!

verus! {

/// A choice the user makes in the window.
#[derive(Debug)]
pub enum UserAction {
    /// Picks a tab in the sidebar.
    OpenTab(AppTab),
    /// Opens or closes the card of the project at this position (overview).
    ToggleExpanded(usize),
    /// Updates the project at this position to its latest release (overview).
    UpdateProject(usize),
    /// Opens the pipeline editor of the project at this position (overview).
    OpenPipelineEditor(usize),
    /// Opens the settings of the project at this position (overview).
    OpenProjectConfig(usize),
    /// Goes back to the overview (the back and cancel buttons outside the
    /// pipeline editor).
    BackToOverview,
    /// Chooses the release at this position (version list).
    ChooseRelease(usize),
    /// Finds the asset with the project's pattern (`true`) or by hand (`false`).
    ReuseAssetPattern(bool),
    /// Chooses the asset at this position (asset list).
    ChooseAsset(usize),
    /// Edits the proposed asset pattern (download review).
    EditProposedPattern(String),
    /// Confirms the download with the reviewed pattern (download review).
    ConfirmDownload,
    /// Opens the pipeline editor before downloading (download review).
    EditTasksFirst,
    /// Leaves the pipeline editor, dropping its edits.
    CancelPipelineEdit,
    /// Saves the pipeline, and starts the download that waits for it, if any.
    SavePipeline,
    /// Removes the pipeline step at this position (pipeline editor).
    RemovePipelineStep(usize),
    /// Appends a step running the task with this id (pipeline editor).
    AddPipelineStep(String),
    /// Picks another release of the project (project settings).
    ChangeVersion,
    /// Picks another asset of the current release (project settings).
    ChangeAsset,
    /// Sets the project's asset pattern (project settings).
    SetAssetPattern(String),
    /// Allows or forbids pre-releases for updates (project settings).
    SetAllowPrerelease(bool),
}

/// The two lists of projects track the same repositories in the same order.
pub open spec fn same_repos(a: Seq<Project>, b: Seq<Project>) -> bool {
    &&& a.len() == b.len()
    &&& forall|j: int| 0 <= j < a.len() ==> (#[trigger] a[j]).repo_name == b[j].repo_name
}

proof fn lemma_project_index_same_repos(a: Seq<Project>, b: Seq<Project>, repo: Seq<char>)
    requires
        same_repos(a, b),
    ensures
        project_index(a, repo) == project_index(b, repo),
{
    if exists|i: int| is_first_project(a, repo, i) {
        let i = choose|i: int| is_first_project(a, repo, i);
        assert forall|j: int| 0 <= j < i implies (#[trigger] b[j]).repo_name@ != repo by {
            assert(a[j].repo_name == b[j].repo_name);
        }
        assert(is_first_project(b, repo, i));
        lemma_first_project_unique(a, repo, i);
        lemma_first_project_unique(b, repo, i);
    } else if exists|i: int| is_first_project(b, repo, i) {
        let i = choose|i: int| is_first_project(b, repo, i);
        assert forall|j: int| 0 <= j < i implies (#[trigger] a[j]).repo_name@ != repo by {
            assert(a[j].repo_name == b[j].repo_name);
        }
        assert(is_first_project(a, repo, i));
    }
}

/// The state after a download of `file_name` of `release` of `repo` was started
/// from a state whose job board was `old_jobs`: the tasks tab shows a fresh card
/// for it (when a project tracks `repo`), and the home page is back to the
/// overview.
pub open spec fn download_begun(new: AppState, old_jobs: Map<Seq<char>, ActiveJob>, repo: String, release: ReleaseMetadata, file_name: String) -> bool {
    &&& new.active_tab == AppTab::Tasks
    &&& new.home_state is Overview
    &&& match project_index(new.projects@, repo@) {
        Some(k) => exists|job: ActiveJob|
            is_fresh_job(
                job,
                repo@,
                release.tag_name@,
                file_name@,
                planned_scripts(new.projects@[k].pipeline@, new.registry@),
            ) && #[trigger] new.jobs@ == old_jobs.insert(repo@, job),
        None => new.jobs@ == old_jobs,
    }
}

/// The effect that downloads `file_name` from `url` for `repo`.
pub open spec fn download_effect(url: String, file_name: String, size: u64, repo: String, release: ReleaseMetadata) -> Effect {
    Effect::Download { url, file_name, size, repo_name: repo, release }
}

/// `new` is `old` with the project at `k` replaced by `p`, and nothing else changed
/// but possibly the tab, the home page and the job board.
pub open spec fn project_replaced(new: Seq<Project>, old: Seq<Project>, k: int, p: Project) -> bool {
    0 <= k < old.len() && new == old.update(k, p)
}

/// The state is unchanged and no work starts.
pub open spec fn ignored(new: AppState, old: AppState, effects: Seq<Effect>) -> bool {
    new == old && effects.len() == 0
}

/// Only the home page changed, to `home`, and `effects` started.
pub open spec fn home_now(new: AppState, old: AppState, home: HomeState) -> bool {
    &&& new.active_tab == old.active_tab
    &&& new.projects == old.projects
    &&& new.jobs == old.jobs
    &&& new.registry == old.registry
    &&& new.home_state == home
}

/// What the user's choice `action` does to the state, and the work it starts.
pub open spec fn action_applied(new: AppState, old: AppState, action: UserAction, effects: Seq<Effect>) -> bool {
    match action {
        UserAction::OpenTab(tab) => {
            &&& new == AppState { active_tab: tab, ..old }
            &&& effects == if tab == AppTab::Home && old.active_tab != AppTab::Home {
                seq![Effect::ReloadManifest]
            } else {
                Seq::empty()
            }
        },
        UserAction::ToggleExpanded(i) => if old.home_state is Overview && i < old.projects@.len() {
            &&& project_replaced(
                new.projects@,
                old.projects@,
                i as int,
                Project { is_expanded: !old.projects@[i as int].is_expanded, ..old.projects@[i as int] },
            )
            &&& new.active_tab == old.active_tab && new.home_state == old.home_state
            &&& new.jobs == old.jobs && new.registry == old.registry
            &&& effects.len() == 0
        } else {
            ignored(new, old, effects)
        },
        UserAction::UpdateProject(i) => if old.home_state is Overview && i < old.projects@.len() {
            let p = old.projects@[i as int];
            &&& home_now(
                new,
                old,
                HomeState::FetchingLatest {
                    repo_name: p.repo_name,
                    allow_prerelease: p.allow_prerelease,
                },
            )
            &&& effects == seq![Effect::FetchReleases { repo_name: p.repo_name }]
        } else {
            ignored(new, old, effects)
        },
        UserAction::OpenPipelineEditor(i) => if old.home_state is Overview && i
            < old.projects@.len() {
            &&& home_now(
                new,
                old,
                HomeState::PipelineEditor {
                    repo_name: old.projects@[i as int].repo_name,
                    pending_download: None,
                },
            )
            &&& effects.len() == 0
        } else {
            ignored(new, old, effects)
        },
        UserAction::OpenProjectConfig(i) => if old.home_state is Overview && i < old.projects@.len() {
            &&& home_now(
                new,
                old,
                HomeState::ProjectConfig { repo_name: old.projects@[i as int].repo_name },
            )
            &&& effects.len() == 0
        } else {
            ignored(new, old, effects)
        },
        UserAction::BackToOverview => match old.home_state {
            HomeState::Selection { .. }
            | HomeState::PromptAssetReuse { .. }
            | HomeState::AssetSelection { .. }
            | HomeState::ConfirmDownload { .. }
            | HomeState::ProjectConfig { .. }
            | HomeState::Error { .. } => home_now(new, old, HomeState::Overview) && effects.len()
                == 0,
            _ => ignored(new, old, effects),
        },
        UserAction::ChooseRelease(i) => match old.home_state {
            HomeState::Selection { repo_name, available_releases } => if i
                < available_releases@.len() {
                home_now(
                    new,
                    old,
                    HomeState::PromptAssetReuse {
                        repo_name,
                        release: available_releases@[i as int],
                    },
                ) && effects.len() == 0
            } else {
                ignored(new, old, effects)
            },
            _ => ignored(new, old, effects),
        },
        UserAction::ReuseAssetPattern(auto_update) => match old.home_state {
            HomeState::PromptAssetReuse { repo_name, release } => {
                &&& home_now(new, old, HomeState::FetchingAssets { repo_name, release, auto_update })
                &&& effects == seq![Effect::FetchAssets { repo_name, release, auto_update }]
            },
            _ => ignored(new, old, effects),
        },
        UserAction::ChooseAsset(i) => match old.home_state {
            HomeState::AssetSelection { repo_name, release, assets } => if i < assets@.len() {
                &&& new.active_tab == old.active_tab
                &&& new.projects == old.projects
                &&& new.jobs == old.jobs
                &&& new.registry == old.registry
                &&& new.home_state matches HomeState::ConfirmDownload {
                    repo_name: r,
                    release: rel,
                    asset,
                    regex_string,
                } && r == repo_name && rel == release && asset == assets@[i as int]
                    && regex_string@ == proposed_pattern_text(
                    assets@[i as int].name@,
                    release.tag_name@,
                )
                &&& effects.len() == 0
            } else {
                ignored(new, old, effects)
            },
            _ => ignored(new, old, effects),
        },
        UserAction::EditProposedPattern(pattern) => match old.home_state {
            HomeState::ConfirmDownload { repo_name, release, asset, .. } => home_now(
                new,
                old,
                HomeState::ConfirmDownload { repo_name, release, asset, regex_string: pattern },
            ) && effects.len() == 0,
            _ => ignored(new, old, effects),
        },
        UserAction::ConfirmDownload => match old.home_state {
            HomeState::ConfirmDownload { repo_name, release, asset, regex_string } => {
                &&& new.registry == old.registry
                &&& match project_index(old.projects@, repo_name@) {
                    Some(k) => {
                        &&& project_replaced(
                            new.projects@,
                            old.projects@,
                            k,
                            Project { asset_regex: Some(regex_string), ..old.projects@[k] },
                        )
                        &&& effects == seq![
                            Effect::SaveManifest,
                            download_effect(
                                asset.download_url,
                                asset.name,
                                asset.size,
                                repo_name,
                                release,
                            ),
                        ]
                    },
                    None => {
                        &&& new.projects == old.projects
                        &&& effects == seq![
                            download_effect(
                                asset.download_url,
                                asset.name,
                                asset.size,
                                repo_name,
                                release,
                            ),
                        ]
                    },
                }
                &&& download_begun(new, old.jobs@, repo_name, release, asset.name)
            },
            _ => ignored(new, old, effects),
        },
        UserAction::EditTasksFirst => match old.home_state {
            HomeState::ConfirmDownload { repo_name, release, asset, regex_string } => {
                &&& new.active_tab == old.active_tab
                &&& new.jobs == old.jobs
                &&& new.registry == old.registry
                &&& match project_index(old.projects@, repo_name@) {
                    Some(k) => project_replaced(
                        new.projects@,
                        old.projects@,
                        k,
                        Project { asset_regex: Some(regex_string), ..old.projects@[k] },
                    ),
                    None => new.projects == old.projects,
                }
                &&& new.home_state == (HomeState::PipelineEditor {
                    repo_name,
                    pending_download: Some(
                        (asset.download_url, asset.name, asset.size, release),
                    ),
                })
                &&& effects.len() == 0
            },
            _ => ignored(new, old, effects),
        },
        UserAction::CancelPipelineEdit => match old.home_state {
            HomeState::PipelineEditor { .. } => home_now(new, old, HomeState::Overview) && effects
                == seq![Effect::ReloadManifest],
            _ => ignored(new, old, effects),
        },
        UserAction::SavePipeline => match old.home_state {
            HomeState::PipelineEditor { repo_name, pending_download } => match pending_download {
                Some((url, file_name, size, release)) => {
                    &&& new.projects == old.projects
                    &&& new.registry == old.registry
                    &&& download_begun(new, old.jobs@, repo_name, release, file_name)
                    &&& effects == seq![
                        Effect::SaveManifest,
                        download_effect(url, file_name, size, repo_name, release),
                    ]
                },
                None => home_now(new, old, HomeState::Overview) && effects == seq![
                    Effect::SaveManifest,
                ],
            },
            _ => ignored(new, old, effects),
        },
        UserAction::RemovePipelineStep(i) => match old.home_state {
            HomeState::PipelineEditor { repo_name, .. } => match project_index(
                old.projects@,
                repo_name@,
            ) {
                Some(k) => if i < old.projects@[k].pipeline@.len() {
                    &&& new.active_tab == old.active_tab && new.home_state == old.home_state
                    &&& new.jobs == old.jobs && new.registry == old.registry
                    &&& new.projects@.len() == old.projects@.len()
                    &&& forall|j: int|
                        0 <= j < old.projects@.len() && j != k ==> #[trigger] new.projects@[j]
                            == old.projects@[j]
                    &&& new.projects@[k] == Project {
                        pipeline: new.projects@[k].pipeline,
                        ..old.projects@[k]
                    }
                    &&& new.projects@[k].pipeline@ == old.projects@[k].pipeline@.remove(i as int)
                    &&& effects.len() == 0
                } else {
                    ignored(new, old, effects)
                },
                None => ignored(new, old, effects),
            },
            _ => ignored(new, old, effects),
        },
        UserAction::AddPipelineStep(task_id) => match old.home_state {
            HomeState::PipelineEditor { repo_name, .. } => match project_index(
                old.projects@,
                repo_name@,
            ) {
                Some(k) => {
                    &&& new.active_tab == old.active_tab && new.home_state == old.home_state
                    &&& new.jobs == old.jobs && new.registry == old.registry
                    &&& new.projects@.len() == old.projects@.len()
                    &&& forall|j: int|
                        0 <= j < old.projects@.len() && j != k ==> #[trigger] new.projects@[j]
                            == old.projects@[j]
                    &&& new.projects@[k] == Project {
                        pipeline: new.projects@[k].pipeline,
                        ..old.projects@[k]
                    }
                    &&& new.projects@[k].pipeline@ == old.projects@[k].pipeline@.push(
                        PipelineTask { task_id },
                    )
                    &&& effects.len() == 0
                },
                None => ignored(new, old, effects),
            },
            _ => ignored(new, old, effects),
        },
        UserAction::ChangeVersion => match old.home_state {
            HomeState::ProjectConfig { repo_name } => match project_index(
                old.projects@,
                repo_name@,
            ) {
                Some(k) => home_now(new, old, HomeState::Fetching { repo_name }) && effects
                    == seq![Effect::FetchReleases { repo_name }],
                None => ignored(new, old, effects),
            },
            _ => ignored(new, old, effects),
        },
        UserAction::ChangeAsset => match old.home_state {
            HomeState::ProjectConfig { repo_name } => match project_index(
                old.projects@,
                repo_name@,
            ) {
                Some(k) => match old.projects@[k].release_info {
                    Some(release) => home_now(
                        new,
                        old,
                        HomeState::FetchingAssets { repo_name, release, auto_update: false },
                    ) && effects == seq![
                        Effect::FetchAssets { repo_name, release, auto_update: false },
                    ],
                    None => home_now(new, old, HomeState::Fetching { repo_name }) && effects
                        == seq![Effect::FetchReleases { repo_name }],
                },
                None => ignored(new, old, effects),
            },
            _ => ignored(new, old, effects),
        },
        UserAction::SetAssetPattern(pattern) => match old.home_state {
            HomeState::ProjectConfig { repo_name } => match project_index(
                old.projects@,
                repo_name@,
            ) {
                Some(k) => {
                    &&& new.active_tab == old.active_tab && new.home_state == old.home_state
                    &&& new.jobs == old.jobs && new.registry == old.registry
                    &&& project_replaced(
                        new.projects@,
                        old.projects@,
                        k,
                        Project { asset_regex: Some(pattern), ..old.projects@[k] },
                    )
                    &&& effects == seq![Effect::SaveManifest]
                },
                None => ignored(new, old, effects),
            },
            _ => ignored(new, old, effects),
        },
        UserAction::SetAllowPrerelease(allow) => match old.home_state {
            HomeState::ProjectConfig { repo_name } => match project_index(
                old.projects@,
                repo_name@,
            ) {
                Some(k) => {
                    &&& new.active_tab == old.active_tab && new.home_state == old.home_state
                    &&& new.jobs == old.jobs && new.registry == old.registry
                    &&& project_replaced(
                        new.projects@,
                        old.projects@,
                        k,
                        Project { allow_prerelease: allow, ..old.projects@[k] },
                    )
                    &&& effects == seq![Effect::SaveManifest]
                },
                None => ignored(new, old, effects),
            },
            _ => ignored(new, old, effects),
        },
    }
}

} // verus!

verus! {

impl AppState {
    /// Starts downloading `file_name` of `release` of `repo`: puts up a fresh job
    /// card when a project tracks `repo`, and shows the tasks tab.
    fn begin_download(&mut self, url: String, file_name: String, size: u64, repo: String, release: ReleaseMetadata) -> (e: Effect)
        ensures
            download_begun(*final(self), old(self).jobs@, repo, release, file_name),
            final(self).projects == old(self).projects,
            final(self).registry == old(self).registry,
            e == download_effect(url, file_name, size, repo, release),
    {
        match find_project(&self.projects, repo.as_str()) {
            Some(k) => {
                let job = plan_job(
                    repo.as_str(),
                    release.tag_name.as_str(),
                    file_name.as_str(),
                    &self.projects[k].pipeline,
                    &self.registry,
                );
                self.jobs.insert(job);
            },
            None => {},
        }
        self.active_tab = AppTab::Tasks;
        self.home_state = HomeState::Overview;
        Effect::Download { url, file_name, size, repo_name: repo, release }
    }

    /// Takes the project at `k` out for changing; `put_project` puts it back.
    fn take_project(&mut self, k: usize) -> (p: Project)
        requires
            k < old(self).projects@.len(),
        ensures
            p == old(self).projects@[k as int],
            final(self).projects@ == old(self).projects@.remove(k as int),
            final(self).active_tab == old(self).active_tab,
            final(self).home_state == old(self).home_state,
            final(self).jobs == old(self).jobs,
            final(self).registry == old(self).registry,
    {
        self.projects.remove(k)
    }

    /// Puts the project `p` back at `k`.
    fn put_project(&mut self, k: usize, p: Project)
        requires
            k <= old(self).projects@.len(),
        ensures
            final(self).projects@ == old(self).projects@.insert(k as int, p),
            final(self).active_tab == old(self).active_tab,
            final(self).home_state == old(self).home_state,
            final(self).jobs == old(self).jobs,
            final(self).registry == old(self).registry,
    {
        self.projects.insert(k, p);
    }

    /// Sets the asset pattern of the project at `k`.
    fn set_project_pattern(&mut self, k: usize, pattern: String)
        requires
            k < old(self).projects@.len(),
        ensures
            project_replaced(
                final(self).projects@,
                old(self).projects@,
                k as int,
                Project { asset_regex: Some(pattern), ..old(self).projects@[k as int] },
            ),
            final(self).active_tab == old(self).active_tab,
            final(self).home_state == old(self).home_state,
            final(self).jobs == old(self).jobs,
            final(self).registry == old(self).registry,
    {
        let p = self.take_project(k);
        self.put_project(k, Project { asset_regex: Some(pattern), ..p });
        proof {
            assert(self.projects@ =~= old(self).projects@.update(
                k as int,
                Project { asset_regex: Some(pattern), ..old(self).projects@[k as int] },
            ));
        }
    }

    /// Applies the user's choice `action`.
    pub fn apply_action(&mut self, action: UserAction) -> (effects: Vec<Effect>)
        ensures
            action_applied(*final(self), *old(self), action, effects@),
    {
        let mut effects: Vec<Effect> = Vec::new();
        match action {
            UserAction::OpenTab(tab) => {
                if tab == AppTab::Home && self.active_tab != AppTab::Home {
                    effects.push(Effect::ReloadManifest);
                    proof {
                        assert(effects@ =~= seq![Effect::ReloadManifest]);
                    }
                }
                self.active_tab = tab;
            },
            UserAction::ToggleExpanded(i) => {
                if self.home_state.is_overview() && i < self.projects.len() {
                    let p = self.take_project(i);
                    let flipped = !p.is_expanded;
                    self.put_project(i, Project { is_expanded: flipped, ..p });
                    proof {
                        assert(self.projects@ =~= old(self).projects@.update(
                            i as int,
                            Project {
                                is_expanded: !old(self).projects@[i as int].is_expanded,
                                ..old(self).projects@[i as int]
                            },
                        ));
                    }
                }
            },
            UserAction::UpdateProject(i) => {
                if self.home_state.is_overview() && i < self.projects.len() {
                    let repo = self.projects[i].repo_name.clone();
                    let allow = self.projects[i].allow_prerelease;
                    self.home_state =
                    HomeState::FetchingLatest { repo_name: repo.clone(), allow_prerelease: allow };
                    effects.push(Effect::FetchReleases { repo_name: repo });
                    proof {
                        assert(effects@ =~= seq![Effect::FetchReleases { repo_name: repo }]);
                    }
                }
            },
            UserAction::OpenPipelineEditor(i) => {
                if self.home_state.is_overview() && i < self.projects.len() {
                    self.home_state =
                    HomeState::PipelineEditor {
                        repo_name: self.projects[i].repo_name.clone(),
                        pending_download: None,
                    };
                }
            },
            UserAction::OpenProjectConfig(i) => {
                if self.home_state.is_overview() && i < self.projects.len() {
                    self.home_state =
                    HomeState::ProjectConfig { repo_name: self.projects[i].repo_name.clone() };
                }
            },
            UserAction::BackToOverview => {
                let back = match &self.home_state {
                    HomeState::Selection { .. }
                    | HomeState::PromptAssetReuse { .. }
                    | HomeState::AssetSelection { .. }
                    | HomeState::ConfirmDownload { .. }
                    | HomeState::ProjectConfig { .. }
                    | HomeState::Error { .. } => true,
                    _ => false,
                };
                if back {
                    self.home_state = HomeState::Overview;
                }
            },
            UserAction::ChooseRelease(i) => {
                let next = match &self.home_state {
                    HomeState::Selection { repo_name, available_releases } => {
                        if i < available_releases.len() {
                            Some(
                                HomeState::PromptAssetReuse {
                                    repo_name: repo_name.clone(),
                                    release: available_releases[i].clone(),
                                },
                            )
                        } else {
                            None
                        }
                    },
                    _ => None,
                };
                match next {
                    Some(h) => {
                        self.home_state = h;
                    },
                    None => {},
                }
            },
            UserAction::ReuseAssetPattern(auto_update) => {
                let next = match &self.home_state {
                    HomeState::PromptAssetReuse { repo_name, release } => Some(
                        (repo_name.clone(), release.clone()),
                    ),
                    _ => None,
                };
                match next {
                    Some((repo_name, release)) => {
                        self.home_state =
                        HomeState::FetchingAssets {
                            repo_name: repo_name.clone(),
                            release: release.clone(),
                            auto_update,
                        };
                        effects.push(Effect::FetchAssets { repo_name, release, auto_update });
                        proof {
                            assert(effects@ =~= seq![
                                Effect::FetchAssets { repo_name, release, auto_update },
                            ]);
                        }
                    },
                    None => {},
                }
            },
            UserAction::ChooseAsset(i) => {
                let next = match &self.home_state {
                    HomeState::AssetSelection { repo_name, release, assets } => {
                        if i < assets.len() {
                            let regex_string = proposed_asset_pattern(
                                assets[i].name.as_str(),
                                release.tag_name.as_str(),
                            );
                            Some(
                                HomeState::ConfirmDownload {
                                    repo_name: repo_name.clone(),
                                    release: release.clone(),
                                    asset: assets[i].clone(),
                                    regex_string,
                                },
                            )
                        } else {
                            None
                        }
                    },
                    _ => None,
                };
                match next {
                    Some(h) => {
                        self.home_state = h;
                    },
                    None => {},
                }
            },
            UserAction::EditProposedPattern(pattern) => {
                let mut home = HomeState::Overview;
                std::mem::swap(&mut home, &mut self.home_state);
                match home {
                    HomeState::ConfirmDownload { repo_name, release, asset, .. } => {
                        self.home_state =
                        HomeState::ConfirmDownload { repo_name, release, asset, regex_string: pattern };
                    },
                    other => {
                        self.home_state = other;
                    },
                }
            },
            UserAction::ConfirmDownload => {
                let mut home = HomeState::Overview;
                std::mem::swap(&mut home, &mut self.home_state);
                match home {
                    HomeState::ConfirmDownload { repo_name, release, asset, regex_string } => {
                        let ghost jobs0 = self.jobs@;
                        match find_project(&self.projects, repo_name.as_str()) {
                            Some(k) => {
                                self.set_project_pattern(k, regex_string);
                                effects.push(Effect::SaveManifest);
                                proof {
                                    lemma_project_index_same_repos(
                                        self.projects@,
                                        old(self).projects@,
                                        repo_name@,
                                    );
                                }
                            },
                            None => {},
                        }
                        let ghost before = effects@;
                        let e = self.begin_download(
                            asset.download_url,
                            asset.name,
                            asset.size,
                            repo_name,
                            release,
                        );
                        effects.push(e);
                        proof {
                            if before.len() == 1 {
                                assert(effects@ =~= seq![before[0], e]);
                            } else {
                                assert(effects@ =~= seq![e]);
                            }
                        }
                    },
                    other => {
                        self.home_state = other;
                    },
                }
            },
            UserAction::EditTasksFirst => {
                let mut home = HomeState::Overview;
                std::mem::swap(&mut home, &mut self.home_state);
                match home {
                    HomeState::ConfirmDownload { repo_name, release, asset, regex_string } => {
                        match find_project(&self.projects, repo_name.as_str()) {
                            Some(k) => {
                                self.set_project_pattern(k, regex_string);
                            },
                            None => {},
                        }
                        self.home_state =
                        HomeState::PipelineEditor {
                            repo_name,
                            pending_download: Some(
                                (asset.download_url, asset.name, asset.size, release),
                            ),
                        };
                    },
                    other => {
                        self.home_state = other;
                    },
                }
            },
            UserAction::CancelPipelineEdit => {
                if self.home_state.is_pipeline_editor() {
                    self.home_state = HomeState::Overview;
                    effects.push(Effect::ReloadManifest);
                    proof {
                        assert(effects@ =~= seq![Effect::ReloadManifest]);
                    }
                }
            },
            UserAction::SavePipeline => {
                let mut home = HomeState::Overview;
                std::mem::swap(&mut home, &mut self.home_state);
                match home {
                    HomeState::PipelineEditor { repo_name, pending_download } => {
                        effects.push(Effect::SaveManifest);
                        match pending_download {
                            Some((url, file_name, size, release)) => {
                                let e = self.begin_download(url, file_name, size, repo_name, release);
                                effects.push(e);
                                proof {
                                    assert(effects@ =~= seq![Effect::SaveManifest, e]);
                                }
                            },
                            None => {
                                proof {
                                    assert(effects@ =~= seq![Effect::SaveManifest]);
                                }
                            },
                        }
                    },
                    other => {
                        self.home_state = other;
                    },
                }
            },
            UserAction::RemovePipelineStep(i) => {
                let target = match &self.home_state {
                    HomeState::PipelineEditor { repo_name, .. } => find_project(
                        &self.projects,
                        repo_name.as_str(),
                    ),
                    _ => None,
                };
                match target {
                    Some(k) => {
                        if i < self.projects[k].pipeline.len() {
                            let p = self.take_project(k);
                            let Project {
                                repo_name,
                                version,
                                owner,
                                last_updated,
                                readme,
                                is_expanded,
                                release_info,
                                allow_prerelease,
                                asset_regex,
                                current_asset_name,
                                mut pipeline,
                            } = p;
                            pipeline.remove(i);
                            self.put_project(
                                k,
                                Project {
                                    repo_name,
                                    version,
                                    owner,
                                    last_updated,
                                    readme,
                                    is_expanded,
                                    release_info,
                                    allow_prerelease,
                                    asset_regex,
                                    current_asset_name,
                                    pipeline,
                                },
                            );
                        }
                    },
                    None => {},
                }
            },
            UserAction::AddPipelineStep(task_id) => {
                let target = match &self.home_state {
                    HomeState::PipelineEditor { repo_name, .. } => find_project(
                        &self.projects,
                        repo_name.as_str(),
                    ),
                    _ => None,
                };
                match target {
                    Some(k) => {
                        let p = self.take_project(k);
                        let Project {
                            repo_name,
                            version,
                            owner,
                            last_updated,
                            readme,
                            is_expanded,
                            release_info,
                            allow_prerelease,
                            asset_regex,
                            current_asset_name,
                            mut pipeline,
                        } = p;
                        pipeline.push(PipelineTask { task_id });
                        self.put_project(
                            k,
                            Project {
                                repo_name,
                                version,
                                owner,
                                last_updated,
                                readme,
                                is_expanded,
                                release_info,
                                allow_prerelease,
                                asset_regex,
                                current_asset_name,
                                pipeline,
                            },
                        );
                    },
                    None => {},
                }
            },
            UserAction::ChangeVersion | UserAction::ChangeAsset => {
                let target = match &self.home_state {
                    HomeState::ProjectConfig { repo_name } => match find_project(
                        &self.projects,
                        repo_name.as_str(),
                    ) {
                        Some(k) => Some((k, repo_name.clone())),
                        None => None,
                    },
                    _ => None,
                };
                match target {
                    Some((k, repo_name)) => {
                        let release = match action {
                            UserAction::ChangeAsset => match &self.projects[k].release_info {
                                Some(r) => Some(r.clone()),
                                None => None,
                            },
                            _ => None,
                        };
                        match release {
                            Some(release) => {
                                self.home_state =
                                HomeState::FetchingAssets {
                                    repo_name: repo_name.clone(),
                                    release: release.clone(),
                                    auto_update: false,
                                };
                                effects.push(
                                    Effect::FetchAssets { repo_name, release, auto_update: false },
                                );
                                proof {
                                    assert(effects@ =~= seq![
                                        Effect::FetchAssets {
                                            repo_name,
                                            release,
                                            auto_update: false,
                                        },
                                    ]);
                                }
                            },
                            None => {
                                self.home_state = HomeState::Fetching { repo_name: repo_name.clone() };
                                effects.push(Effect::FetchReleases { repo_name });
                                proof {
                                    assert(effects@ =~= seq![Effect::FetchReleases { repo_name }]);
                                }
                            },
                        }
                    },
                    None => {},
                }
            },
            UserAction::SetAssetPattern(pattern) => {
                let target = match &self.home_state {
                    HomeState::ProjectConfig { repo_name } => find_project(
                        &self.projects,
                        repo_name.as_str(),
                    ),
                    _ => None,
                };
                match target {
                    Some(k) => {
                        self.set_project_pattern(k, pattern);
                        effects.push(Effect::SaveManifest);
                        proof {
                            assert(effects@ =~= seq![Effect::SaveManifest]);
                        }
                    },
                    None => {},
                }
            },
            UserAction::SetAllowPrerelease(allow) => {
                let target = match &self.home_state {
                    HomeState::ProjectConfig { repo_name } => find_project(
                        &self.projects,
                        repo_name.as_str(),
                    ),
                    _ => None,
                };
                match target {
                    Some(k) => {
                        let p = self.take_project(k);
                        self.put_project(k, Project { allow_prerelease: allow, ..p });
                        proof {
                            assert(self.projects@ =~= old(self).projects@.update(
                                k as int,
                                Project { allow_prerelease: allow, ..old(self).projects@[k as int] },
                            ));
                        }
                        effects.push(Effect::SaveManifest);
                        proof {
                            assert(effects@ =~= seq![Effect::SaveManifest]);
                        }
                    },
                    None => {},
                }
            },
        }
        effects
    }

    /// Starts the download that an asset pattern chose while the reports of a
    /// frame were handled.
    pub fn start_auto_download(&mut self, auto: AutoDownload) -> (effects: Vec<Effect>)
        ensures
            download_begun(*final(self), old(self).jobs@, auto.repo_name, auto.release, auto.file_name),
            final(self).projects == old(self).projects,
            final(self).registry == old(self).registry,
            effects@ == seq![
                download_effect(auto.url, auto.file_name, auto.size, auto.repo_name, auto.release),
            ],
    {
        let AutoDownload { url, file_name, size, repo_name, release } = auto;
        let e = self.begin_download(url, file_name, size, repo_name, release);
        let mut effects: Vec<Effect> = Vec::new();
        effects.push(e);
        proof {
            assert(effects@ =~= seq![e]);
        }
        effects
    }

    /// Ends a frame that showed `shown_tab`: the download that an asset pattern
    /// chose while the frame's reports were handled starts only when the frame
    /// showed the home tab; on any other tab the choice is dropped.
    pub fn finish_frame(&mut self, shown_tab: AppTab, auto: Option<AutoDownload>) -> (effects: Vec<Effect>)
        ensures
            match auto {
                Some(a) => if shown_tab == AppTab::Home {
                    &&& download_begun(*final(self), old(self).jobs@, a.repo_name, a.release, a.file_name)
                    &&& final(self).projects == old(self).projects
                    &&& final(self).registry == old(self).registry
                    &&& effects@ == seq![
                        download_effect(a.url, a.file_name, a.size, a.repo_name, a.release),
                    ]
                } else {
                    &&& *final(self) == *old(self)
                    &&& effects@.len() == 0
                },
                None => {
                    &&& *final(self) == *old(self)
                    &&& effects@.len() == 0
                },
            },
    {
        match auto {
            Some(a) => {
                if shown_tab == AppTab::Home {
                    self.start_auto_download(a)
                } else {
                    Vec::new()
                }
            },
            None => Vec::new(),
        }
    }
}

impl HomeState {
    /// Whether the home page shows the overview.
    pub fn is_overview(&self) -> (b: bool)
        ensures
            b == (*self is Overview),
    {
        match self {
            HomeState::Overview => true,
            _ => false,
        }
    }

    /// Whether the home page shows the pipeline editor.
    pub fn is_pipeline_editor(&self) -> (b: bool)
        ensures
            b == (*self is PipelineEditor),
    {
        match self {
            HomeState::PipelineEditor { .. } => true,
            _ => false,
        }
    }
}

} // verus!

verus! {

/// Reports of the background work never switch tabs and never change the
/// installed tasks.
pub proof fn law_reports_keep_tab(
    new: AppState,
    old: AppState,
    msg: AsyncMessage,
    effects: Seq<Effect>,
    auto_new: Option<AutoDownload>,
    auto_old: Option<AutoDownload>,
)
    requires
        message_handled(new, old, msg, effects, auto_new, auto_old),
    ensures
        new.active_tab == old.active_tab,
        new.registry == old.registry,
{
}

proof fn lemma_some_first_project(projects: Seq<Project>, repo: Seq<char>, j: int)
    requires
        0 <= j < projects.len(),
        projects[j].repo_name@ == repo,
    ensures
        project_index(projects, repo) is Some,
    decreases j,
{
    if exists|q: int| 0 <= q < j && (#[trigger] projects[q]).repo_name@ == repo {
        let q = choose|q: int| 0 <= q < j && (#[trigger] projects[q]).repo_name@ == repo;
        lemma_some_first_project(projects, repo, q);
    } else {
        assert(is_first_project(projects, repo, j));
    }
}

/// After a download finishes, the first project tracking its repository is at
/// the downloaded release and file, and every other project is as it was.
pub proof fn law_download_recorded(
    new: Seq<Project>,
    old: Seq<Project>,
    repo: String,
    release: ReleaseMetadata,
    file_name: String,
)
    requires
        projects_after_download(new, old, repo, release, file_name),
    ensures
        project_index(new, repo@) is Some,
        new[project_index(new, repo@).unwrap()].version == release.tag_name,
        new[project_index(new, repo@).unwrap()].release_info == Some(release),
        new[project_index(new, repo@).unwrap()].current_asset_name == Some(file_name),
        forall|j: int|
            0 <= j < old.len() && j != project_index(new, repo@).unwrap() ==> #[trigger] new[j]
                == old[j],
{
    match project_index(old, repo@) {
        Some(k) => {
            assert(is_first_project(old, repo@, k));
            assert forall|j: int| 0 <= j < k implies (#[trigger] new[j]).repo_name@ != repo@ by {
                assert(new[j] == old[j]);
            }
            assert(is_first_project(new, repo@, k));
            lemma_first_project_unique(new, repo@, k);
        },
        None => {
            let n = old.len() as int;
            assert forall|j: int| 0 <= j < n implies (#[trigger] new[j]).repo_name@ != repo@ by {
                assert(new[j] == new.take(n)[j]);
                if old[j].repo_name@ == repo@ {
                    lemma_some_first_project(old, repo@, j);
                }
            }
            assert(is_first_project(new, repo@, n));
            lemma_first_project_unique(new, repo@, n);
            assert forall|j: int| 0 <= j < old.len() && j != n implies #[trigger] new[j]
                == old[j] by {
                assert(new[j] == new.take(n)[j]);
            }
        },
    }
}

/// An update never moves to a draft, and moves to a pre-release only when the
/// project allows them.
pub proof fn law_update_never_picks_draft(r: ReleaseMetadata, allow_prerelease: bool)
    requires
        is_update_candidate(r, allow_prerelease),
    ensures
        !r.draft,
        r.prerelease ==> allow_prerelease,
{
}

/// Starting a download always shows the tasks tab with the home page reset to
/// the overview.
pub proof fn law_download_shows_tasks(
    new: AppState,
    old_jobs: Map<Seq<char>, ActiveJob>,
    repo: String,
    release: ReleaseMetadata,
    file_name: String,
)
    requires
        download_begun(new, old_jobs, repo, release, file_name),
    ensures
        new.active_tab == AppTab::Tasks,
        new.home_state is Overview,
        new.jobs@.dom().subset_of(old_jobs.dom().insert(repo@)),
{
}

} // verus!
