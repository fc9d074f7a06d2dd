//! The manifest of tracked projects as it is kept on disk, and its conversion
//! to and from the projects the home page shows.
use vstd::prelude::*;
use vstd::string::*;
use crate::text::{before_char, concat2, contains_char, text_before};
use crate::types::{PipelineTask, Project, ReleaseMetadata};

verus! {

broadcast use vstd::string::group_string_axioms;

/// One tracked project as the manifest file records it.
#[derive(Debug, Clone)]
pub struct ManifestProject {
    pub repo_name: String,
    pub version: String,
    /// When the project was last written by this program (RFC 3339).
    pub last_local_update: String,
    pub release_info: Option<ReleaseMetadata>,
    pub allow_prerelease: bool,
    pub asset_regex: Option<String>,
    pub current_asset_name: Option<String>,
    pub pipeline: Vec<PipelineTask>,
}

/// The whole manifest file.
#[derive(Debug)]
pub struct AppManifest {
    pub projects: Vec<ManifestProject>,
}

impl Default for AppManifest {
    fn default() -> (m: AppManifest)
        ensures
            m.projects@.len() == 0,
    {
        AppManifest { projects: Vec::new() }
    }
}

/// The owner shown for a repository name `owner/repo`: the part before the
/// first `/`, or `Unknown` when the name holds no `/`.
pub open spec fn owner_text(repo_name: Seq<char>) -> Seq<char> {
    if repo_name.contains('/') {
        before_char(repo_name, '/')
    } else {
        "Unknown"@
    }
}

/// The readme shown for a project read from the manifest.
pub open spec fn tracked_readme_text(repo_name: Seq<char>, version: Seq<char>) -> Seq<char> {
    "# "@ + repo_name + "\n\n**Current local version:** "@ + version
        + "\n\n*Select a version to update.*"@
}

/// The line that says when a project read from the manifest was last updated:
/// the date part (before the `T`) of its timestamp.
pub open spec fn updated_line_text(stamp: Seq<char>) -> Seq<char> {
    "Updated: "@ + before_char(stamp, 'T')
}

/// What a project and its manifest entry share: the data the manifest keeps.
pub open spec fn same_tracked_data(p: Project, mp: ManifestProject) -> bool {
    &&& p.repo_name == mp.repo_name
    &&& p.version == mp.version
    &&& p.release_info == mp.release_info
    &&& p.allow_prerelease == mp.allow_prerelease
    &&& p.asset_regex == mp.asset_regex
    &&& p.current_asset_name == mp.current_asset_name
    &&& p.pipeline@ == mp.pipeline@
}

/// `p` is the project that reading the manifest entry `mp` gives.
pub open spec fn is_loaded_from(p: Project, mp: ManifestProject) -> bool {
    &&& same_tracked_data(p, mp)
    &&& p.owner@ == owner_text(mp.repo_name@)
    &&& p.last_updated@ == updated_line_text(mp.last_local_update@)
    &&& p.readme@ == tracked_readme_text(mp.repo_name@, mp.version@)
    &&& !p.is_expanded
}

/// `mp` is the manifest entry that saving `p` at time `stamp` writes.
pub open spec fn is_saved_from(mp: ManifestProject, p: Project, stamp: Seq<char>) -> bool {
    &&& same_tracked_data(p, mp)
    &&& mp.last_local_update@ == stamp
}

/// The owner part of a repository name (see `owner_text`).
pub fn owner_of(repo_name: &str) -> (r: String)
    ensures
        r@ == owner_text(repo_name@),
{
    if contains_char(repo_name, '/') {
        text_before(repo_name, '/')
    } else {
        "Unknown".to_string()
    }
}

/// A copy of a pipeline.
pub fn clone_pipeline(pipeline: &Vec<PipelineTask>) -> (r: Vec<PipelineTask>)
    ensures
        r@ == pipeline@,
{
    let r = pipeline.clone();
    assert(r@ =~= pipeline@);
    r
}

/// A copy of an optional text.
pub fn clone_opt_text(t: &Option<String>) -> (r: Option<String>)
    ensures
        r == *t,
{
    match t {
        Some(s) => Some(s.clone()),
        None => None,
    }
}

/// A copy of an optional release.
pub fn clone_opt_release(r: &Option<ReleaseMetadata>) -> (c: Option<ReleaseMetadata>)
    ensures
        c == *r,
{
    match r {
        Some(x) => Some(x.clone()),
        None => None,
    }
}

/// The project the home page shows for one manifest entry.
pub fn project_from_manifest(mp: &ManifestProject) -> (p: Project)
    ensures
        is_loaded_from(p, *mp),
{
    let owner = owner_of(mp.repo_name.as_str());
    let date = text_before(mp.last_local_update.as_str(), 'T');
    let last_updated = concat2("Updated: ", date.as_str());
    let mut readme = "# ".to_string();
    readme.append(mp.repo_name.as_str());
    readme.append("\n\n**Current local version:** ");
    readme.append(mp.version.as_str());
    readme.append("\n\n*Select a version to update.*");
    Project {
        repo_name: mp.repo_name.clone(),
        version: mp.version.clone(),
        owner,
        last_updated,
        readme,
        is_expanded: false,
        release_info: clone_opt_release(&mp.release_info),
        allow_prerelease: mp.allow_prerelease,
        asset_regex: clone_opt_text(&mp.asset_regex),
        current_asset_name: clone_opt_text(&mp.current_asset_name),
        pipeline: clone_pipeline(&mp.pipeline),
    }
}

/// The projects the home page shows for a manifest, in the manifest's order.
pub fn projects_from_manifest(manifest: &AppManifest) -> (ps: Vec<Project>)
    ensures
        ps@.len() == manifest.projects@.len(),
        forall|i: int|
            0 <= i < ps@.len() ==> is_loaded_from(#[trigger] ps@[i], manifest.projects@[i]),
{
    let mut ps: Vec<Project> = Vec::new();
    let n = manifest.projects.len();
    for i in 0..n
        invariant
            n == manifest.projects@.len(),
            ps@.len() == i,
            forall|j: int|
                0 <= j < i ==> is_loaded_from(#[trigger] ps@[j], manifest.projects@[j]),
    {
        ps.push(project_from_manifest(&manifest.projects[i]));
    }
    ps
}

/// The manifest entry written for a project at time `stamp`.
pub fn manifest_entry_of(p: &Project, stamp: &str) -> (mp: ManifestProject)
    ensures
        is_saved_from(mp, *p, stamp@),
{
    ManifestProject {
        repo_name: p.repo_name.clone(),
        version: p.version.clone(),
        last_local_update: stamp.to_string(),
        release_info: clone_opt_release(&p.release_info),
        allow_prerelease: p.allow_prerelease,
        asset_regex: clone_opt_text(&p.asset_regex),
        current_asset_name: clone_opt_text(&p.current_asset_name),
        pipeline: clone_pipeline(&p.pipeline),
    }
}

/// The manifest written for the tracked projects, every entry stamped with `stamp`.
pub fn manifest_from_projects(projects: &Vec<Project>, stamp: &str) -> (m: AppManifest)
    ensures
        m.projects@.len() == projects@.len(),
        forall|i: int|
            0 <= i < projects@.len() ==> is_saved_from(
                #[trigger] m.projects@[i],
                projects@[i],
                stamp@,
            ),
{
    let mut entries: Vec<ManifestProject> = Vec::new();
    let n = projects.len();
    for i in 0..n
        invariant
            n == projects@.len(),
            entries@.len() == i,
            forall|j: int|
                0 <= j < i ==> is_saved_from(#[trigger] entries@[j], projects@[j], stamp@),
    {
        entries.push(manifest_entry_of(&projects[i], stamp));
    }
    AppManifest { projects: entries }
}

/// The manifest written when none exists yet: it tracks `neovim/neovim` at
/// `v0.9.5`, stamped with `stamp`.
pub fn default_manifest(stamp: &str) -> (m: AppManifest)
    ensures
        m.projects@.len() == 1,
        m.projects@[0].repo_name@ == "neovim/neovim"@,
        m.projects@[0].version@ == "v0.9.5"@,
        m.projects@[0].last_local_update@ == stamp@,
        m.projects@[0].release_info is None,
        !m.projects@[0].allow_prerelease,
        m.projects@[0].asset_regex is None,
        m.projects@[0].current_asset_name is None,
        m.projects@[0].pipeline@.len() == 0,
{
    let entry = ManifestProject {
        repo_name: "neovim/neovim".to_string(),
        version: "v0.9.5".to_string(),
        last_local_update: stamp.to_string(),
        release_info: None,
        allow_prerelease: false,
        asset_regex: None,
        current_asset_name: None,
        pipeline: Vec::new(),
    };
    let mut projects: Vec<ManifestProject> = Vec::new();
    projects.push(entry);
    AppManifest { projects }
}

/// Saving the projects and reading the manifest back gives the same projects,
/// as far as the manifest keeps them (name, version, release, pre-release rule,
/// asset pattern, current asset and pipeline); the owner and readme are
/// recomputed from the name and version, and the update line carries the date
/// of the save.
pub proof fn law_save_then_load(
    projects: Seq<Project>,
    stamp: Seq<char>,
    saved: Seq<ManifestProject>,
    loaded: Seq<Project>,
)
    requires
        saved.len() == projects.len(),
        forall|i: int| 0 <= i < projects.len() ==> is_saved_from(#[trigger] saved[i], projects[i], stamp),
        loaded.len() == saved.len(),
        forall|i: int| 0 <= i < saved.len() ==> is_loaded_from(#[trigger] loaded[i], saved[i]),
    ensures
        loaded.len() == projects.len(),
        forall|i: int|
            0 <= i < projects.len() ==> {
                &&& #[trigger] loaded[i].repo_name == projects[i].repo_name
                &&& loaded[i].version == projects[i].version
                &&& loaded[i].release_info == projects[i].release_info
                &&& loaded[i].allow_prerelease == projects[i].allow_prerelease
                &&& loaded[i].asset_regex == projects[i].asset_regex
                &&& loaded[i].current_asset_name == projects[i].current_asset_name
                &&& loaded[i].pipeline@ == projects[i].pipeline@
                &&& loaded[i].owner@ == owner_text(projects[i].repo_name@)
                &&& loaded[i].readme@ == tracked_readme_text(projects[i].repo_name@, projects[i].version@)
                &&& loaded[i].last_updated@ == updated_line_text(stamp)
            },
{
    assert forall|i: int| 0 <= i < projects.len() implies {
        &&& #[trigger] loaded[i].repo_name == projects[i].repo_name
        &&& loaded[i].version == projects[i].version
        &&& loaded[i].release_info == projects[i].release_info
        &&& loaded[i].allow_prerelease == projects[i].allow_prerelease
        &&& loaded[i].asset_regex == projects[i].asset_regex
        &&& loaded[i].current_asset_name == projects[i].current_asset_name
        &&& loaded[i].pipeline@ == projects[i].pipeline@
        &&& loaded[i].owner@ == owner_text(projects[i].repo_name@)
        &&& loaded[i].readme@ == tracked_readme_text(projects[i].repo_name@, projects[i].version@)
        &&& loaded[i].last_updated@ == updated_line_text(stamp)
    } by {
        assert(is_saved_from(saved[i], projects[i], stamp));
        assert(is_loaded_from(loaded[i], saved[i]));
    }
}

} // verus!
