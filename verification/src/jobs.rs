//! Job cards: for each project being updated, the download stage and the
//! post-download script stages, and how the reports of the background work move
//! them along.
use vstd::prelude::*;
use vstd::string::*;
use crate::registry::TaskRegistry;
use crate::types::{ActiveJob, JobStage, JobStatus, PipelineTask, RegisteredTask, PROGRESS_COMPLETE};

verus! {

broadcast use vstd::string::group_string_axioms;

/// A script's log keeps at most this many lines when lines stream in.
pub const MAX_LOG_LINES: usize = 500;

/// The texts of a list of log lines.
pub open spec fn log_texts(logs: Seq<String>) -> Seq<Seq<char>> {
    logs.map_values(|l: String| l@)
}

/// One change that a background report makes to the stages of a job.
#[derive(Debug)]
pub enum StageUpdate {
    DownloadStarted,
    /// In ten-thousandths.
    DownloadProgress(u32),
    DownloadComplete,
    TaskStarted(String),
    TaskLog(String),
    TaskComplete(bool),
}

/// A stage waiting to run the script called `name`.
pub open spec fn waits_as(s: JobStage, name: Seq<char>) -> bool {
    s matches JobStage::Script { task_name, status, .. } && task_name@ == name && status
        == JobStatus::Pending
}

/// A script stage that is running.
pub open spec fn runs(s: JobStage) -> bool {
    s matches JobStage::Script { status, .. } && status == JobStatus::Running
}

/// `i` is the first stage of `stages` that `p` picks.
pub open spec fn first_pick(stages: Seq<JobStage>, p: spec_fn(JobStage) -> bool, i: int) -> bool {
    &&& 0 <= i < stages.len()
    &&& p(stages[i])
    &&& forall|j: int| 0 <= j < i ==> !p(#[trigger] stages[j])
}

/// `p` picks no stage of `stages`.
pub open spec fn no_pick(stages: Seq<JobStage>, p: spec_fn(JobStage) -> bool) -> bool {
    forall|j: int| 0 <= j < stages.len() ==> !p(#[trigger] stages[j])
}

/// `new` and `old` agree on every stage but the one at `i`.
pub open spec fn same_except(new: Seq<JobStage>, old: Seq<JobStage>, i: int) -> bool {
    &&& new.len() == old.len()
    &&& forall|j: int| 0 <= j < old.len() && j != i ==> #[trigger] new[j] == old[j]
}

/// `new` is the script stage `old` with status `status` and the log `logs`.
pub open spec fn script_now(new: JobStage, old: JobStage, status: JobStatus, logs: Seq<Seq<char>>) -> bool {
    match (new, old) {
        (
            JobStage::Script { task_name: n1, logs: l1, status: s1 },
            JobStage::Script { task_name: n0, .. },
        ) => n1 == n0 && s1 == status && log_texts(l1@) == logs,
        _ => false,
    }
}

/// The log lines of a script stage (empty for a download stage).
pub open spec fn logs_of(s: JobStage) -> Seq<Seq<char>> {
    match s {
        JobStage::Script { logs, .. } => log_texts(logs@),
        JobStage::Download { .. } => Seq::empty(),
    }
}

/// A log with one more line, dropping its first line when that takes it past
/// `MAX_LOG_LINES`.
pub open spec fn with_line(logs: Seq<Seq<char>>, line: Seq<char>) -> Seq<Seq<char>> {
    if logs.len() + 1 > MAX_LOG_LINES {
        logs.push(line).drop_first()
    } else {
        logs.push(line)
    }
}

/// The line logged when a script starts.
pub open spec fn starting_text(name: Seq<char>) -> Seq<char> {
    "--- Starting Task: "@ + name + " ---"@
}

/// The line logged when a script ends.
pub open spec fn outcome_text(success: bool) -> Seq<char> {
    if success {
        "--- Success ---"@
    } else {
        "--- FAILED ---"@
    }
}

/// The stage `new` is the download stage `old` with the given progress and status.
pub open spec fn download_now(new: JobStage, old: JobStage, progress: u32, status: JobStatus) -> bool {
    match (new, old) {
        (
            JobStage::Download { file_name: f1, progress: p1, status: s1 },
            JobStage::Download { file_name: f0, .. },
        ) => f1 == f0 && p1 == progress && s1 == status,
        _ => false,
    }
}

/// The status a download stage at the head of `stages` has, if there is one.
pub open spec fn head_download(stages: Seq<JobStage>) -> Option<(u32, JobStatus)> {
    if stages.len() > 0 {
        match stages[0] {
            JobStage::Download { progress, status, .. } => Some((progress, status)),
            JobStage::Script { .. } => None,
        }
    } else {
        None
    }
}

/// What a report does to the download stage, which is always the first one:
/// nothing when the first stage is not a download.
pub open spec fn download_updated(new: Seq<JobStage>, old: Seq<JobStage>, progress: Option<u32>, status: Option<JobStatus>) -> bool {
    match head_download(old) {
        Some((p0, s0)) => {
            &&& same_except(new, old, 0)
            &&& download_now(
                new[0],
                old[0],
                match progress {
                    Some(p) => p,
                    None => p0,
                },
                match status {
                    Some(s) => s,
                    None => s0,
                },
            )
        },
        None => new == old,
    }
}

/// What applying `u` to the stages `old` gives.
pub open spec fn stages_updated(new: Seq<JobStage>, old: Seq<JobStage>, u: StageUpdate) -> bool {
    match u {
        StageUpdate::DownloadStarted => download_updated(new, old, None, Some(JobStatus::Running)),
        StageUpdate::DownloadProgress(p) => download_updated(new, old, Some(p), None),
        StageUpdate::DownloadComplete => download_updated(
            new,
            old,
            Some(PROGRESS_COMPLETE),
            Some(JobStatus::Success),
        ),
        StageUpdate::TaskStarted(name) => {
            let p = |s: JobStage| waits_as(s, name@);
            if no_pick(old, p) {
                new == old
            } else {
                exists|i: int|
                    first_pick(old, p, i) && same_except(new, old, i) && script_now(
                        #[trigger] new[i],
                        old[i],
                        JobStatus::Running,
                        logs_of(old[i]).push(starting_text(name@)),
                    )
            }
        },
        StageUpdate::TaskLog(line) => {
            if no_pick(old, |s: JobStage| runs(s)) {
                new == old
            } else {
                exists|i: int|
                    first_pick(old, |s: JobStage| runs(s), i) && same_except(new, old, i)
                        && script_now(
                        #[trigger] new[i],
                        old[i],
                        JobStatus::Running,
                        with_line(logs_of(old[i]), line@),
                    )
            }
        },
        StageUpdate::TaskComplete(success) => {
            if no_pick(old, |s: JobStage| runs(s)) {
                new == old
            } else {
                exists|i: int|
                    first_pick(old, |s: JobStage| runs(s), i) && same_except(new, old, i)
                        && script_now(
                        #[trigger] new[i],
                        old[i],
                        if success {
                            JobStatus::Success
                        } else {
                            JobStatus::Failed
                        },
                        logs_of(old[i]).push(outcome_text(success)),
                    )
            }
        },
    }
}

/// The first stage that `pick` picks, if any.
fn find_stage(stages: &Vec<JobStage>, pick: &StageUpdate) -> (r: Option<usize>)
    requires
        pick is TaskStarted || pick is TaskLog || pick is TaskComplete,
    ensures
        match pick {
            StageUpdate::TaskStarted(name) => match r {
                Some(i) => first_pick(stages@, |s: JobStage| waits_as(s, name@), i as int),
                None => no_pick(stages@, |s: JobStage| waits_as(s, name@)),
            },
            _ => match r {
                Some(i) => first_pick(stages@, |s: JobStage| runs(s), i as int),
                None => no_pick(stages@, |s: JobStage| runs(s)),
            },
        },
{
    let n = stages.len();
    for i in 0..n
        invariant
            n == stages@.len(),
            pick is TaskStarted || pick is TaskLog || pick is TaskComplete,
            match pick {
                StageUpdate::TaskStarted(name) => forall|j: int|
                    0 <= j < i ==> !waits_as(#[trigger] stages@[j], name@),
                _ => forall|j: int| 0 <= j < i ==> !runs(#[trigger] stages@[j]),
            },
    {
        let hit = match (&stages[i], pick) {
            (JobStage::Script { task_name, status, .. }, StageUpdate::TaskStarted(name)) => {
                *task_name == *name && *status == JobStatus::Pending
            },
            (JobStage::Script { status, .. }, _) => *status == JobStatus::Running,
            _ => false,
        };
        if hit {
            return Some(i);
        }
    }
    None
}

/// Applies one background report to the stages of a job.
pub fn update_stages(stages: &mut Vec<JobStage>, u: StageUpdate)
    ensures
        stages_updated(final(stages)@, old(stages)@, u),
{
    match u {
        StageUpdate::DownloadStarted | StageUpdate::DownloadProgress(_)
        | StageUpdate::DownloadComplete => {
            if stages.len() > 0 {
                let first = stages.remove(0);
                let updated = match first {
                    JobStage::Download { file_name, progress, status } => match u {
                        StageUpdate::DownloadStarted => JobStage::Download {
                            file_name,
                            progress,
                            status: JobStatus::Running,
                        },
                        StageUpdate::DownloadProgress(p) => JobStage::Download {
                            file_name,
                            progress: p,
                            status,
                        },
                        _ => JobStage::Download {
                            file_name,
                            progress: PROGRESS_COMPLETE,
                            status: JobStatus::Success,
                        },
                    },
                    other => other,
                };
                stages.insert(0, updated);
                proof {
                    assert(final(stages)@ =~= old(stages)@.update(0, final(stages)@[0]));
                    assert(head_download(old(stages)@) is None ==> final(stages)@ =~= old(stages)@);
                }
            }
        },
        StageUpdate::TaskStarted(_) | StageUpdate::TaskLog(_) | StageUpdate::TaskComplete(_) => {
            let found = find_stage(stages, &u);
            match found {
                None => {},
                Some(i) => {
                    let st = stages.remove(i);
                    let updated = match st {
                        JobStage::Script { task_name, mut logs, status } => {
                            let ghost before = logs@;
                            match u {
                                StageUpdate::TaskStarted(name) => {
                                    let mut line = "--- Starting Task: ".to_string();
                                    line.append(name.as_str());
                                    line.append(" ---");
                                    logs.push(line);
                                    proof {
                                        assert(log_texts(logs@) =~= log_texts(before).push(
                                            starting_text(name@),
                                        ));
                                    }
                                    JobStage::Script { task_name, logs, status: JobStatus::Running }
                                },
                                StageUpdate::TaskLog(line) => {
                                    logs.push(line);
                                    proof {
                                        assert(log_texts(logs@) =~= log_texts(before).push(line@));
                                    }
                                    if logs.len() > MAX_LOG_LINES {
                                        let ghost pushed = logs@;
                                        logs.remove(0);
                                        proof {
                                            assert(log_texts(logs@) =~= log_texts(pushed).drop_first());
                                        }
                                    }
                                    JobStage::Script { task_name, logs, status }
                                },
                                StageUpdate::TaskComplete(success) => {
                                    let end = if success {
                                        "--- Success ---".to_string()
                                    } else {
                                        "--- FAILED ---".to_string()
                                    };
                                    logs.push(end);
                                    proof {
                                        assert(log_texts(logs@) =~= log_texts(before).push(
                                            outcome_text(success),
                                        ));
                                    }
                                    JobStage::Script {
                                        task_name,
                                        logs,
                                        status: if success {
                                            JobStatus::Success
                                        } else {
                                            JobStatus::Failed
                                        },
                                    }
                                },
                                _ => JobStage::Script { task_name, logs, status },
                            }
                        },
                        other => other,
                    };
                    stages.insert(i, updated);
                    proof {
                        assert(final(stages)@ =~= old(stages)@.update(i as int, final(stages)@[i as int]));
                        assert(same_except(final(stages)@, old(stages)@, i as int));
                    }
                },
            }
        },
    }
}

} // verus!

verus! {

/// No two job cards are for the same project.
pub open spec fn repos_distinct(jobs: Seq<ActiveJob>) -> bool {
    forall|i: int, j: int|
        0 <= i < jobs.len() && 0 <= j < jobs.len() && i != j
            ==> #[trigger] jobs[i].repo_name@ != #[trigger] jobs[j].repo_name@
}

/// Some job card of `jobs` is for `repo`.
pub open spec fn holds_repo(jobs: Seq<ActiveJob>, repo: Seq<char>) -> bool {
    exists|i: int| 0 <= i < jobs.len() && #[trigger] jobs[i].repo_name@ == repo
}

/// The job cards of a list, keyed by project.
pub open spec fn keyed_jobs(jobs: Seq<ActiveJob>) -> Map<Seq<char>, ActiveJob> {
    Map::new(
        |repo: Seq<char>| holds_repo(jobs, repo),
        |repo: Seq<char>|
            jobs[choose|i: int| 0 <= i < jobs.len() && #[trigger] jobs[i].repo_name@ == repo],
    )
}

proof fn lemma_keyed_jobs_update(jobs: Seq<ActiveJob>, k: int, job: ActiveJob)
    requires
        repos_distinct(jobs),
        0 <= k < jobs.len(),
        jobs[k].repo_name@ == job.repo_name@,
    ensures
        repos_distinct(jobs.update(k, job)),
        keyed_jobs(jobs.update(k, job)) =~= keyed_jobs(jobs).insert(job.repo_name@, job),
{
    let s = jobs.update(k, job);
    assert forall|i: int, j: int|
        0 <= i < s.len() && 0 <= j < s.len() && i != j implies #[trigger] s[i].repo_name@
        != #[trigger] s[j].repo_name@ by {
        assert(s[i].repo_name@ == jobs[i].repo_name@);
        assert(s[j].repo_name@ == jobs[j].repo_name@);
    }
    assert forall|repo: Seq<char>| #[trigger] holds_repo(s, repo) == holds_repo(jobs, repo) by {
        if holds_repo(s, repo) {
            let i = choose|i: int| 0 <= i < s.len() && #[trigger] s[i].repo_name@ == repo;
            assert(jobs[i].repo_name@ == repo);
        }
        if holds_repo(jobs, repo) {
            let i = choose|i: int| 0 <= i < jobs.len() && #[trigger] jobs[i].repo_name@ == repo;
            assert(s[i].repo_name@ == repo);
        }
    }
    assert(holds_repo(jobs, job.repo_name@)) by {
        assert(jobs[k].repo_name@ == job.repo_name@);
    }
    assert forall|repo: Seq<char>| #[trigger] keyed_jobs(s).contains_key(repo) implies keyed_jobs(
        s,
    )[repo] == (if repo == job.repo_name@ {
        job
    } else {
        keyed_jobs(jobs)[repo]
    }) by {
        let i = choose|i: int| 0 <= i < s.len() && #[trigger] s[i].repo_name@ == repo;
        let j = choose|j: int| 0 <= j < jobs.len() && #[trigger] jobs[j].repo_name@ == repo;
        assert(jobs[i].repo_name@ == s[i].repo_name@);
        assert(i == j);
        if repo == job.repo_name@ {
            assert(i == k);
        }
    }
}

proof fn lemma_keyed_jobs_push(jobs: Seq<ActiveJob>, job: ActiveJob)
    requires
        repos_distinct(jobs),
        !holds_repo(jobs, job.repo_name@),
    ensures
        repos_distinct(jobs.push(job)),
        keyed_jobs(jobs.push(job)) =~= keyed_jobs(jobs).insert(job.repo_name@, job),
{
    let s = jobs.push(job);
    assert forall|i: int, j: int|
        0 <= i < s.len() && 0 <= j < s.len() && i != j implies #[trigger] s[i].repo_name@
        != #[trigger] s[j].repo_name@ by {
        if i == jobs.len() {
            assert(jobs[j].repo_name@ == s[j].repo_name@);
        } else if j == jobs.len() {
            assert(jobs[i].repo_name@ == s[i].repo_name@);
        }
    }
    assert forall|repo: Seq<char>| #[trigger] holds_repo(s, repo) == (holds_repo(jobs, repo)
        || repo == job.repo_name@) by {
        if holds_repo(s, repo) {
            let i = choose|i: int| 0 <= i < s.len() && #[trigger] s[i].repo_name@ == repo;
            if i < jobs.len() {
                assert(jobs[i].repo_name@ == repo);
            }
        }
        if holds_repo(jobs, repo) {
            let i = choose|i: int| 0 <= i < jobs.len() && #[trigger] jobs[i].repo_name@ == repo;
            assert(s[i].repo_name@ == repo);
        }
        if repo == job.repo_name@ {
            assert(s[jobs.len() as int].repo_name@ == repo);
        }
    }
    assert forall|repo: Seq<char>| #[trigger] keyed_jobs(s).contains_key(repo) implies keyed_jobs(
        s,
    )[repo] == (if repo == job.repo_name@ {
        job
    } else {
        keyed_jobs(jobs)[repo]
    }) by {
        let i = choose|i: int| 0 <= i < s.len() && #[trigger] s[i].repo_name@ == repo;
        if repo == job.repo_name@ {
            assert(s[jobs.len() as int].repo_name@ == repo);
            assert(i == jobs.len());
        } else {
            assert(i < jobs.len());
            assert(jobs[i].repo_name@ == repo);
            let k = choose|k: int| 0 <= k < jobs.len() && #[trigger] jobs[k].repo_name@ == repo;
            assert(s[k].repo_name@ == repo);
        }
    }
}

proof fn lemma_keyed_jobs_len(jobs: Seq<ActiveJob>)
    requires
        repos_distinct(jobs),
    ensures
        keyed_jobs(jobs).dom().finite(),
        keyed_jobs(jobs).len() == jobs.len(),
    decreases jobs.len(),
{
    if jobs.len() == 0 {
        assert(keyed_jobs(jobs).dom() =~= Set::<Seq<char>>::empty());
    } else {
        let prev = jobs.drop_last();
        let t = jobs.last();
        assert(repos_distinct(prev)) by {
            assert forall|i: int, j: int|
                0 <= i < prev.len() && 0 <= j < prev.len() && i != j implies #[trigger] prev[i].repo_name@
                != #[trigger] prev[j].repo_name@ by {
                assert(prev[i] == jobs[i]);
                assert(prev[j] == jobs[j]);
            }
        }
        assert(!holds_repo(prev, t.repo_name@)) by {
            if holds_repo(prev, t.repo_name@) {
                let i = choose|i: int| 0 <= i < prev.len() && #[trigger] prev[i].repo_name@ == t.repo_name@;
                assert(jobs[i].repo_name@ == jobs[jobs.len() - 1].repo_name@);
            }
        }
        lemma_keyed_jobs_len(prev);
        lemma_keyed_jobs_push(prev, t);
        assert(prev.push(t) =~= jobs);
    }
}

/// The job cards on the tasks page, at most one per project.
#[derive(Debug)]
pub struct JobBoard {
    jobs: Vec<ActiveJob>,
}

impl View for JobBoard {
    type V = Map<Seq<char>, ActiveJob>;

    closed spec fn view(&self) -> Map<Seq<char>, ActiveJob> {
        keyed_jobs(self.jobs@)
    }
}

/// What a report for `repo` does to the job board: the card of `repo`, if there
/// is one, keeps its project and target version and has its stages updated by
/// `u`; every other card stays as it was.
pub open spec fn board_updated(new: Map<Seq<char>, ActiveJob>, old: Map<Seq<char>, ActiveJob>, repo: Seq<char>, u: StageUpdate) -> bool {
    if old.contains_key(repo) {
        &&& new.dom() == old.dom()
        &&& forall|r: Seq<char>| #[trigger] old.contains_key(r) && r != repo ==> new[r] == old[r]
        &&& new[repo].repo_name == old[repo].repo_name
        &&& new[repo].target_version == old[repo].target_version
        &&& stages_updated(new[repo].stages@, old[repo].stages@, u)
    } else {
        new == old
    }
}

impl JobBoard {
    #[verifier::type_invariant]
    spec fn wf(self) -> bool {
        repos_distinct(self.jobs@)
    }

    /// An empty board.
    pub fn new() -> (b: JobBoard)
        ensures
            b@ == Map::<Seq<char>, ActiveJob>::empty(),
    {
        let b = JobBoard { jobs: Vec::new() };
        assert(b@ =~= Map::<Seq<char>, ActiveJob>::empty());
        b
    }

    fn position_of(&self, repo: &str) -> (r: Option<usize>)
        ensures
            match r {
                Some(k) => k < self.jobs@.len() && self.jobs@[k as int].repo_name@ == repo@,
                None => !holds_repo(self.jobs@, repo@),
            },
    {
        let n = self.jobs.len();
        for k in 0..n
            invariant
                n == self.jobs@.len(),
                forall|i: int| 0 <= i < k ==> #[trigger] self.jobs@[i].repo_name@ != repo@,
        {
            if self.jobs[k].repo_name == repo.to_string() {
                return Some(k);
            }
        }
        None
    }

    /// Puts up the card `job`, replacing any card for the same project.
    pub fn insert(&mut self, job: ActiveJob)
        ensures
            final(self)@ == old(self)@.insert(job.repo_name@, job),
    {
        proof {
            use_type_invariant(&*self);
        }
        let mut jobs: Vec<ActiveJob> = Vec::new();
        std::mem::swap(&mut jobs, &mut self.jobs);
        match self.position_of_in(&jobs, job.repo_name.as_str()) {
            Some(k) => {
                proof {
                    lemma_keyed_jobs_update(jobs@, k as int, job);
                }
                jobs.set(k, job);
            },
            None => {
                proof {
                    lemma_keyed_jobs_push(jobs@, job);
                }
                jobs.push(job);
            },
        }
        self.jobs = jobs;
    }

    fn position_of_in(&self, jobs: &Vec<ActiveJob>, repo: &str) -> (r: Option<usize>)
        ensures
            match r {
                Some(k) => k < jobs@.len() && jobs@[k as int].repo_name@ == repo@,
                None => !holds_repo(jobs@, repo@),
            },
    {
        let n = jobs.len();
        for k in 0..n
            invariant
                n == jobs@.len(),
                forall|i: int| 0 <= i < k ==> #[trigger] jobs@[i].repo_name@ != repo@,
        {
            if jobs[k].repo_name == repo.to_string() {
                return Some(k);
            }
        }
        None
    }

    /// The card for `repo`, if any.
    pub fn get(&self, repo: &str) -> (r: Option<&ActiveJob>)
        ensures
            match r {
                Some(j) => self@.contains_key(repo@) && *j == self@[repo@],
                None => !self@.contains_key(repo@),
            },
    {
        proof {
            use_type_invariant(self);
        }
        match self.position_of(repo) {
            Some(k) => {
                proof {
                    let j = choose|j: int|
                        0 <= j < self.jobs@.len() && #[trigger] self.jobs@[j].repo_name@ == repo@;
                    assert(j == k);
                }
                Some(&self.jobs[k])
            },
            None => None,
        }
    }

    /// The number of cards.
    pub fn len(&self) -> (n: usize)
        ensures
            n == self@.len(),
    {
        proof {
            use_type_invariant(self);
            lemma_keyed_jobs_len(self.jobs@);
        }
        self.jobs.len()
    }

    /// Whether the board holds no card.
    pub fn is_empty(&self) -> (b: bool)
        ensures
            b == (self@.len() == 0),
    {
        self.len() == 0
    }

    /// The cards, each once.
    pub fn entries(&self) -> (r: &Vec<ActiveJob>)
        ensures
            r@.len() == self@.len(),
            forall|i: int|
                0 <= i < r@.len() ==> self@.contains_key(#[trigger] r@[i].repo_name@)
                    && self@[r@[i].repo_name@] == r@[i],
    {
        proof {
            use_type_invariant(self);
            lemma_keyed_jobs_len(self.jobs@);
            assert forall|i: int| 0 <= i < self.jobs@.len() implies self@.contains_key(
                #[trigger] self.jobs@[i].repo_name@,
            ) && self@[self.jobs@[i].repo_name@] == self.jobs@[i] by {
                let repo = self.jobs@[i].repo_name@;
                assert(holds_repo(self.jobs@, repo));
                let j = choose|j: int|
                    0 <= j < self.jobs@.len() && #[trigger] self.jobs@[j].repo_name@ == repo;
                assert(j == i);
            }
        }
        &self.jobs
    }

    /// Applies a background report for `repo` to its card.
    pub fn update(&mut self, repo: &str, u: StageUpdate)
        ensures
            board_updated(final(self)@, old(self)@, repo@, u),
    {
        proof {
            use_type_invariant(&*self);
        }
        let mut jobs: Vec<ActiveJob> = Vec::new();
        std::mem::swap(&mut jobs, &mut self.jobs);
        let ghost old_jobs = jobs@;
        let ghost old_view = keyed_jobs(old_jobs);
        match self.position_of_in(&jobs, repo) {
            Some(k) => {
                let job = jobs.remove(k);
                let ActiveJob { repo_name, target_version, mut stages } = job;
                let ghost old_stages = stages@;
                update_stages(&mut stages, u);
                let new_job = ActiveJob { repo_name, target_version, stages };
                jobs.insert(k, new_job);
                self.jobs = jobs;
                proof {
                    assert(self.jobs@ =~= old_jobs.update(k as int, new_job));
                    lemma_keyed_jobs_update(old_jobs, k as int, new_job);
                    assert(holds_repo(old_jobs, repo@)) by {
                        assert(old_jobs[k as int].repo_name@ == repo@);
                    }
                    let j = choose|j: int|
                        0 <= j < old_jobs.len() && #[trigger] old_jobs[j].repo_name@ == repo@;
                    assert(j == k);
                    assert(old_view[repo@] == old_jobs[k as int]);
                    assert(self@ == old_view.insert(repo@, new_job));
                    assert(self@.dom() =~= old_view.dom());
                    assert(self@[repo@] == new_job);
                }
            },
            None => {
                self.jobs = jobs;
            },
        }
    }
}

/// The names of the scripts a job card lists for a pipeline: one per step whose
/// task is registered, in order, named as the task's manifest names it.
pub open spec fn planned_scripts(pipeline: Seq<PipelineTask>, registry: Map<Seq<char>, RegisteredTask>) -> Seq<Seq<char>>
    decreases pipeline.len(),
{
    if pipeline.len() == 0 {
        Seq::empty()
    } else {
        let prev = planned_scripts(pipeline.drop_last(), registry);
        let id = pipeline.last().task_id@;
        if registry.contains_key(id) {
            prev.push(registry[id].manifest.metadata.name@)
        } else {
            prev
        }
    }
}

/// `job` is the fresh card for downloading `file_name` of `repo` at `version`,
/// followed by the scripts that `scripts` names, all waiting.
pub open spec fn is_fresh_job(job: ActiveJob, repo: Seq<char>, version: Seq<char>, file_name: Seq<char>, scripts: Seq<Seq<char>>) -> bool {
    &&& job.repo_name@ == repo
    &&& job.target_version@ == version
    &&& job.stages@.len() == scripts.len() + 1
    &&& job.stages@[0] matches JobStage::Download { file_name: f, progress, status }
        && f@ == file_name && progress == 0 && status == JobStatus::Pending
    &&& forall|k: int|
        0 <= k < scripts.len() ==> (#[trigger] job.stages@[k + 1] matches JobStage::Script {
            task_name,
            logs,
            status,
        } && task_name@ == scripts[k] && logs@.len() == 0 && status == JobStatus::Pending)
}

/// The card for a download of `file_name` of `repo` at `version`, with one
/// waiting script stage for each pipeline step whose task is registered.
pub fn plan_job(
    repo: &str,
    version: &str,
    file_name: &str,
    pipeline: &Vec<PipelineTask>,
    registry: &TaskRegistry,
) -> (job: ActiveJob)
    ensures
        is_fresh_job(job, repo@, version@, file_name@, planned_scripts(pipeline@, registry@)),
{
    let mut stages: Vec<JobStage> = Vec::new();
    stages.push(
        JobStage::Download {
            file_name: file_name.to_string(),
            progress: 0,
            status: JobStatus::Pending,
        },
    );
    let n = pipeline.len();
    for i in 0..n
        invariant
            n == pipeline@.len(),
            stages@.len() == planned_scripts(pipeline@.take(i as int), registry@).len() + 1,
            stages@[0] matches JobStage::Download { file_name: f, progress, status } && f@
                == file_name@ && progress == 0 && status == JobStatus::Pending,
            forall|k: int|
                0 <= k < planned_scripts(pipeline@.take(i as int), registry@).len() ==> (
                #[trigger] stages@[k + 1] matches JobStage::Script { task_name, logs, status }
                    && task_name@ == planned_scripts(pipeline@.take(i as int), registry@)[k]
                    && logs@.len() == 0 && status == JobStatus::Pending),
    {
        proof {
            assert(pipeline@.take(i + 1).drop_last() =~= pipeline@.take(i as int));
            assert(pipeline@.take(i + 1).last() == pipeline@[i as int]);
        }
        match registry.get(pipeline[i].task_id.as_str()) {
            Some(registered) => {
                stages.push(
                    JobStage::Script {
                        task_name: registered.manifest.metadata.name.clone(),
                        logs: Vec::new(),
                        status: JobStatus::Pending,
                    },
                );
            },
            None => {},
        }
    }
    proof {
        assert(pipeline@.take(n as int) =~= pipeline@);
    }
    ActiveJob { repo_name: repo.to_string(), target_version: version.to_string(), stages }
}

/// How many stages of a job have succeeded.
pub open spec fn succeeded_count(stages: Seq<JobStage>) -> nat
    decreases stages.len(),
{
    if stages.len() == 0 {
        0
    } else {
        succeeded_count(stages.drop_last()) + if stages.last().status_of() == JobStatus::Success {
            1nat
        } else {
            0nat
        }
    }
}

/// The number of stages of a job that have succeeded: what the overall progress
/// bar of a card counts.
pub fn succeeded_stages(stages: &Vec<JobStage>) -> (n: usize)
    ensures
        n == succeeded_count(stages@),
{
    let mut n: usize = 0;
    let len = stages.len();
    for i in 0..len
        invariant
            len == stages@.len(),
            n == succeeded_count(stages@.take(i as int)),
            n <= i,
    {
        proof {
            assert(stages@.take(i + 1).drop_last() =~= stages@.take(i as int));
        }
        if *stages[i].status() == JobStatus::Success {
            n = n + 1;
        }
    }
    proof {
        assert(stages@.take(len as int) =~= stages@);
    }
    n
}

} // verus!

verus! {

/// Two lists of stages have the same stages: same number, same kinds, and the
/// same file and script names.
pub open spec fn same_stages(new: Seq<JobStage>, old: Seq<JobStage>) -> bool {
    &&& new.len() == old.len()
    &&& forall|i: int|
        0 <= i < old.len() ==> match (#[trigger] new[i], old[i]) {
            (
                JobStage::Download { file_name: f1, .. },
                JobStage::Download { file_name: f0, .. },
            ) => f1 == f0,
            (JobStage::Script { task_name: n1, .. }, JobStage::Script { task_name: n0, .. }) => n1
                == n0,
            _ => false,
        }
}

/// How far along a status is: waiting, running, then done either way.
pub open spec fn status_rank(s: JobStatus) -> int {
    match s {
        JobStatus::Pending => 0,
        JobStatus::Running => 1,
        JobStatus::Success => 2,
        JobStatus::Failed => 2,
    }
}

proof fn lemma_same_stages_refl(s: Seq<JobStage>)
    ensures
        same_stages(s, s),
{
    assert forall|i: int| 0 <= i < s.len() implies match (#[trigger] s[i], s[i]) {
        (JobStage::Download { file_name: f1, .. }, JobStage::Download { file_name: f0, .. }) => f1
            == f0,
        (JobStage::Script { task_name: n1, .. }, JobStage::Script { task_name: n0, .. }) => n1
            == n0,
        _ => false,
    } by {
        match s[i] {
            JobStage::Download { .. } => {},
            JobStage::Script { .. } => {},
        }
    }
}

/// A report never adds, removes or renames a stage, and changes at most one.
pub proof fn law_report_keeps_stages(new: Seq<JobStage>, old: Seq<JobStage>, u: StageUpdate)
    requires
        stages_updated(new, old, u),
    ensures
        same_stages(new, old),
        exists|k: int| same_except(new, old, k),
{
    lemma_same_stages_refl(old);
    match u {
        StageUpdate::DownloadStarted | StageUpdate::DownloadProgress(_)
        | StageUpdate::DownloadComplete => {
            if head_download(old) is Some {
                assert(same_except(new, old, 0));
                assert forall|i: int| 0 <= i < old.len() implies match (#[trigger] new[i], old[i]) {
                    (
                        JobStage::Download { file_name: f1, .. },
                        JobStage::Download { file_name: f0, .. },
                    ) => f1 == f0,
                    (
                        JobStage::Script { task_name: n1, .. },
                        JobStage::Script { task_name: n0, .. },
                    ) => n1 == n0,
                    _ => false,
                } by {
                    if i != 0 {
                        assert(new[i] == old[i]);
                        match old[i] {
                            JobStage::Download { .. } => {},
                            JobStage::Script { .. } => {},
                        }
                    }
                }
            } else {
                assert(same_except(new, old, 0));
            }
        },
        StageUpdate::TaskStarted(name) => {
            if no_pick(old, |s: JobStage| waits_as(s, name@)) {
                assert(same_except(new, old, 0));
            } else {
                let k = choose|i: int|
                    first_pick(old, |s: JobStage| waits_as(s, name@), i) && same_except(new, old, i)
                        && script_now(
                        #[trigger] new[i],
                        old[i],
                        JobStatus::Running,
                        logs_of(old[i]).push(starting_text(name@)),
                    );
                assert(same_except(new, old, k));
                assert forall|i: int| 0 <= i < old.len() implies match (#[trigger] new[i], old[i]) {
                    (
                        JobStage::Download { file_name: f1, .. },
                        JobStage::Download { file_name: f0, .. },
                    ) => f1 == f0,
                    (
                        JobStage::Script { task_name: n1, .. },
                        JobStage::Script { task_name: n0, .. },
                    ) => n1 == n0,
                    _ => false,
                } by {
                    if i != k {
                        assert(new[i] == old[i]);
                        match old[i] {
                            JobStage::Download { .. } => {},
                            JobStage::Script { .. } => {},
                        }
                    }
                }
            }
        },
        StageUpdate::TaskLog(line) => {
            if no_pick(old, |s: JobStage| runs(s)) {
                assert(same_except(new, old, 0));
            } else {
                let k = choose|i: int|
                    first_pick(old, |s: JobStage| runs(s), i) && same_except(new, old, i)
                        && script_now(
                        #[trigger] new[i],
                        old[i],
                        JobStatus::Running,
                        with_line(logs_of(old[i]), line@),
                    );
                assert(same_except(new, old, k));
                assert forall|i: int| 0 <= i < old.len() implies match (#[trigger] new[i], old[i]) {
                    (
                        JobStage::Download { file_name: f1, .. },
                        JobStage::Download { file_name: f0, .. },
                    ) => f1 == f0,
                    (
                        JobStage::Script { task_name: n1, .. },
                        JobStage::Script { task_name: n0, .. },
                    ) => n1 == n0,
                    _ => false,
                } by {
                    if i != k {
                        assert(new[i] == old[i]);
                        match old[i] {
                            JobStage::Download { .. } => {},
                            JobStage::Script { .. } => {},
                        }
                    }
                }
            }
        },
        StageUpdate::TaskComplete(success) => {
            if no_pick(old, |s: JobStage| runs(s)) {
                assert(same_except(new, old, 0));
            } else {
                let k = choose|i: int|
                    first_pick(old, |s: JobStage| runs(s), i) && same_except(new, old, i)
                        && script_now(
                        #[trigger] new[i],
                        old[i],
                        if success {
                            JobStatus::Success
                        } else {
                            JobStatus::Failed
                        },
                        logs_of(old[i]).push(outcome_text(success)),
                    );
                assert(same_except(new, old, k));
                assert forall|i: int| 0 <= i < old.len() implies match (#[trigger] new[i], old[i]) {
                    (
                        JobStage::Download { file_name: f1, .. },
                        JobStage::Download { file_name: f0, .. },
                    ) => f1 == f0,
                    (
                        JobStage::Script { task_name: n1, .. },
                        JobStage::Script { task_name: n0, .. },
                    ) => n1 == n0,
                    _ => false,
                } by {
                    if i != k {
                        assert(new[i] == old[i]);
                        match old[i] {
                            JobStage::Download { .. } => {},
                            JobStage::Script { .. } => {},
                        }
                    }
                }
            }
        },
    }
}

/// No report but a late "download started" moves a stage back: a waiting stage
/// may start, a running one may finish, and a finished one stays finished.
pub proof fn law_status_never_goes_back(new: Seq<JobStage>, old: Seq<JobStage>, u: StageUpdate)
    requires
        stages_updated(new, old, u),
        !(u is DownloadStarted),
    ensures
        new.len() == old.len(),
        forall|i: int|
            0 <= i < old.len() ==> status_rank((#[trigger] new[i]).status_of()) >= status_rank(
                old[i].status_of(),
            ),
{
    law_report_keeps_stages(new, old, u);
}

/// A job card lists one waiting script per pipeline step whose task is
/// installed, in pipeline order: an empty pipeline lists none, appending an
/// installed step adds exactly its task's name at the end (even when the same
/// task ran just before), and appending a step whose task is missing adds
/// nothing.
pub proof fn law_plan_one_script_per_step(
    pipeline: Seq<PipelineTask>,
    step: PipelineTask,
    registry: Map<Seq<char>, RegisteredTask>,
)
    ensures
        planned_scripts(Seq::<PipelineTask>::empty(), registry) == Seq::<Seq<char>>::empty(),
        registry.contains_key(step.task_id@) ==> planned_scripts(pipeline.push(step), registry)
            == planned_scripts(pipeline, registry).push(
            registry[step.task_id@].manifest.metadata.name@,
        ),
        !registry.contains_key(step.task_id@) ==> planned_scripts(pipeline.push(step), registry)
            == planned_scripts(pipeline, registry),
{
    assert(pipeline.push(step).drop_last() =~= pipeline);
}

/// While every script's log is within `MAX_LOG_LINES`, a streamed log line
/// keeps it so.
pub proof fn law_log_stays_bounded(new: Seq<JobStage>, old: Seq<JobStage>, line: String)
    requires
        stages_updated(new, old, StageUpdate::TaskLog(line)),
        forall|i: int| 0 <= i < old.len() ==> (#[trigger] logs_of(old[i])).len() <= MAX_LOG_LINES,
    ensures
        forall|i: int| 0 <= i < new.len() ==> (#[trigger] logs_of(new[i])).len() <= MAX_LOG_LINES,
{
    if !no_pick(old, |s: JobStage| runs(s)) {
        let k = choose|i: int|
            first_pick(old, |s: JobStage| runs(s), i) && same_except(new, old, i) && script_now(
                #[trigger] new[i],
                old[i],
                JobStatus::Running,
                with_line(logs_of(old[i]), line@),
            );
        assert forall|i: int| 0 <= i < new.len() implies (#[trigger] logs_of(new[i])).len()
            <= MAX_LOG_LINES by {
            if i != k {
                assert(new[i] == old[i]);
            } else {
                assert(logs_of(old[k]).len() <= MAX_LOG_LINES);
            }
        }
    }
}

} // verus!

verus! {

/// How a log line is coloured in a job card's terminal.
#[derive(Debug, PartialEq, Eq, Structural, Clone, Copy)]
pub enum LogTone {
    Error,
    Success,
    Plain,
}

/// The tone of a log line: an error when it starts with `ERROR:` or mentions
/// `FAILED`, a success when it mentions `Success`, plain otherwise.
pub open spec fn tone_of(line: Seq<char>) -> LogTone {
    if ("ERROR:"@.len() <= line.len() && line.take("ERROR:"@.len() as int) == "ERROR:"@)
        || crate::text::occurs_in(line, "FAILED"@) {
        LogTone::Error
    } else if crate::text::occurs_in(line, "Success"@) {
        LogTone::Success
    } else {
        LogTone::Plain
    }
}

/// The tone of a log line.
pub fn log_tone(line: &str) -> (t: LogTone)
    ensures
        t == tone_of(line@),
{
    if crate::text::starts_with(line, "ERROR:") || crate::text::contains_text(line, "FAILED") {
        LogTone::Error
    } else if crate::text::contains_text(line, "Success") {
        LogTone::Success
    } else {
        LogTone::Plain
    }
}

} // verus!
