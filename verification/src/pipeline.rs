//! Running a project's post-download pipeline: the decisions between the steps
//! that read task manifests and run scripts. Whoever drives a run performs each
//! action it asks for and reports back.
use vstd::prelude::*;
use vstd::string::*;
use crate::registry::TaskRegistry;
use crate::text::concat3;
use crate::types::{PipelineTask, RegisteredTask};

verus! {

broadcast use vstd::string::group_string_axioms;

/// Where a run stands.
#[derive(Debug)]
pub enum RunPhase {
    /// About to look up the next step.
    Ready,
    /// Waiting for the manifest of the current step to be read and checked.
    AwaitingManifest { directory: String, entrypoint: String },
    /// A step failed; the run only has to announce its end.
    Stopping,
    /// The end has been announced.
    Finished,
}

/// What a run asks its driver to do next.
#[derive(Debug)]
pub enum PipelineAction {
    /// Read and check `task.toml` in `directory`, then report the outcome.
    ValidateManifest { directory: String, entrypoint: String },
    /// Run the script `entrypoint` of `directory` as the task `task_name`.
    RunScript { task_name: String, directory: String, entrypoint: String },
    /// Show `line` in the project's log.
    Log { line: String },
    /// Announce that the pipeline is over.
    Complete,
}

/// What the driver reports back.
#[derive(Debug)]
pub enum PipelineEvent {
    /// The last action is done (or the run is starting).
    Proceed,
    /// The manifest was read: the task's name, or why it could not be used.
    ManifestChecked(Result<String, String>),
}

/// A run of the pipeline of `repo_name`.
#[derive(Debug)]
pub struct PipelineRun {
    pub repo_name: String,
    pub tasks: Vec<PipelineTask>,
    /// The step to look up next.
    pub next: usize,
    pub phase: RunPhase,
}

/// The line logged when a step names a task that is not installed.
pub open spec fn missing_task_text(task_id: Seq<char>) -> Seq<char> {
    "ERROR: Task '"@ + task_id + "' not found in registry."@
}

/// The line logged when a step's manifest cannot be used.
pub open spec fn invalid_manifest_text(error: Seq<char>) -> Seq<char> {
    "ERROR: Manifest Validation Failed: "@ + error
}

/// The line logged for a line a script writes to its error stream.
pub open spec fn error_line_text(line: Seq<char>) -> Seq<char> {
    "ERROR: "@ + line
}

/// How far a run is from its end: every step but re-asking for a manifest brings
/// it closer.
pub open spec fn steps_left(run: PipelineRun) -> nat {
    let left = if run.next <= run.tasks@.len() {
        (run.tasks@.len() - run.next) as nat
    } else {
        0nat
    };
    match run.phase {
        RunPhase::Ready => 3 * left + 2,
        RunPhase::AwaitingManifest { .. } => 3 * left + 1,
        RunPhase::Stopping => 1,
        RunPhase::Finished => 0,
    }
}

/// What one step of a run does, given the registry it looks tasks up in.
pub open spec fn run_stepped(
    new: PipelineRun,
    old: PipelineRun,
    event: PipelineEvent,
    registry: Map<Seq<char>, RegisteredTask>,
    action: PipelineAction,
) -> bool {
    &&& new.repo_name == old.repo_name
    &&& new.tasks == old.tasks
    &&& match old.phase {
        RunPhase::Finished => new.phase is Finished && new.next == old.next && action is Complete,
        RunPhase::Stopping => new.phase is Finished && new.next == old.next && action is Complete,
        RunPhase::Ready => if old.next >= old.tasks@.len() {
            new.phase is Finished && new.next == old.next && action is Complete
        } else {
            let id = old.tasks@[old.next as int].task_id@;
            if registry.contains_key(id) {
                let t = registry[id];
                &&& new.next == old.next
                &&& new.phase == (RunPhase::AwaitingManifest {
                    directory: t.directory,
                    entrypoint: t.manifest.entrypoint,
                })
                &&& action == (PipelineAction::ValidateManifest {
                    directory: t.directory,
                    entrypoint: t.manifest.entrypoint,
                })
            } else {
                &&& new.next == old.next
                &&& new.phase is Stopping
                &&& action matches PipelineAction::Log { line } && line@ == missing_task_text(id)
            }
        },
        RunPhase::AwaitingManifest { directory, entrypoint } => match event {
            PipelineEvent::ManifestChecked(Ok(task_name)) => {
                &&& new.next == old.next + 1
                &&& new.phase is Ready
                &&& action == (PipelineAction::RunScript { task_name, directory, entrypoint })
            },
            PipelineEvent::ManifestChecked(Err(error)) => {
                &&& new.next == old.next
                &&& new.phase is Stopping
                &&& action matches PipelineAction::Log { line } && line@ == invalid_manifest_text(
                    error@,
                )
            },
            PipelineEvent::Proceed => {
                &&& new.next == old.next
                &&& new.phase == old.phase
                &&& action == (PipelineAction::ValidateManifest { directory, entrypoint })
            },
        },
    }
}

/// A run is consistent when it waits for a manifest only while a step is left.
pub open spec fn run_consistent(run: PipelineRun) -> bool {
    run.phase is AwaitingManifest ==> run.next < run.tasks@.len()
}

impl PipelineRun {
    /// A run of `tasks` for `repo_name`, about to look up its first step.
    pub fn new(repo_name: String, tasks: Vec<PipelineTask>) -> (r: PipelineRun)
        ensures
            r.repo_name == repo_name,
            r.tasks == tasks,
            r.next == 0,
            r.phase is Ready,
            run_consistent(r),
    {
        PipelineRun { repo_name, tasks, next: 0, phase: RunPhase::Ready }
    }

    /// Takes one step of the run: decides, from the registry and what the driver
    /// reports, what the driver must do next.
    pub fn step(&mut self, event: PipelineEvent, registry: &TaskRegistry) -> (action:
        PipelineAction)
        requires
            run_consistent(*old(self)),
        ensures
            run_stepped(*final(self), *old(self), event, registry@, action),
            run_consistent(*final(self)),
    {
        let mut phase = RunPhase::Finished;
        std::mem::swap(&mut phase, &mut self.phase);
        match phase {
            RunPhase::Finished | RunPhase::Stopping => PipelineAction::Complete,
            RunPhase::Ready => {
                if self.next >= self.tasks.len() {
                    PipelineAction::Complete
                } else {
                    match registry.get(self.tasks[self.next].task_id.as_str()) {
                        Some(t) => {
                            self.phase =
                            RunPhase::AwaitingManifest {
                                directory: t.directory.clone(),
                                entrypoint: t.manifest.entrypoint.clone(),
                            };
                            PipelineAction::ValidateManifest {
                                directory: t.directory.clone(),
                                entrypoint: t.manifest.entrypoint.clone(),
                            }
                        },
                        None => {
                            self.phase = RunPhase::Stopping;
                            let line = concat3(
                                "ERROR: Task '",
                                self.tasks[self.next].task_id.as_str(),
                                "' not found in registry.",
                            );
                            PipelineAction::Log { line }
                        },
                    }
                }
            },
            RunPhase::AwaitingManifest { directory, entrypoint } => match event {
                PipelineEvent::ManifestChecked(Ok(task_name)) => {
                    let count = self.tasks.len();
                    assert(self.next < count);
                    self.next = self.next + 1;
                    self.phase = RunPhase::Ready;
                    PipelineAction::RunScript { task_name, directory, entrypoint }
                },
                PipelineEvent::ManifestChecked(Err(error)) => {
                    self.phase = RunPhase::Stopping;
                    let mut line = "ERROR: Manifest Validation Failed: ".to_string();
                    line.append(error.as_str());
                    PipelineAction::Log { line }
                },
                PipelineEvent::Proceed => {
                    let action = PipelineAction::ValidateManifest {
                        directory: directory.clone(),
                        entrypoint: entrypoint.clone(),
                    };
                    self.phase = RunPhase::AwaitingManifest { directory, entrypoint };
                    action
                },
            },
        }
    }
}

/// Every step of a run brings it closer to its end, except a step that finds the
/// run already finished and one that asks again for a manifest it still waits for.
pub proof fn law_run_progresses(
    new: PipelineRun,
    old: PipelineRun,
    event: PipelineEvent,
    registry: Map<Seq<char>, RegisteredTask>,
    action: PipelineAction,
)
    requires
        run_consistent(old),
        run_stepped(new, old, event, registry, action),
        !(old.phase is Finished),
        !(old.phase is AwaitingManifest && event is Proceed),
    ensures
        steps_left(new) < steps_left(old),
{
}

/// A run announces its end exactly when it finishes, and runs scripts in the
/// order of its pipeline: a script it asks to run belongs to the step it had
/// reached, and the step after it comes next.
pub proof fn law_run_in_order(
    new: PipelineRun,
    old: PipelineRun,
    event: PipelineEvent,
    registry: Map<Seq<char>, RegisteredTask>,
    action: PipelineAction,
)
    requires
        run_consistent(old),
        run_stepped(new, old, event, registry, action),
    ensures
        action is Complete <==> new.phase is Finished,
        action is RunScript ==> old.phase is AwaitingManifest && new.next == old.next + 1
            && old.next < old.tasks@.len(),
        !(action is RunScript) ==> new.next == old.next,
{
}

/// The log line for a line a script writes to its error stream.
pub fn error_line(line: &str) -> (r: String)
    ensures
        r@ == error_line_text(line@),
{
    let mut r = "ERROR: ".to_string();
    r.append(line);
    r
}

} // verus!
