//! The registry of installed tasks, keyed by task id.
use vstd::prelude::*;
use vstd::string::*;
use crate::types::{RegisteredTask, TaskManifest};

verus! {

broadcast use vstd::string::group_string_axioms;

/// The installed tasks, at most one per id.
#[derive(Debug)]
pub struct TaskRegistry {
    tasks: Vec<RegisteredTask>,
}

/// No two entries share an id.
pub open spec fn ids_distinct(tasks: Seq<RegisteredTask>) -> bool {
    forall|i: int, j: int|
        0 <= i < tasks.len() && 0 <= j < tasks.len() && i != j
            ==> #[trigger] tasks[i].manifest.id@ != #[trigger] tasks[j].manifest.id@
}

/// Some entry of `tasks` has the id `id`.
pub open spec fn holds_id(tasks: Seq<RegisteredTask>, id: Seq<char>) -> bool {
    exists|i: int| 0 <= i < tasks.len() && #[trigger] tasks[i].manifest.id@ == id
}

/// The tasks of a list, keyed by id.
pub open spec fn keyed(tasks: Seq<RegisteredTask>) -> Map<Seq<char>, RegisteredTask> {
    Map::new(
        |id: Seq<char>| holds_id(tasks, id),
        |id: Seq<char>|
            tasks[choose|i: int| 0 <= i < tasks.len() && #[trigger] tasks[i].manifest.id@ == id],
    )
}

/// A task found on disk while scanning: its manifest, its directory, and
/// whether the entrypoint script that the manifest names exists there.
#[derive(Debug)]
pub struct ScannedTask {
    pub manifest: TaskManifest,
    pub directory: String,
    pub entrypoint_exists: bool,
}

/// The registry that scanning gives: each found task whose entrypoint exists is
/// registered in the order found, a later one replacing an earlier one of the
/// same id.
pub open spec fn scanned_registry(found: Seq<ScannedTask>) -> Map<Seq<char>, RegisteredTask>
    decreases found.len(),
{
    if found.len() == 0 {
        Map::empty()
    } else {
        let prev = scanned_registry(found.drop_last());
        let t = found.last();
        if t.entrypoint_exists {
            prev.insert(
                t.manifest.id@,
                RegisteredTask { manifest: t.manifest, directory: t.directory },
            )
        } else {
            prev
        }
    }
}

/// The warning printed for a task whose entrypoint script is missing.
pub open spec fn missing_entrypoint_text(id: Seq<char>, entrypoint: Seq<char>) -> Seq<char> {
    "Warning: Task '"@ + id + "' is missing its entrypoint script '"@ + entrypoint + "'"@
}

/// The warnings that scanning gives, one per found task whose entrypoint is
/// missing, in the order found.
pub open spec fn scan_warnings(found: Seq<ScannedTask>) -> Seq<Seq<char>>
    decreases found.len(),
{
    if found.len() == 0 {
        Seq::empty()
    } else {
        let prev = scan_warnings(found.drop_last());
        let t = found.last();
        if t.entrypoint_exists {
            prev
        } else {
            prev.push(missing_entrypoint_text(t.manifest.id@, t.manifest.entrypoint@))
        }
    }
}

impl View for TaskRegistry {
    type V = Map<Seq<char>, RegisteredTask>;

    closed spec fn view(&self) -> Map<Seq<char>, RegisteredTask> {
        keyed(self.tasks@)
    }
}

proof fn lemma_keyed_push(tasks: Seq<RegisteredTask>, t: RegisteredTask)
    requires
        ids_distinct(tasks),
        !holds_id(tasks, t.manifest.id@),
    ensures
        ids_distinct(tasks.push(t)),
        keyed(tasks.push(t)) =~= keyed(tasks).insert(t.manifest.id@, t),
{
    let s = tasks.push(t);
    assert forall|i: int, j: int|
        0 <= i < s.len() && 0 <= j < s.len() && i != j implies #[trigger] s[i].manifest.id@
        != #[trigger] s[j].manifest.id@ by {
        if i == tasks.len() {
            assert(tasks[j].manifest.id@ == s[j].manifest.id@);
        } else if j == tasks.len() {
            assert(tasks[i].manifest.id@ == s[i].manifest.id@);
        }
    }
    assert forall|id: Seq<char>| #[trigger] holds_id(s, id) == (holds_id(tasks, id) || id
        == t.manifest.id@) by {
        if holds_id(s, id) {
            let i = choose|i: int| 0 <= i < s.len() && #[trigger] s[i].manifest.id@ == id;
            if i < tasks.len() {
                assert(tasks[i].manifest.id@ == id);
            }
        }
        if holds_id(tasks, id) {
            let i = choose|i: int| 0 <= i < tasks.len() && #[trigger] tasks[i].manifest.id@ == id;
            assert(s[i].manifest.id@ == id);
        }
        if id == t.manifest.id@ {
            assert(s[tasks.len() as int].manifest.id@ == id);
        }
    }
    assert forall|id: Seq<char>| #[trigger] keyed(s).contains_key(id) implies keyed(s)[id] == (
    if id == t.manifest.id@ {
        t
    } else {
        keyed(tasks)[id]
    }) by {
        let i = choose|i: int| 0 <= i < s.len() && #[trigger] s[i].manifest.id@ == id;
        if id == t.manifest.id@ {
            assert(s[tasks.len() as int].manifest.id@ == id);
            assert(i == tasks.len());
        } else {
            assert(i < tasks.len());
            assert(tasks[i].manifest.id@ == id);
            let k = choose|k: int| 0 <= k < tasks.len() && #[trigger] tasks[k].manifest.id@ == id;
            assert(s[k].manifest.id@ == id);
        }
    }
}

proof fn lemma_keyed_update(tasks: Seq<RegisteredTask>, k: int, t: RegisteredTask)
    requires
        ids_distinct(tasks),
        0 <= k < tasks.len(),
        tasks[k].manifest.id@ == t.manifest.id@,
    ensures
        ids_distinct(tasks.update(k, t)),
        keyed(tasks.update(k, t)) =~= keyed(tasks).insert(t.manifest.id@, t),
{
    let s = tasks.update(k, t);
    assert forall|i: int, j: int|
        0 <= i < s.len() && 0 <= j < s.len() && i != j implies #[trigger] s[i].manifest.id@
        != #[trigger] s[j].manifest.id@ by {
        assert(s[i].manifest.id@ == tasks[i].manifest.id@);
        assert(s[j].manifest.id@ == tasks[j].manifest.id@);
    }
    assert forall|id: Seq<char>| #[trigger] holds_id(s, id) == holds_id(tasks, id) by {
        if holds_id(s, id) {
            let i = choose|i: int| 0 <= i < s.len() && #[trigger] s[i].manifest.id@ == id;
            assert(tasks[i].manifest.id@ == id);
        }
        if holds_id(tasks, id) {
            let i = choose|i: int| 0 <= i < tasks.len() && #[trigger] tasks[i].manifest.id@ == id;
            assert(s[i].manifest.id@ == id);
        }
    }
    assert(holds_id(tasks, t.manifest.id@)) by {
        assert(tasks[k].manifest.id@ == t.manifest.id@);
    }
    assert forall|id: Seq<char>| #[trigger] keyed(s).contains_key(id) implies keyed(s)[id] == (
    if id == t.manifest.id@ {
        t
    } else {
        keyed(tasks)[id]
    }) by {
        let i = choose|i: int| 0 <= i < s.len() && #[trigger] s[i].manifest.id@ == id;
        let j = choose|j: int| 0 <= j < tasks.len() && #[trigger] tasks[j].manifest.id@ == id;
        assert(tasks[i].manifest.id@ == s[i].manifest.id@);
        assert(i == j);
        if id == t.manifest.id@ {
            assert(i == k);
        } else {
            assert(i != k);
        }
    }
}

impl TaskRegistry {
    #[verifier::type_invariant]
    spec fn wf(self) -> bool {
        ids_distinct(self.tasks@)
    }

    /// An empty registry.
    pub fn new() -> (r: TaskRegistry)
        ensures
            r@ == Map::<Seq<char>, RegisteredTask>::empty(),
    {
        let r = TaskRegistry { tasks: Vec::new() };
        assert(r@ =~= Map::<Seq<char>, RegisteredTask>::empty());
        r
    }

    /// The position of the entry with id `id`, if there is one.
    fn position_of(&self, id: &str) -> (r: Option<usize>)
        ensures
            match r {
                Some(k) => k < self.tasks@.len() && self.tasks@[k as int].manifest.id@ == id@,
                None => !holds_id(self.tasks@, id@),
            },
    {
        let n = self.tasks.len();
        for k in 0..n
            invariant
                n == self.tasks@.len(),
                forall|i: int| 0 <= i < k ==> #[trigger] self.tasks@[i].manifest.id@ != id@,
        {
            if self.tasks[k].manifest.id == id.to_string() {
                return Some(k);
            }
        }
        None
    }

    /// Registers `task` under its id, replacing any task of the same id.
    pub fn insert(&mut self, task: RegisteredTask)
        ensures
            final(self)@ == old(self)@.insert(task.manifest.id@, task),
    {
        proof {
            use_type_invariant(&*self);
        }
        let ghost id = task.manifest.id@;
        match self.position_of(task.manifest.id.as_str()) {
            Some(k) => {
                proof {
                    lemma_keyed_update(self.tasks@, k as int, task);
                }
                let mut tasks: Vec<RegisteredTask> = Vec::new();
                std::mem::swap(&mut tasks, &mut self.tasks);
                tasks.set(k, task);
                self.tasks = tasks;
            },
            None => {
                proof {
                    lemma_keyed_push(self.tasks@, task);
                }
                let mut tasks: Vec<RegisteredTask> = Vec::new();
                std::mem::swap(&mut tasks, &mut self.tasks);
                tasks.push(task);
                self.tasks = tasks;
            },
        }
    }

    /// The task registered under `id`, if any.
    pub fn get(&self, id: &str) -> (r: Option<&RegisteredTask>)
        ensures
            match r {
                Some(t) => self@.contains_key(id@) && *t == self@[id@],
                None => !self@.contains_key(id@),
            },
    {
        proof {
            use_type_invariant(self);
        }
        match self.position_of(id) {
            Some(k) => {
                proof {
                    let j = choose|j: int|
                        0 <= j < self.tasks@.len() && #[trigger] self.tasks@[j].manifest.id@
                            == id@;
                    assert(j == k);
                }
                Some(&self.tasks[k])
            },
            None => None,
        }
    }

    /// Whether a task is registered under `id`.
    pub fn contains(&self, id: &str) -> (b: bool)
        ensures
            b == self@.contains_key(id@),
    {
        self.get(id).is_some()
    }

    /// The number of registered tasks.
    pub fn len(&self) -> (n: usize)
        ensures
            n == self@.len(),
    {
        proof {
            use_type_invariant(self);
            lemma_keyed_len(self.tasks@);
        }
        self.tasks.len()
    }

    /// Whether no task is registered.
    pub fn is_empty(&self) -> (b: bool)
        ensures
            b == (self@.len() == 0),
    {
        self.len() == 0
    }

    /// The registered tasks, each once.
    pub fn entries(&self) -> (r: &Vec<RegisteredTask>)
        ensures
            r@.len() == self@.len(),
            forall|i: int|
                0 <= i < r@.len() ==> self@.contains_key(#[trigger] r@[i].manifest.id@)
                    && self@[r@[i].manifest.id@] == r@[i],
    {
        proof {
            use_type_invariant(self);
            lemma_keyed_len(self.tasks@);
            assert forall|i: int| 0 <= i < self.tasks@.len() implies self@.contains_key(
                #[trigger] self.tasks@[i].manifest.id@,
            ) && self@[self.tasks@[i].manifest.id@] == self.tasks@[i] by {
                let id = self.tasks@[i].manifest.id@;
                assert(holds_id(self.tasks@, id));
                let j = choose|j: int|
                    0 <= j < self.tasks@.len() && #[trigger] self.tasks@[j].manifest.id@ == id;
                assert(j == i);
            }
        }
        &self.tasks
    }

    /// The registry built from the tasks found on disk, in the order found, and the
    /// warnings for those whose entrypoint script is missing.
    pub fn from_scan(found: Vec<ScannedTask>) -> (r: (TaskRegistry, Vec<String>))
        ensures
            r.0@ == scanned_registry(found@),
            r.1@.map_values(|w: String| w@) == scan_warnings(found@),
    {
        let ghost all = found@;
        let mut rest = found;
        let total = rest.len();
        let mut registry = TaskRegistry::new();
        let mut warnings: Vec<String> = Vec::new();
        let mut k: usize = 0;
        proof {
            assert(all.skip(0) =~= all);
            assert(all.take(0) =~= Seq::<ScannedTask>::empty());
            assert(warnings@.map_values(|w: String| w@) =~= Seq::<Seq<char>>::empty());
        }
        while rest.len() > 0
            invariant
                all.len() == total,
                k <= all.len(),
                rest@ == all.skip(k as int),
                registry@ == scanned_registry(all.take(k as int)),
                warnings@.map_values(|w: String| w@) == scan_warnings(all.take(k as int)),
            decreases rest@.len(),
        {
            let t = rest.remove(0);
            proof {
                assert(t == all[k as int]);
                assert(all.take(k + 1).drop_last() =~= all.take(k as int));
                assert(all.take(k + 1).last() == t);
                assert(all.skip(k + 1) =~= all.skip(k as int).drop_first());
            }
            if t.entrypoint_exists {
                registry.insert(RegisteredTask { manifest: t.manifest, directory: t.directory });
            } else {
                let mut w = "Warning: Task '".to_string();
                w.append(t.manifest.id.as_str());
                w.append("' is missing its entrypoint script '");
                w.append(t.manifest.entrypoint.as_str());
                w.append("'");
                let ghost before = warnings@;
                warnings.push(w);
                proof {
                    assert(warnings@.map_values(|w: String| w@) =~= before.map_values(
                        |w: String| w@,
                    ).push(w@));
                }
            }
            k = k + 1;
        }
        proof {
            assert(all.take(k as int) =~= all);
        }
        (registry, warnings)
    }
}

proof fn lemma_keyed_len(tasks: Seq<RegisteredTask>)
    requires
        ids_distinct(tasks),
    ensures
        keyed(tasks).dom().finite(),
        keyed(tasks).len() == tasks.len(),
    decreases tasks.len(),
{
    if tasks.len() == 0 {
        assert(keyed(tasks).dom() =~= Set::<Seq<char>>::empty());
    } else {
        let prev = tasks.drop_last();
        let t = tasks.last();
        assert(ids_distinct(prev)) by {
            assert forall|i: int, j: int|
                0 <= i < prev.len() && 0 <= j < prev.len() && i != j implies #[trigger] prev[i].manifest.id@
                != #[trigger] prev[j].manifest.id@ by {
                assert(prev[i] == tasks[i]);
                assert(prev[j] == tasks[j]);
            }
        }
        assert(!holds_id(prev, t.manifest.id@)) by {
            if holds_id(prev, t.manifest.id@) {
                let i = choose|i: int| 0 <= i < prev.len() && #[trigger] prev[i].manifest.id@ == t.manifest.id@;
                assert(tasks[i].manifest.id@ == tasks[tasks.len() - 1].manifest.id@);
            }
        }
        lemma_keyed_len(prev);
        lemma_keyed_push(prev, t);
        assert(prev.push(t) =~= tasks);
    }
}

} // verus!

verus! {

/// Registering a task makes it what its id looks up, and leaves every other id
/// as it was.
pub proof fn law_insert_then_lookup(
    before: Map<Seq<char>, RegisteredTask>,
    after: Map<Seq<char>, RegisteredTask>,
    task: RegisteredTask,
    other: Seq<char>,
)
    requires
        after == before.insert(task.manifest.id@, task),
    ensures
        after.contains_key(task.manifest.id@),
        after[task.manifest.id@] == task,
        other != task.manifest.id@ ==> (after.contains_key(other) == before.contains_key(other)
            && (before.contains_key(other) ==> after[other] == before[other])),
{
}

/// Scanning registers only tasks whose entrypoint script exists: every
/// registered task is one that was found, with its entrypoint, under its own id,
/// and no task found later under that id was registered.
pub proof fn law_scan_registers_only_runnable(found: Seq<ScannedTask>, id: Seq<char>)
    requires
        scanned_registry(found).contains_key(id),
    ensures
        exists|i: int|
            0 <= i < found.len() && (#[trigger] found[i]).entrypoint_exists
                && found[i].manifest.id@ == id && scanned_registry(found)[id] == (RegisteredTask {
                manifest: found[i].manifest,
                directory: found[i].directory,
            }) && forall|j: int|
                i < j < found.len() ==> !((#[trigger] found[j]).entrypoint_exists
                    && found[j].manifest.id@ == id),
    decreases found.len(),
{
    let prev = found.drop_last();
    let t = found.last();
    let n = found.len() - 1;
    if t.entrypoint_exists && t.manifest.id@ == id {
        assert(found[n] == t);
    } else {
        assert(scanned_registry(prev).contains_key(id));
        law_scan_registers_only_runnable(prev, id);
        let i = choose|i: int|
            0 <= i < prev.len() && (#[trigger] prev[i]).entrypoint_exists && prev[i].manifest.id@
                == id && scanned_registry(prev)[id] == (RegisteredTask {
                manifest: prev[i].manifest,
                directory: prev[i].directory,
            }) && forall|j: int|
                i < j < prev.len() ==> !((#[trigger] prev[j]).entrypoint_exists
                    && prev[j].manifest.id@ == id);
        assert(found[i] == prev[i]);
        assert forall|j: int| i < j < found.len() implies !((#[trigger] found[j]).entrypoint_exists
            && found[j].manifest.id@ == id) by {
            if j < n {
                assert(found[j] == prev[j]);
            }
        }
    }
}

/// Scanning registers every task whose entrypoint script exists: its id is in
/// the registry, whatever else was found before or after it.
pub proof fn law_scan_registers_every_runnable(found: Seq<ScannedTask>, i: int)
    requires
        0 <= i < found.len(),
        found[i].entrypoint_exists,
    ensures
        scanned_registry(found).contains_key(found[i].manifest.id@),
    decreases found.len(),
{
    let n = found.len() - 1;
    if i < n {
        let prev = found.drop_last();
        assert(prev[i] == found[i]);
        law_scan_registers_every_runnable(prev, i);
    }
}

} // verus!
