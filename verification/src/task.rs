//! Task descriptors and the per-task processing contract the engine consumes.

use vstd::prelude::*;

verus! {

/// An independently processable unit of work. The engine never inspects the
/// payload behind it; the identifier exists so that an embedder can report
/// per-task outcomes in human-readable form.
pub struct TaskDescriptor {
    pub id: String,
}

impl TaskDescriptor {
    pub fn new(id: String) -> (r: Self)
        ensures
            r.id@ == id@,
    {
        TaskDescriptor { id }
    }
}

/// A single task's failure, recorded in the run statistics and never allowed
/// to stop other lanes or abort the run.
#[derive(Debug)]
pub struct TaskError {
    pub message: String,
}

/// The per-task processing contract. An implementation must be safe to invoke
/// from arbitrarily many lanes at once, so it may hold no mutable state of its
/// own; `succeeds` names the tasks it accepts, and `process` must report
/// success on exactly those.
pub trait TaskProcessor {
    spec fn succeeds(&self, task: TaskDescriptor) -> bool;

    fn process(&self, task: &TaskDescriptor) -> (r: Result<(), TaskError>)
        ensures
            r is Ok <==> self.succeeds(*task),
    ;
}

/// How many of the given tasks the processor accepts.
pub open spec fn success_count<P: TaskProcessor>(p: &P, tasks: Seq<TaskDescriptor>) -> int
    decreases tasks.len(),
{
    if tasks.len() == 0 {
        0
    } else {
        success_count(p, tasks.drop_last()) + if p.succeeds(tasks.last()) {
            1int
        } else {
            0int
        }
    }
}

/// A deterministic processor: it fails exactly the tasks whose identifiers
/// are listed and succeeds on every other.
pub struct ScriptedProcessor {
    pub failing: Vec<String>,
}

impl ScriptedProcessor {
    pub fn new(failing: Vec<String>) -> (r: Self)
        ensures
            r.failing == failing,
    {
        ScriptedProcessor { failing }
    }
}

impl TaskProcessor for ScriptedProcessor {
    open spec fn succeeds(&self, task: TaskDescriptor) -> bool {
        forall|i: int| 0 <= i < self.failing@.len() ==> self.failing@[i]@ != task.id@
    }

    fn process(&self, task: &TaskDescriptor) -> (r: Result<(), TaskError>)
        ensures
            r is Ok <==> self.succeeds(*task),
    {
        let mut i: usize = 0;
        while i < self.failing.len()
            invariant
                i <= self.failing@.len(),
                forall|j: int| 0 <= j < i ==> self.failing@[j]@ != task.id@,
            decreases self.failing@.len() - i,
        {
            if self.failing[i] == task.id {
                assert(self.failing@[i as int]@ == task.id@);
                return Err(TaskError { message: task.id.clone() });
            }
            i = i + 1;
        }
        Ok(())
    }
}

} // verus!
